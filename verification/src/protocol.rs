//! How a request is answered step by step. A handler names a command to be performed and keeps
//! its stage; what came of the command takes it to the next step, until it ends with an answer.
use crate::headers::{header_entries, Entries};
use crate::ids::Id;
use crate::json::{json_of, Json};
use crate::models::{
    CartDetailsResponse, CartItem, Order, OrderDetailsResponse, OrderItem, OrderItemDetailsPublic,
    OrderItemShown, OrderStatus, OrderWithCustomerInfo, Page, Product, ProductStatus, Role, ShoppingCart,
    TokenClaims, User, UserPublic,
};
use crate::sql::SqlQuery;
use axum::http::{HeaderMap, HeaderValue};
use serde_json::Value;
use vstd::prelude::*;

verus! {

/// Why the database did not answer.
#[derive(Debug, PartialEq, Eq)]
pub enum DatabaseError {
    RowNotFound,
    Other(String),
}

/// Why a request was refused.
#[derive(Debug, PartialEq, Eq)]
pub enum AppError {
    NotFound,
    UnauthorizedAccess(String),
    UnprocessableEntity(String),
    Conflict(String),
    Validation(String),
    InternalServerError(String),
    BadRequest(String),
    SqlxError(DatabaseError),
    MultipartError(String),
    ImageError(String),
}

/// An error by what it says.
pub enum Fault {
    NotFound,
    UnauthorizedAccess(Seq<char>),
    UnprocessableEntity(Seq<char>),
    Conflict(Seq<char>),
    Validation(Seq<char>),
    InternalServerError(Seq<char>),
    BadRequest(Seq<char>),
    RowNotFound,
    Database(Seq<char>),
    Multipart(Seq<char>),
    Image(Seq<char>),
}

impl View for AppError {
    type V = Fault;

    open spec fn view(&self) -> Fault {
        match self {
            AppError::NotFound => Fault::NotFound,
            AppError::UnauthorizedAccess(text) => Fault::UnauthorizedAccess(text@),
            AppError::UnprocessableEntity(text) => Fault::UnprocessableEntity(text@),
            AppError::Conflict(text) => Fault::Conflict(text@),
            AppError::Validation(text) => Fault::Validation(text@),
            AppError::InternalServerError(text) => Fault::InternalServerError(text@),
            AppError::BadRequest(text) => Fault::BadRequest(text@),
            AppError::SqlxError(DatabaseError::RowNotFound) => Fault::RowNotFound,
            AppError::SqlxError(DatabaseError::Other(text)) => Fault::Database(text@),
            AppError::MultipartError(text) => Fault::Multipart(text@),
            AppError::ImageError(text) => Fault::Image(text@),
        }
    }
}

/// What is sent back in the body.
pub enum Body {
    Empty,
    Json(Value),
    Product(Product),
    Products(Page<Product>),
    User(UserPublic),
    Claims { message: &'static str, claims: TokenClaims },
    Orders(Page<OrderWithCustomerInfo>),
    OrderDetails(OrderDetailsResponse),
    Order(Order),
    Cart(CartDetailsResponse),
    EmptyCart,
    GuestCart { guest_cart_id: Id, cart_details: CartDetailsResponse },
}

/// An answer to a request.
pub struct Response {
    pub status: u16,
    pub headers: HeaderMap<HeaderValue>,
    pub body: Body,
}

/// A body by what it holds.
pub enum Content {
    Empty,
    Json(Json),
    Product(Product),
    Products(Page<Product>),
    User(UserPublic),
    Claims { message: Seq<char>, claims: TokenClaims },
    Orders(Page<OrderWithCustomerInfo>),
    OrderDetails { order: Order, items: Seq<OrderItemShown> },
    Order(Order),
    Cart(CartDetailsResponse),
    EmptyCart,
    GuestCart { guest_cart_id: Id, cart_details: CartDetailsResponse },
}

impl View for Body {
    type V = Content;

    open spec fn view(&self) -> Content {
        match *self {
            Body::Empty => Content::Empty,
            Body::Json(value) => Content::Json(json_of(value)),
            Body::Product(product) => Content::Product(product),
            Body::Products(page) => Content::Products(page),
            Body::User(user) => Content::User(user),
            Body::Claims { message, claims } => Content::Claims { message: message@, claims },
            Body::Orders(page) => Content::Orders(page),
            Body::OrderDetails(details) => Content::OrderDetails {
                order: details.order,
                items: details.items@.map_values(|item: OrderItemDetailsPublic| item@),
            },
            Body::Order(order) => Content::Order(order),
            Body::Cart(details) => Content::Cart(details),
            Body::EmptyCart => Content::EmptyCart,
            Body::GuestCart { guest_cart_id, cart_details } => Content::GuestCart {
                guest_cart_id,
                cart_details,
            },
        }
    }
}

/// An answer by what it holds.
pub struct Answer {
    pub status: u16,
    pub headers: Entries,
    pub body: Content,
}

impl View for Response {
    type V = Answer;

    open spec fn view(&self) -> Answer {
        Answer {
            status: self.status,
            headers: header_entries(self.headers),
            body: self.body@,
        }
    }
}

/// How a request ends.
pub type Outcome = Result<Response, AppError>;

/// How a request ends, by what is sent or said.
pub open spec fn seen(outcome: Outcome) -> Result<Answer, Fault> {
    match outcome {
        Ok(response) => Ok(response@),
        Err(error) => Err(error@),
    }
}

/// Whose cart is meant.
#[derive(Debug, Clone, Copy, PartialEq, Eq)]
pub enum CartOwner {
    User(Id),
    Guest(Id),
}

/// The columns of a product that a request may set.
pub struct ProductRow {
    pub id: Id,
    pub name: String,
    pub description: String,
    pub price: i64,
    pub gender: String,
    pub condition: String,
    pub category: String,
    pub status: ProductStatus,
    pub images: Vec<String>,
    pub on_sale: bool,
}

/// The columns of a new order.
pub struct OrderRow {
    pub id: Id,
    pub user_id: Option<Id>,
    pub guest_email: Option<String>,
    pub guest_session_id: Option<Id>,
    pub status: OrderStatus,
    pub total_price: i64,
    pub shipping_first_name: String,
    pub shipping_last_name: String,
    pub shipping_address_line1: String,
    pub shipping_address_line2: Option<String>,
    pub shipping_city: String,
    pub shipping_postal_code: String,
    pub shipping_country: String,
    pub shipping_phone: String,
    pub payment_method: String,
    pub shipping_method_name: &'static str,
}

/// The columns of a user's address.
pub struct ShippingRow {
    pub user_id: Id,
    pub first_name: Option<String>,
    pub last_name: Option<String>,
    pub address_line1: Option<String>,
    pub address_line2: Option<String>,
    pub city: Option<String>,
    pub postal_code: Option<String>,
    pub country: Option<String>,
    pub phone: Option<String>,
}

/// One statement for the database.
pub enum Query {
    SelectProduct { id: Id },
    LockProduct { id: Id },
    SelectProducts { ids: Vec<Id>, lock: bool },
    InsertProduct { product: ProductRow },
    UpdateProduct { product: ProductRow },
    SetProductStatus { id: Id, status: ProductStatus },
    SetStatuses { ids: Vec<Id>, status: ProductStatus },
    FindProductInOrders { id: Id },
    DeleteProduct { id: Id },
    SelectUser { email: String },
    InsertUser { email: String, password_hash: String, role: Role },
    SelectCart { owner: CartOwner, lock: bool },
    SelectCartById { id: Id },
    InsertCart { owner: CartOwner },
    SelectCartItems { cart_id: Id },
    InsertCartItem { cart_id: Id, product_id: Id },
    DeleteCartItem { cart_id: Id, product_id: Id },
    DeleteCartItems { cart_id: Id },
    MoveCartItems { to: Id, from: Id },
    DetachGuest { cart_id: Id, user_id: Id },
    DeleteCart { id: Id },
    InsertOrder { order: OrderRow },
    InsertOrderItem { order_id: Id, product_id: Id, price: i64 },
    SelectOrder { id: Id },
    SelectOrderItems { order_id: Id },
    SelectOrderProducts { order_id: Id },
    UpdateOrderStatus { id: Id, order_status: OrderStatus },
    DeleteOrderItems { order_id: Id },
    DeleteOrder { id: Id },
    UpsertShipping { shipping: ShippingRow },
}

/// One image file to be stored.
pub struct ImageUpload {
    pub file_name: String,
    pub bytes: Vec<u8>,
}

/// The kinds of label that a product or an order carries.
#[derive(Debug, Clone, Copy, PartialEq, Eq)]
pub enum LabelKind {
    Gender,
    Condition,
    Category,
    PaymentMethod,
}

/// Something to be done outside.
pub enum Command {
    /// Opens a transaction, in which the queries that follow run.
    Begin,
    Commit,
    Rollback,
    /// Takes a connection for the queries that follow.
    Acquire,
    Query(Query),
    /// Runs a query that counts rows.
    Count(SqlQuery),
    ListProducts(SqlQuery),
    ListOrders(SqlQuery),
    /// Works out page numbers in doubles, where whole numbers do not give both of them.
    CountPages { total_items: i64, offset: i64, limit: i64 },
    /// Goes to the next field of the request's form.
    NextField,
    /// Reads the current field's bytes.
    ReadBytes,
    /// Reads the current field's text.
    ReadText,
    /// Reads a label.
    ReadLabel { kind: LabelKind, text: String },
    /// Reads a product's status.
    ReadStatus { text: String },
    /// Stores images, and gives the address of each.
    UploadImages { images: Vec<ImageUpload> },
    /// Finds the image that each address names.
    FindImages { urls: Vec<String> },
    DeleteImages { ids: Vec<String> },
    HashPassword { password: String },
    VerifyPassword { password_hash: String, password: String },
    CreateToken { user_id: Id, role: Role },
    /// Puts together what a cart holds.
    DescribeCart { cart: ShoppingCart },
}

/// A field of a form that was sent in parts.
pub struct FormField {
    pub name: Option<String>,
    pub file_name: Option<String>,
}

/// What came of a command.
pub enum Reply {
    Failed(AppError),
    Done,
    /// How many rows a statement touched.
    Affected(u64),
    Found(bool),
    Count(i64),
    Pages { total_pages: i64, current_page: i64 },
    Product(Option<Product>),
    Products(Vec<Product>),
    User(Option<User>),
    Cart(Option<ShoppingCart>),
    CartItems(Vec<CartItem>),
    CartDetails(CartDetailsResponse),
    Order(Option<Order>),
    Orders(Vec<OrderWithCustomerInfo>),
    OrderItems(Vec<OrderItem>),
    Ids(Vec<Id>),
    Field(Option<FormField>),
    Bytes(Vec<u8>),
    Text(String),
    Label(String),
    Status(ProductStatus),
    /// A label or status could not be read, for this reason.
    Unreadable(String),
    Urls(Vec<String>),
    /// For each address the image that it names, if it names one.
    Images(Vec<Option<String>>),
    Verified(bool),
}

/// The next step of a request.
pub enum Step<S> {
    /// Perform the command, then go on from the stage.
    Perform(S, Command),
    /// End the request. A transaction that is still open is rolled back.
    Finish(Outcome),
    /// The reply does not answer the command.
    Unexpected,
}

/// Ends a request with a refusal.
pub fn refuse<S>(error: AppError) -> (step: Step<S>)
    ensures
        step == Step::<S>::Finish(Err(error)),
{
    Step::Finish(Err(error))
}

/// Ends a request with an answer.
pub fn answer<S>(status: u16, headers: HeaderMap<HeaderValue>, body: Body) -> (step: Step<S>)
    ensures
        ends(step, Ok(Answer { status, headers: header_entries(headers), body: body@ })),
{
    Step::Finish(Ok(Response { status, headers, body }))
}

/// Whether a step ends the request as described.
pub open spec fn ends<S>(step: Step<S>, outcome: Result<Answer, Fault>) -> bool {
    step matches Step::Finish(end) && seen(end) == outcome
}

/// A request under way.
pub trait Stage: Sized {
    /// Whether the numbers in `reply` can be worked with.
    spec fn admits(self, reply: Reply) -> bool;

    /// Whether `step` is what follows when `reply` came of the command.
    spec fn follows(self, reply: Reply, step: Step<Self>) -> bool;

    /// Whether the numbers in `reply` can be worked with.
    fn accepts(&self, reply: &Reply) -> (yes: bool)
        ensures
            yes == self.admits(*reply),
    ;

    /// Goes on with what came of the command.
    fn resume(self, reply: Reply) -> (step: Step<Self>)
        requires
            self.admits(reply),
        ensures
            self.follows(reply, step),
    ;
}

} // verus!
