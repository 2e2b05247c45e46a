//! The rows, forms and answers of the shop. A point in time is a number of microseconds since
//! 1970-01-01 00:00 UTC, a price a number of hundredths. A gender, condition, category or payment
//! method is the label that the database stores.
use crate::ids::Id;
use vstd::prelude::*;

verus! {

#[derive(Debug, Clone, Copy, PartialEq, Eq, Structural)]
pub enum Role {
    Admin,
    Customer,
}

/// Who a request's token names.
#[derive(Debug, Clone, Copy, PartialEq, Eq)]
pub struct TokenClaims {
    pub sub: Id,
    pub role: Role,
    pub exp: i64,
}

#[derive(Debug, Clone, Copy, PartialEq, Eq, Structural)]
pub enum ProductStatus {
    Available,
    Reserved,
    Sold,
    Archived,
}

impl ProductStatus {
    /// The label that the database stores.
    pub open spec fn label(self) -> &'static str {
        match self {
            ProductStatus::Available => "Available",
            ProductStatus::Reserved => "Reserved",
            ProductStatus::Sold => "Sold",
            ProductStatus::Archived => "Archived",
        }
    }

    /// The label that the database stores.
    pub fn text(&self) -> (text: &'static str)
        ensures
            text == self.label(),
    {
        match self {
            ProductStatus::Available => "Available",
            ProductStatus::Reserved => "Reserved",
            ProductStatus::Sold => "Sold",
            ProductStatus::Archived => "Archived",
        }
    }
}

/// The state of an order: a new one is pending, any other is named by its label.
#[derive(Debug, PartialEq, Eq)]
pub enum OrderStatus {
    Pending,
    Named(String),
}

impl OrderStatus {
    /// The label that the database stores.
    pub open spec fn label(self) -> Seq<char> {
        match self {
            OrderStatus::Pending => "Pending"@,
            OrderStatus::Named(label) => label@,
        }
    }

    /// The label that the database stores.
    pub fn text(&self) -> (text: &str)
        ensures
            text@ == self.label(),
    {
        match self {
            OrderStatus::Pending => "Pending",
            OrderStatus::Named(label) => label.as_str(),
        }
    }
}

#[derive(Debug, PartialEq, Eq)]
pub struct Product {
    pub id: Id,
    pub name: String,
    pub description: String,
    pub price: i64,
    pub gender: String,
    pub condition: String,
    pub category: String,
    pub status: ProductStatus,
    pub images: Vec<String>,
    pub on_sale: bool,
    pub created_at: i64,
    pub updated_at: i64,
}

/// A product by what it holds.
pub struct ProductShown {
    pub id: Id,
    pub name: String,
    pub description: String,
    pub price: i64,
    pub gender: String,
    pub condition: String,
    pub category: String,
    pub status: ProductStatus,
    pub images: Seq<String>,
    pub on_sale: bool,
    pub created_at: i64,
    pub updated_at: i64,
}

impl View for Product {
    type V = ProductShown;

    open spec fn view(&self) -> ProductShown {
        ProductShown {
            id: self.id,
            name: self.name,
            description: self.description,
            price: self.price,
            gender: self.gender,
            condition: self.condition,
            category: self.category,
            status: self.status,
            images: self.images@,
            on_sale: self.on_sale,
            created_at: self.created_at,
            updated_at: self.updated_at,
        }
    }
}

impl Product {
    /// Makes another product with the same contents.
    pub fn copy(&self) -> (copy: Product)
        ensures
            copy@ == self@,
    {
        let mut images: Vec<String> = Vec::new();
        for i in 0..self.images.len()
            invariant
                images@ =~= self.images@.take(i as int),
        {
            images.push(self.images[i].clone());
        }
        assert(images@ =~= self.images@);
        Product {
            id: self.id,
            name: self.name.clone(),
            description: self.description.clone(),
            price: self.price,
            gender: self.gender.clone(),
            condition: self.condition.clone(),
            category: self.category.clone(),
            status: self.status,
            images,
            on_sale: self.on_sale,
            created_at: self.created_at,
            updated_at: self.updated_at,
        }
    }
}

#[derive(Debug, PartialEq, Eq)]
pub struct User {
    pub id: Id,
    pub email: String,
    pub password_hash: String,
    pub role: Role,
    pub created_at: i64,
    pub updated_at: i64,
}

/// What others may see of a user.
#[derive(Debug, PartialEq, Eq)]
pub struct UserPublic {
    pub id: Id,
    pub email: String,
    pub role: Role,
    pub created_at: i64,
    pub updated_at: i64,
}

impl User {
    /// The user without the password hash.
    pub open spec fn public(self) -> UserPublic {
        UserPublic {
            id: self.id,
            email: self.email,
            role: self.role,
            created_at: self.created_at,
            updated_at: self.updated_at,
        }
    }

    /// Drops the password hash.
    pub fn into_public(self) -> (public: UserPublic)
        ensures
            public == self.public(),
    {
        UserPublic {
            id: self.id,
            email: self.email,
            role: self.role,
            created_at: self.created_at,
            updated_at: self.updated_at,
        }
    }
}

/// A cart: a user's, a guest session's, or both.
#[derive(Debug, PartialEq, Eq)]
pub struct ShoppingCart {
    pub id: Id,
    pub user_id: Option<Id>,
    pub guest_session_id: Option<Id>,
    pub created_at: i64,
    pub updated_at: i64,
}

/// One product in a cart.
#[derive(Debug, Clone, Copy, PartialEq, Eq)]
pub struct CartItem {
    pub cart_id: Id,
    pub product_id: Id,
}

/// What a cart holds, ready to be sent, as JSON.
#[derive(Debug, PartialEq, Eq)]
pub struct CartDetailsResponse {
    pub json: String,
}

#[derive(Debug, PartialEq, Eq)]
pub struct Order {
    pub id: Id,
    pub user_id: Option<Id>,
    pub order_date: i64,
    pub status: OrderStatus,
    pub total_price: i64,
    pub shipping_first_name: String,
    pub shipping_last_name: String,
    pub shipping_address_line1: String,
    pub shipping_address_line2: Option<String>,
    pub shipping_city: String,
    pub shipping_postal_code: String,
    pub shipping_country: String,
    pub shipping_phone: String,
    pub shipping_method_name: Option<String>,
    pub payment_method: Option<String>,
    pub guest_email: Option<String>,
    pub guest_session_id: Option<Id>,
    pub created_at: i64,
    pub updated_at: i64,
}

/// An order with the address to which mail about it goes.
#[derive(Debug, PartialEq, Eq)]
pub struct OrderWithCustomerInfo {
    pub order: Order,
    pub customer_email: Option<String>,
}

#[derive(Debug, Clone, Copy, PartialEq, Eq)]
pub struct OrderItem {
    pub id: Id,
    pub order_id: Id,
    pub product_id: Id,
    pub price_at_purchase: i64,
}

/// One product of an order, with the price that was paid.
#[derive(Debug, PartialEq, Eq)]
pub struct OrderItemDetailsPublic {
    pub order_item_id: Id,
    pub product: Product,
    pub price_at_purchase: i64,
}

/// One product of an order by what it holds.
pub struct OrderItemShown {
    pub order_item_id: Id,
    pub product: ProductShown,
    pub price_at_purchase: i64,
}

impl View for OrderItemDetailsPublic {
    type V = OrderItemShown;

    open spec fn view(&self) -> OrderItemShown {
        OrderItemShown {
            order_item_id: self.order_item_id,
            product: self.product@,
            price_at_purchase: self.price_at_purchase,
        }
    }
}

#[derive(Debug, PartialEq, Eq)]
pub struct OrderDetailsResponse {
    pub order: Order,
    pub items: Vec<OrderItemDetailsPublic>,
}

/// One page of a listing.
#[derive(Debug, PartialEq, Eq)]
pub struct Page<T> {
    pub total_items: i64,
    pub total_pages: i64,
    pub current_page: i64,
    pub per_page: i64,
    pub data: Vec<T>,
}

/// Which products are asked for, and how they are ordered and cut into pages.
pub struct ListingParams {
    pub limit: i64,
    pub offset: i64,
    pub gender: Option<String>,
    pub category: Option<String>,
    pub condition: Option<String>,
    pub status: Option<ProductStatus>,
    pub price_min: Option<i64>,
    pub price_max: Option<i64>,
    pub on_sale: Option<bool>,
    pub search: Option<String>,
    pub sort_by: String,
    pub order: String,
}

/// Which orders are asked for, and how they are ordered and cut into pages.
pub struct OrderListingParams {
    pub limit: i64,
    pub offset: i64,
    pub status: Option<OrderStatus>,
    pub date_from: Option<i64>,
    pub date_to: Option<i64>,
    pub search: Option<String>,
    pub sort_by: String,
    pub order: String,
}

pub struct RegistrationPayload {
    pub email: String,
    pub password: String,
}

pub struct LoginPayload {
    pub email: String,
    pub password: String,
}

/// The checkout form.
pub struct CheckoutFormPayload {
    pub shipping_first_name: String,
    pub shipping_last_name: String,
    pub shipping_address_line1: String,
    pub shipping_address_line2: Option<String>,
    pub shipping_city: String,
    pub shipping_postal_code: String,
    pub shipping_country: String,
    pub shipping_phone: String,
    pub payment_method: String,
    pub shipping_method_key: String,
    pub guest_checkout_email: Option<String>,
}

/// The form with a user's address.
pub struct UpdateUserShippingDetailsPayload {
    pub shipping_first_name: Option<String>,
    pub shipping_last_name: Option<String>,
    pub shipping_address_line1: Option<String>,
    pub shipping_address_line2: Option<String>,
    pub shipping_city: Option<String>,
    pub shipping_postal_code: Option<String>,
    pub shipping_country: Option<String>,
    pub shipping_phone: Option<String>,
}

pub struct UpdateOrderStatusPayload {
    pub status: OrderStatus,
}

#[derive(Debug, Clone, Copy, PartialEq, Eq)]
pub struct AddProductToCartPayload {
    pub product_id: Id,
}

#[derive(Debug, Clone, Copy, PartialEq, Eq)]
pub struct MergeCartPayload {
    pub guest_cart_id: Id,
}

/// One rule that a form field broke.
pub struct FieldError {
    pub code: String,
    pub message: Option<String>,
}

/// The rules that one form field broke.
pub struct FieldErrors {
    pub field: String,
    pub errors: Vec<FieldError>,
}

/// What was found wrong with a form, field by field, and all of it as one text.
pub struct ValidationErrors {
    pub fields: Vec<FieldErrors>,
    pub text: String,
}

} // verus!
