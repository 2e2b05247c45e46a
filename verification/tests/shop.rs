//! Whole requests, run against tables in memory.
use std::collections::{BTreeMap, BTreeSet, VecDeque};
use storefront::handlers::carts::add_item_to_session_cart;
use storefront::handlers::create_order::{lacks_guest_email, place_order, shipping_method};
use storefront::handlers::create_product::add_product;
use storefront::handlers::{
    add_item_to_cart_handler, add_item_to_guest_cart, archivize_product_handler,
    create_order_handler, create_product_handler, get_cart_handler, get_guest_cart,
    get_order_details_handler, get_product_details, merge_cart_handler,
    permanent_delete_order_handler, permanent_delete_product_handler, register_handler,
    remove_item_from_cart_handler, remove_item_from_guest_cart, update_order_status_handler,
    update_product_partial_handler, upsert_user_shipping_details_handler, XGuestCartId,
};
use storefront::models::{
    AddProductToCartPayload, CartDetailsResponse, CartItem, CheckoutFormPayload, MergeCartPayload,
    Order, OrderItem, OrderStatus, Product, ProductStatus, RegistrationPayload, Role, ShoppingCart,
    TokenClaims, UpdateOrderStatusPayload, UpdateUserShippingDetailsPayload, User,
    ValidationErrors,
};
use storefront::protocol::{
    AppError, Body, CartOwner, Command, DatabaseError, FormField, LabelKind, OrderRow, Outcome,
    ProductRow, Query, Reply, Response, Stage, Step,
};

#[derive(Clone, PartialEq, Debug)]
struct Row {
    name: String,
    description: String,
    price: i64,
    gender: String,
    condition: String,
    category: String,
    status: ProductStatus,
    images: Vec<String>,
    on_sale: bool,
    created_at: i64,
    updated_at: i64,
}

#[derive(Clone, PartialEq, Debug, Default)]
struct Tables {
    products: BTreeMap<u128, Row>,
    carts: BTreeMap<u128, (Option<u128>, Option<u128>)>,
    cart_items: BTreeSet<(u128, u128)>,
    orders: BTreeMap<u128, (Option<u128>, Option<u128>, i64)>,
    order_items: Vec<(u128, u128, i64)>,
    /// The email address and the password hash of each user.
    users: BTreeMap<u128, (String, String)>,
    /// The columns of each user's address.
    shipping: BTreeMap<u128, Vec<Option<String>>>,
}

#[derive(Default)]
struct Shop {
    committed: Tables,
    open: Option<Tables>,
    /// Commands that fail, by their place in the request.
    failing: BTreeSet<usize>,
    form: VecDeque<(Option<&'static str>, Option<&'static str>, &'static str)>,
    current: &'static str,
    uploaded: Vec<String>,
    deleted: Vec<String>,
    last_order: Option<OrderRow>,
    commands: usize,
}

/// When every change happens.
const NOW: i64 = 500;

fn product_of(id: u128, row: &Row) -> Product {
    Product {
        id,
        name: row.name.clone(),
        description: row.description.clone(),
        price: row.price,
        gender: row.gender.clone(),
        condition: row.condition.clone(),
        category: row.category.clone(),
        status: row.status,
        images: row.images.clone(),
        on_sale: row.on_sale,
        created_at: row.created_at,
        updated_at: row.updated_at,
    }
}

fn row_of(product: &ProductRow, created_at: i64) -> Row {
    Row {
        name: product.name.clone(),
        description: product.description.clone(),
        price: product.price,
        gender: product.gender.clone(),
        condition: product.condition.clone(),
        category: product.category.clone(),
        status: product.status,
        images: product.images.clone(),
        on_sale: product.on_sale,
        created_at,
        updated_at: NOW,
    }
}

fn cart_of(id: u128, owners: &(Option<u128>, Option<u128>)) -> ShoppingCart {
    ShoppingCart {
        id,
        user_id: owners.0,
        guest_session_id: owners.1,
        created_at: 0,
        updated_at: 0,
    }
}

fn order_of(id: u128, facts: &(Option<u128>, Option<u128>, i64)) -> Order {
    Order {
        id,
        user_id: facts.0,
        order_date: 0,
        status: OrderStatus::Pending,
        total_price: facts.2,
        shipping_first_name: String::new(),
        shipping_last_name: String::new(),
        shipping_address_line1: String::new(),
        shipping_address_line2: None,
        shipping_city: String::new(),
        shipping_postal_code: String::new(),
        shipping_country: String::new(),
        shipping_phone: String::new(),
        shipping_method_name: None,
        payment_method: None,
        guest_email: None,
        guest_session_id: facts.1,
        created_at: 0,
        updated_at: 0,
    }
}

fn user_of(id: u128, user: &(String, String)) -> User {
    User {
        id,
        email: user.0.clone(),
        password_hash: user.1.clone(),
        role: Role::Customer,
        created_at: 0,
        updated_at: 0,
    }
}

fn ask(tables: &mut Tables, last_order: &mut Option<OrderRow>, query: Query) -> Reply {
    match query {
        Query::SelectProduct { id } | Query::LockProduct { id } => {
            Reply::Product(tables.products.get(&id).map(|row| product_of(id, row)))
        }
        Query::SelectProducts { ids, .. } => Reply::Products(
            tables
                .products
                .iter()
                .filter(|(id, _)| ids.contains(id))
                .map(|(id, row)| product_of(*id, row))
                .collect(),
        ),
        Query::InsertProduct { product } => {
            let row = row_of(&product, NOW);
            tables.products.insert(product.id, row.clone());
            Reply::Product(Some(product_of(product.id, &row)))
        }
        Query::UpdateProduct { product } => {
            Reply::Product(tables.products.get_mut(&product.id).map(|old| {
                *old = row_of(&product, old.created_at);
                product_of(product.id, old)
            }))
        }
        Query::SetProductStatus { id, status } => {
            let row = tables.products.get_mut(&id);
            let count = row.is_some() as u64;
            if let Some(row) = row {
                row.status = status;
                row.updated_at = NOW;
            }
            Reply::Affected(count)
        }
        Query::SetStatuses { ids, status } => {
            for id in &ids {
                if let Some(row) = tables.products.get_mut(id) {
                    row.status = status;
                }
            }
            Reply::Affected(ids.len() as u64)
        }
        Query::FindProductInOrders { id } => {
            Reply::Found(tables.order_items.iter().any(|item| item.1 == id))
        }
        Query::DeleteProduct { id } => {
            Reply::Affected(tables.products.remove(&id).is_some() as u64)
        }
        Query::SelectCart { owner, .. } => Reply::Cart(
            tables
                .carts
                .iter()
                .find(|(_, owners)| match owner {
                    CartOwner::User(id) => owners.0 == Some(id),
                    CartOwner::Guest(id) => owners.1 == Some(id),
                })
                .map(|(id, owners)| cart_of(*id, owners)),
        ),
        Query::SelectCartById { id } => {
            Reply::Cart(tables.carts.get(&id).map(|owners| cart_of(id, owners)))
        }
        Query::InsertCart { owner } => {
            let id = tables.carts.keys().max().map_or(100, |id| id + 1);
            let owners = match owner {
                CartOwner::User(user) => (Some(user), None),
                CartOwner::Guest(session) => (None, Some(session)),
            };
            tables.carts.insert(id, owners);
            Reply::Cart(Some(cart_of(id, &owners)))
        }
        Query::SelectCartItems { cart_id } => Reply::CartItems(
            tables
                .cart_items
                .iter()
                .filter(|item| item.0 == cart_id)
                .map(|item| CartItem { cart_id, product_id: item.1 })
                .collect(),
        ),
        Query::InsertCartItem { cart_id, product_id } => {
            Reply::Affected(tables.cart_items.insert((cart_id, product_id)) as u64)
        }
        Query::DeleteCartItem { cart_id, product_id } => {
            Reply::Affected(tables.cart_items.remove(&(cart_id, product_id)) as u64)
        }
        Query::DeleteCartItems { cart_id } => {
            tables.cart_items.retain(|item| item.0 != cart_id);
            Reply::Affected(0)
        }
        Query::MoveCartItems { to, from } => {
            let here: BTreeSet<u128> = tables
                .cart_items
                .iter()
                .filter(|item| item.0 == to)
                .map(|item| item.1)
                .collect();
            tables.cart_items = tables
                .cart_items
                .iter()
                .map(|item| {
                    if item.0 == from && !here.contains(&item.1) {
                        (to, item.1)
                    } else {
                        *item
                    }
                })
                .collect();
            Reply::Affected(0)
        }
        Query::DetachGuest { cart_id, user_id } => {
            if let Some(owners) = tables.carts.get_mut(&cart_id) {
                if owners.0 == Some(user_id) {
                    owners.1 = None;
                }
            }
            Reply::Affected(1)
        }
        Query::DeleteCart { id } => {
            tables.carts.remove(&id);
            tables.cart_items.retain(|item| item.0 != id);
            Reply::Affected(1)
        }
        Query::InsertOrder { order } => {
            tables.orders.insert(
                order.id,
                (order.user_id, order.guest_session_id, order.total_price),
            );
            *last_order = Some(order);
            Reply::Affected(1)
        }
        Query::InsertOrderItem { order_id, product_id, price } => {
            tables.order_items.push((order_id, product_id, price));
            Reply::Affected(1)
        }
        Query::SelectOrder { id } => {
            Reply::Order(tables.orders.get(&id).map(|facts| order_of(id, facts)))
        }
        Query::SelectOrderItems { order_id } => Reply::OrderItems(
            tables
                .order_items
                .iter()
                .filter(|item| item.0 == order_id)
                .map(|item| OrderItem {
                    id: item.1 + 1000,
                    order_id,
                    product_id: item.1,
                    price_at_purchase: item.2,
                })
                .collect(),
        ),
        Query::SelectOrderProducts { order_id } => Reply::Ids(
            tables
                .order_items
                .iter()
                .filter(|item| item.0 == order_id)
                .map(|item| item.1)
                .collect(),
        ),
        Query::UpdateOrderStatus { id, order_status } => {
            Reply::Order(tables.orders.get(&id).map(|facts| Order {
                status: order_status,
                ..order_of(id, facts)
            }))
        }
        Query::DeleteOrderItems { order_id } => {
            tables.order_items.retain(|item| item.0 != order_id);
            Reply::Affected(0)
        }
        Query::DeleteOrder { id } => Reply::Affected(tables.orders.remove(&id).is_some() as u64),
        Query::SelectUser { email } => Reply::User(
            tables
                .users
                .iter()
                .find(|(_, user)| user.0 == email)
                .map(|(id, user)| user_of(*id, user)),
        ),
        Query::InsertUser { email, password_hash, role } => {
            assert_eq!(role, Role::Customer);
            let id = tables.users.keys().max().map_or(200, |id| id + 1);
            tables.users.insert(id, (email, password_hash));
            Reply::User(Some(user_of(id, &tables.users[&id])))
        }
        Query::UpsertShipping { shipping } => {
            tables.shipping.insert(
                shipping.user_id,
                vec![
                    shipping.first_name,
                    shipping.last_name,
                    shipping.address_line1,
                    shipping.address_line2,
                    shipping.city,
                    shipping.postal_code,
                    shipping.country,
                    shipping.phone,
                ],
            );
            Reply::Found(true)
        }
    }
}

fn broken() -> AppError {
    AppError::SqlxError(DatabaseError::Other("broken".to_string()))
}

impl Shop {
    fn perform(&mut self, command: Command) -> Reply {
        let place = self.commands;
        self.commands += 1;
        if self.failing.contains(&place) {
            return Reply::Failed(broken());
        }
        match command {
            Command::Begin => {
                self.open = Some(self.committed.clone());
                Reply::Done
            }
            Command::Commit => {
                self.committed = self.open.take().expect("a transaction is open");
                Reply::Done
            }
            Command::Rollback => {
                self.open = None;
                Reply::Done
            }
            Command::Acquire => Reply::Done,
            Command::Query(query) => {
                let tables = self.open.as_mut().unwrap_or(&mut self.committed);
                ask(tables, &mut self.last_order, query)
            }
            Command::NextField => Reply::Field(self.form.pop_front().map(|(name, file, text)| {
                self.current = text;
                FormField {
                    name: name.map(|name| name.to_string()),
                    file_name: file.map(|file| file.to_string()),
                }
            })),
            Command::ReadBytes => Reply::Bytes(self.current.as_bytes().to_vec()),
            Command::ReadText => Reply::Text(self.current.to_string()),
            Command::ReadLabel { kind, text } => {
                if text == "?" {
                    Reply::Unreadable("nieznane".to_string())
                } else {
                    assert!(kind != LabelKind::PaymentMethod || text == "blik");
                    Reply::Label(text)
                }
            }
            Command::ReadStatus { text } => match text.as_str() {
                "Reserved" => Reply::Status(ProductStatus::Reserved),
                _ => Reply::Unreadable("nieznany".to_string()),
            },
            Command::UploadImages { images } => {
                let urls: Vec<String> = images
                    .iter()
                    .map(|image| format!("https://img/{}", image.file_name))
                    .collect();
                self.uploaded.extend(urls.clone());
                Reply::Urls(urls)
            }
            Command::FindImages { urls } => Reply::Images(
                urls.iter()
                    .map(|url| url.strip_prefix("https://img/").map(|id| id.to_string()))
                    .collect(),
            ),
            Command::DeleteImages { ids } => {
                self.deleted.extend(ids);
                Reply::Done
            }
            Command::DescribeCart { cart } => {
                let held: Vec<String> = self
                    .committed
                    .cart_items
                    .iter()
                    .filter(|item| item.0 == cart.id)
                    .map(|item| item.1.to_string())
                    .collect();
                Reply::CartDetails(CartDetailsResponse { json: held.join(",") })
            }
            Command::HashPassword { password } => Reply::Text(format!("skrot {password}")),
            _ => panic!("no such command here"),
        }
    }

    fn run<S: Stage>(&mut self, first: Step<S>) -> Outcome {
        self.commands = 0;
        self.open = None;
        let mut step = first;
        loop {
            step = match step {
                Step::Perform(stage, command) => {
                    let reply = self.perform(command);
                    assert!(stage.accepts(&reply));
                    stage.resume(reply)
                }
                Step::Finish(outcome) => {
                    self.open = None;
                    return outcome;
                }
                Step::Unexpected => panic!("a reply does not fit"),
            }
        }
    }
}

fn row(name: &str, price: i64) -> Row {
    Row {
        name: name.to_string(),
        description: format!("opis: {name}"),
        price,
        gender: "Damskie".to_string(),
        condition: "Nowy".to_string(),
        category: "Buty".to_string(),
        status: ProductStatus::Available,
        images: vec![format!("https://img/{name}")],
        on_sale: false,
        created_at: 3,
        updated_at: 4,
    }
}

fn shop() -> Shop {
    let mut shop = Shop::default();
    shop.committed.products.insert(1, row("kurtka", 10_000));
    shop.committed.products.insert(2, row("buty", 5_000));
    shop.committed.products.insert(3, row("szal", 2_000));
    shop
}

fn customer(sub: u128) -> TokenClaims {
    TokenClaims { sub, role: Role::Customer, exp: 0 }
}

fn admin() -> TokenClaims {
    TokenClaims { sub: 9, role: Role::Admin, exp: 0 }
}

fn item(product_id: u128) -> AddProductToCartPayload {
    AddProductToCartPayload { product_id }
}

fn checkout(key: &str, email: Option<&str>) -> CheckoutFormPayload {
    CheckoutFormPayload {
        shipping_first_name: "Anna".to_string(),
        shipping_last_name: "Kowalska".to_string(),
        shipping_address_line1: "Piotrkowska 1".to_string(),
        shipping_address_line2: Some(String::new()),
        shipping_city: "Łódź".to_string(),
        shipping_postal_code: "90-001".to_string(),
        shipping_country: "PL".to_string(),
        shipping_phone: "123".to_string(),
        payment_method: "blik".to_string(),
        shipping_method_key: key.to_string(),
        guest_checkout_email: email.map(|text| text.to_string()),
    }
}

fn header(response: &Response, name: &str) -> String {
    String::from_utf8(response.headers.get(name).unwrap().as_bytes().to_vec()).unwrap()
}

fn unprocessable(text: &str) -> AppError {
    AppError::UnprocessableEntity(text.to_string())
}

fn ok(outcome: Outcome) -> Response {
    match outcome {
        Ok(response) => response,
        Err(error) => panic!("{error:?}"),
    }
}

fn err(outcome: Outcome) -> AppError {
    match outcome {
        Ok(_) => panic!("the request is refused"),
        Err(error) => error,
    }
}

fn cart_json(response: &Response) -> &str {
    match &response.body {
        Body::Cart(details) => &details.json,
        Body::GuestCart { cart_details, .. } => &cart_details.json,
        _ => panic!("a cart is shown"),
    }
}

const ORDER: u128 = 0x0123_4567_89ab_4cde_8f01_2345_6789_abcd;

// Carts.

#[test]
fn a_product_is_put_into_a_new_cart() {
    let mut shop = shop();
    let response = ok(shop.run(add_item_to_cart_handler(customer(7), item(2))));
    assert_eq!(response.status, 200);
    assert!(response.headers.is_empty());
    assert_eq!(cart_json(&response), "2");
    assert_eq!(shop.committed.carts[&100], (Some(7), None));
    assert!(shop.committed.cart_items.contains(&(100, 2)));

    let again = ok(shop.run(add_item_to_cart_handler(customer(7), item(2))));
    assert_eq!(cart_json(&again), "2");
    let more = ok(shop.run(add_item_to_cart_handler(customer(7), item(3))));
    assert_eq!(cart_json(&more), "2,3");
    assert_eq!(shop.committed.carts.len(), 1);
}

#[test]
fn a_product_that_is_not_for_sale_stays_out() {
    let mut shop = shop();
    shop.committed.products.get_mut(&1).unwrap().status = ProductStatus::Sold;
    let before = shop.committed.clone();
    assert_eq!(
        err(shop.run(add_item_to_cart_handler(customer(7), item(1)))),
        unprocessable("Produkt jest niedostępny.")
    );
    assert_eq!(
        err(shop.run(add_item_to_cart_handler(customer(7), item(55)))),
        AppError::NotFound
    );
    assert_eq!(shop.committed, before);
}

#[test]
fn a_product_is_taken_out_again() {
    let mut shop = shop();
    assert_eq!(
        err(shop.run(remove_item_from_cart_handler(customer(7), 2))),
        AppError::NotFound
    );
    ok(shop.run(add_item_to_cart_handler(customer(7), item(1))));
    let before = shop.committed.clone();
    ok(shop.run(add_item_to_cart_handler(customer(7), item(2))));
    let response = ok(shop.run(remove_item_from_cart_handler(customer(7), 2)));
    assert_eq!(cart_json(&response), "1");
    assert_eq!(shop.committed, before);
}

#[test]
fn a_failing_cart_change_is_all_or_nothing() {
    for place in 0..9 {
        let mut shop = shop();
        let before = shop.committed.clone();
        shop.failing.insert(place);
        let outcome = shop.run(add_item_to_cart_handler(customer(7), item(2)));
        let changed = shop.committed.cart_items.contains(&(100, 2));
        assert_eq!(outcome.is_ok(), place > 8);
        assert_eq!(changed, place >= 6);
        assert!(changed || shop.committed == before);
    }
}

#[test]
fn a_guest_gets_a_session() {
    let mut shop = shop();
    let response = ok(shop.run(add_item_to_guest_cart(None, item(3))));
    assert_eq!(response.status, 200);
    let session = match response.body {
        Body::GuestCart { guest_cart_id, .. } => guest_cart_id,
        _ => panic!("a guest's cart is shown"),
    };
    assert_eq!(shop.committed.carts[&100], (None, Some(session)));
    let value = response.headers.get("X-Guest-Cart-Id").unwrap();
    assert_eq!(XGuestCartId::decode(Some(value)), Some(XGuestCartId(session)));
    assert_eq!((session >> 76) & 0xf, 4);
    assert_eq!((session >> 62) & 3, 2);

    let other = ok(shop.run(add_item_to_guest_cart(None, item(3))));
    assert!(!matches!(other.body, Body::GuestCart { guest_cart_id, .. } if guest_cart_id == session));
}

#[test]
fn a_guest_keeps_a_session() {
    let mut shop = shop();
    let id = Some(XGuestCartId(ORDER));
    ok(shop.run(add_item_to_guest_cart(id, item(3))));
    let response = ok(shop.run(add_item_to_guest_cart(id, item(1))));
    assert_eq!(cart_json(&response), "1,3");
    assert_eq!(
        header(&response, "X-Guest-Cart-Id"),
        "01234567-89ab-4cde-8f01-23456789abcd"
    );
    let shown = ok(shop.run(get_guest_cart(id)));
    assert_eq!(cart_json(&shown), "1,3");
    let fewer = ok(shop.run(remove_item_from_guest_cart(id, 3)));
    assert_eq!(cart_json(&fewer), "1");
    assert!(fewer.headers.is_empty());
    assert!(matches!(fewer.body, Body::GuestCart { guest_cart_id: ORDER, .. }));
}

#[test]
fn a_guest_without_a_session_has_nothing() {
    let mut shop = shop();
    assert!(matches!(ok(shop.run(get_guest_cart(None))).body, Body::EmptyCart));
    let unknown = Some(XGuestCartId(5));
    assert!(matches!(ok(shop.run(get_guest_cart(unknown))).body, Body::EmptyCart));
    assert_eq!(
        err(shop.run(remove_item_from_guest_cart(None, 1))),
        AppError::BadRequest("Missing X-Guest-Cart-Id header".to_string())
    );
    assert_eq!(
        err(shop.run(remove_item_from_guest_cart(unknown, 1))),
        AppError::NotFound
    );
}

#[test]
fn a_new_session_makes_a_cart_at_once() {
    let mut shop = shop();
    ok(shop.run(add_item_to_session_cart(5, false, item(1))));
    assert_eq!(shop.commands, 7);
    assert_eq!(shop.committed.carts[&100], (None, Some(5)));
}

#[test]
fn a_user_sees_their_cart() {
    let mut shop = shop();
    assert_eq!(err(shop.run(get_cart_handler(customer(7)))), AppError::NotFound);
    ok(shop.run(add_item_to_cart_handler(customer(7), item(2))));
    assert_eq!(cart_json(&ok(shop.run(get_cart_handler(customer(7))))), "2");
    shop.failing.insert(0);
    assert_eq!(
        err(shop.run(get_cart_handler(customer(7)))),
        AppError::InternalServerError("Błąd serwera".to_string())
    );
    assert_eq!(err(shop.run(get_guest_cart(Some(XGuestCartId(5))))), broken());
}

#[test]
fn merging_unites_the_carts() {
    let mut shop = shop();
    let id = Some(XGuestCartId(5));
    ok(shop.run(add_item_to_cart_handler(customer(7), item(1))));
    ok(shop.run(add_item_to_cart_handler(customer(7), item(2))));
    ok(shop.run(add_item_to_guest_cart(id, item(2))));
    ok(shop.run(add_item_to_guest_cart(id, item(3))));
    let response = ok(shop.run(merge_cart_handler(
        customer(7),
        MergeCartPayload { guest_cart_id: 5 },
    )));
    assert_eq!(cart_json(&response), "1,2,3");
    assert_eq!(shop.committed.carts.len(), 1);
    assert_eq!(shop.committed.carts[&100], (Some(7), None));
    assert_eq!(
        shop.committed.cart_items,
        BTreeSet::from([(100, 1), (100, 2), (100, 3)])
    );
}

#[test]
fn merging_makes_a_cart_where_there_is_none() {
    let mut shop = shop();
    ok(shop.run(add_item_to_guest_cart(Some(XGuestCartId(5)), item(2))));
    let response = ok(shop.run(merge_cart_handler(
        customer(7),
        MergeCartPayload { guest_cart_id: 5 },
    )));
    assert_eq!(cart_json(&response), "2");
    assert_eq!(shop.committed.carts.len(), 1);
    assert_eq!(shop.committed.cart_items, BTreeSet::from([(101, 2)]));
}

#[test]
fn merging_an_unknown_session_changes_no_items() {
    let mut shop = shop();
    ok(shop.run(add_item_to_cart_handler(customer(7), item(1))));
    let before = shop.committed.clone();
    ok(shop.run(merge_cart_handler(
        customer(7),
        MergeCartPayload { guest_cart_id: 5 },
    )));
    assert_eq!(shop.committed, before);
}

#[test]
fn merging_a_cart_with_itself_drops_the_session() {
    let mut shop = shop();
    shop.committed.carts.insert(100, (Some(7), Some(5)));
    shop.committed.cart_items.insert((100, 1));
    let response = ok(shop.run(merge_cart_handler(
        customer(7),
        MergeCartPayload { guest_cart_id: 5 },
    )));
    assert_eq!(cart_json(&response), "1");
    assert_eq!(shop.committed.carts[&100], (Some(7), None));
}

#[test]
fn merging_twice_is_merging_once() {
    let mut shop = shop();
    ok(shop.run(add_item_to_cart_handler(customer(7), item(1))));
    ok(shop.run(add_item_to_guest_cart(Some(XGuestCartId(5)), item(3))));
    let payload = || MergeCartPayload { guest_cart_id: 5 };
    ok(shop.run(merge_cart_handler(customer(7), payload())));
    let once = shop.committed.clone();
    let response = ok(shop.run(merge_cart_handler(customer(7), payload())));
    assert_eq!(cart_json(&response), "1,3");
    assert_eq!(shop.committed, once);
}

#[test]
fn a_failing_merge_is_all_or_nothing() {
    for place in 0..10 {
        let mut shop = shop();
        ok(shop.run(add_item_to_cart_handler(customer(7), item(1))));
        ok(shop.run(add_item_to_guest_cart(Some(XGuestCartId(5)), item(3))));
        let before = shop.committed.clone();
        shop.failing.insert(place);
        let outcome = shop.run(merge_cart_handler(
            customer(7),
            MergeCartPayload { guest_cart_id: 5 },
        ));
        let merged = shop.committed.cart_items == BTreeSet::from([(100, 1), (100, 3)]);
        assert_eq!(merged, place >= 6);
        assert!(merged || shop.committed == before);
        assert_eq!(outcome.is_ok(), place >= 9);
    }
}

// Orders.

fn filled() -> Shop {
    let mut shop = shop();
    ok(shop.run(add_item_to_cart_handler(customer(7), item(1))));
    ok(shop.run(add_item_to_cart_handler(customer(7), item(2))));
    shop
}

#[test]
fn an_order_is_placed() {
    let mut shop = filled();
    let response = ok(shop.run(place_order(
        ORDER,
        Some(customer(7)),
        None,
        checkout("inpost", None),
        None,
    )));
    assert_eq!(response.status, 200);
    assert_eq!(response.headers.len(), 1);
    assert_eq!(
        header(&response, "HX-Trigger"),
        "{\"clearCartDisplay\":{},\"orderPlaced\":{\"orderId\":\"01234567-89ab-4cde-8f01-23456789abcd\",\"redirectTo\":\"/\"},\"showMessage\":{\"message\":\"Twoje zamowienie zostalo pomyslnie zlozone!\",\"type\":\"success\"}}"
    );
    assert!(matches!(response.body, Body::Empty));
    let tables = &shop.committed;
    assert_eq!(tables.orders[&ORDER], (Some(7), None, 10_000 + 5_000 + 1_199));
    assert_eq!(tables.order_items, vec![(ORDER, 1, 10_000), (ORDER, 2, 5_000)]);
    assert_eq!(tables.products[&1].status, ProductStatus::Sold);
    assert_eq!(tables.products[&2].status, ProductStatus::Sold);
    assert_eq!(tables.products[&3].status, ProductStatus::Available);
    assert!(tables.cart_items.is_empty());
    assert_eq!(tables.carts.len(), 1);
    let order = shop.last_order.unwrap();
    assert_eq!(order.shipping_method_name, "Paczkomat InPost 24/7");
    assert_eq!(order.payment_method, "blik");
    assert_eq!(order.shipping_address_line2, None);
    assert_eq!(order.guest_email, None);
    assert_eq!(order.status, OrderStatus::Pending);
    assert_eq!(order.shipping_city, "Łódź");
}

#[test]
fn a_guest_places_an_order() {
    let mut shop = shop();
    let guest = Some(XGuestCartId(5));
    ok(shop.run(add_item_to_guest_cart(guest, item(3))));
    let response = ok(shop.run(place_order(
        ORDER,
        None,
        guest,
        checkout("poczta", Some("gosc@example.com")),
        None,
    )));
    assert_eq!(response.status, 200);
    assert_eq!(shop.committed.orders[&ORDER], (None, Some(5), 2_000 + 1_799));
    assert!(shop.committed.carts.is_empty());
    assert!(shop.committed.cart_items.is_empty());
    let order = shop.last_order.unwrap();
    assert_eq!(order.guest_email, Some("gosc@example.com".to_string()));
    assert_eq!(order.shipping_method_name, "Poczta Polska S.A.");
}

#[test]
fn each_order_has_its_own_id() {
    let mut ids = BTreeSet::new();
    for _ in 0..3 {
        let mut shop = filled();
        ok(shop.run(create_order_handler(
            Some(customer(7)),
            None,
            checkout("inpost", None),
            None,
        )));
        let id = shop.last_order.unwrap().id;
        assert_eq!((id >> 76) & 0xf, 4);
        ids.insert(id);
    }
    assert_eq!(ids.len(), 3);
}

#[test]
fn a_bad_checkout_form_is_told() {
    let mut shop = filled();
    let invalid = ValidationErrors { fields: vec![], text: "city: \"x\"".to_string() };
    let response = ok(shop.run(place_order(
        ORDER,
        None,
        None,
        checkout("inpost", None),
        Some(invalid),
    )));
    assert_eq!(response.status, 422);
    assert_eq!(
        header(&response, "HX-Trigger"),
        "{\"showMessage\": {\"message\": \"Bledy w formularzu: city: \\\"x\\\"\", \"type\": \"error\"}}"
    );
    assert_eq!(header(&response, "HX-Reswap"), "none");

    let broken_text = ValidationErrors { fields: vec![], text: "a\nb".to_string() };
    assert_eq!(
        err(shop.run(place_order(
            ORDER,
            None,
            None,
            checkout("inpost", None),
            Some(broken_text),
        ))),
        AppError::InternalServerError("Failed to create HX-Trigger header".to_string())
    );
}

#[test]
fn nobody_places_no_order() {
    let mut shop = filled();
    assert_eq!(
        err(shop.run(place_order(ORDER, None, None, checkout("inpost", None), None))),
        AppError::UnauthorizedAccess(
            "Nie można zidentyfikować użytkownika ani sesji gościa.".to_string()
        )
    );
}

#[test]
fn a_guest_needs_an_email_address() {
    let guest = Some(XGuestCartId(5));
    assert!(lacks_guest_email(&None, &guest, &checkout("inpost", None), &None));
    assert!(lacks_guest_email(&None, &guest, &checkout("inpost", Some(" \u{a0}")), &None));
    assert!(!lacks_guest_email(&None, &guest, &checkout("inpost", Some("a@b")), &None));
    assert!(!lacks_guest_email(&None, &None, &checkout("inpost", None), &None));
    let user = Some(customer(7));
    assert!(!lacks_guest_email(&user, &guest, &checkout("inpost", None), &None));
}

#[test]
fn an_order_needs_a_cart_with_products() {
    let mut shop = shop();
    let place = |claims| place_order(ORDER, Some(claims), None, checkout("inpost", None), None);
    assert_eq!(
        err(shop.run(place(customer(7)))),
        unprocessable("Twój koszyk nie został znaleziony lub jest pusty.")
    );
    shop.committed.carts.insert(100, (Some(7), None));
    assert_eq!(
        err(shop.run(place(customer(7)))),
        unprocessable("Twój koszyk jest pusty.")
    );
}

#[test]
fn an_order_needs_a_known_way_to_ship() {
    let mut shop = filled();
    let before = shop.committed.clone();
    let response = ok(shop.run(place_order(
        ORDER,
        Some(customer(7)),
        None,
        checkout("kurier", None),
        None,
    )));
    assert_eq!(response.status, 422);
    assert_eq!(
        header(&response, "HX-Trigger"),
        "{{\"showMessage\": {{\"message\": \"Proszę wybrać prawidłową metodę dostawy.\", \"type\": \"error\"}}}}"
    );
    assert_eq!(header(&response, "HX-Reswap"), "none");
    assert_eq!(shop.committed, before);
    assert_eq!(shipping_method("inpost").unwrap().cost, 1199);
    assert_eq!(shipping_method("poczta").unwrap().cost, 1799);
    assert!(shipping_method("").is_none());
}

#[test]
fn an_order_needs_products_for_sale() {
    let mut shop = filled();
    shop.committed.products.get_mut(&2).unwrap().status = ProductStatus::Reserved;
    let before = shop.committed.clone();
    let place = || {
        place_order(
            ORDER,
            Some(customer(7)),
            None,
            checkout("inpost", None),
            None,
        )
    };
    assert_eq!(
        err(shop.run(place())),
        unprocessable("Produkt 'buty' w Twoim koszyku stał się niedostępny.")
    );
    assert_eq!(shop.committed, before);
    shop.committed.products.remove(&1);
    assert_eq!(
        err(shop.run(place())),
        AppError::InternalServerError(
            "Błąd spójności danych: produkt z koszyka nie istnieje.".to_string()
        )
    );
}

#[test]
fn an_order_needs_a_known_way_to_pay() {
    let mut shop = filled();
    let mut form = checkout("inpost", None);
    form.payment_method = "?".to_string();
    assert_eq!(
        err(shop.run(place_order(ORDER, Some(customer(7)), None, form, None))),
        AppError::Validation("Nieprawidłowa metoda płatności.".to_string())
    );
}

#[test]
fn sums_beyond_64_bits_are_not_accepted() {
    let mut shop = filled();
    shop.committed.products.get_mut(&1).unwrap().price = i64::MAX;
    let mut step = place_order(
        ORDER,
        Some(customer(7)),
        None,
        checkout("inpost", None),
        None,
    );
    loop {
        step = match step {
            Step::Perform(stage, command) => {
                let reply = shop.perform(command);
                if !stage.accepts(&reply) {
                    assert!(matches!(reply, Reply::Products(_)));
                    return;
                }
                stage.resume(reply)
            }
            _ => panic!("the sum is noticed"),
        }
    }
}

#[test]
fn a_failing_order_is_all_or_nothing() {
    for place in 0..13 {
        let mut shop = filled();
        let before = shop.committed.clone();
        shop.failing.insert(place);
        let outcome = shop.run(place_order(
            ORDER,
            Some(customer(7)),
            None,
            checkout("inpost", None),
            None,
        ));
        let placed = shop.committed.orders.contains_key(&ORDER);
        assert_eq!(placed, outcome.is_ok());
        assert_eq!(placed, place >= 11);
        assert!(placed || shop.committed == before);
    }
}

#[test]
fn deleting_an_order_undoes_it() {
    let mut shop = filled();
    let before = shop.committed.clone();
    ok(shop.run(place_order(
        ORDER,
        Some(customer(7)),
        None,
        checkout("inpost", None),
        None,
    )));
    let response = ok(shop.run(permanent_delete_order_handler(admin(), ORDER)));
    assert_eq!(response.status, 200);
    assert_eq!(
        header(&response, "HX-Trigger"),
        "{\"showMessage\":{\"message\":\"Zamowienie zostalo trwale usuniete.\",\"type\":\"success\"}}"
    );
    assert_eq!(shop.committed.products, before.products);
    assert_eq!(shop.committed.orders, before.orders);
    assert_eq!(shop.committed.order_items, before.order_items);
    assert!(shop.committed.cart_items.is_empty());

    let again = ok(shop.run(permanent_delete_order_handler(admin(), ORDER)));
    assert_eq!(again.status, 200);
}

#[test]
fn orders_are_deleted_by_administrators_only() {
    let mut shop = shop();
    assert_eq!(
        err(shop.run(permanent_delete_order_handler(customer(7), ORDER))),
        AppError::UnauthorizedAccess("Brak uprawnień administratora.".to_string())
    );
    assert_eq!(shop.commands, 0);
}

#[test]
fn an_order_is_shown_to_who_placed_it() {
    let mut shop = filled();
    ok(shop.run(place_order(
        ORDER,
        Some(customer(7)),
        None,
        checkout("inpost", None),
        None,
    )));
    shop.committed.products.remove(&1);
    for claims in [customer(7), admin()] {
        let response = ok(shop.run(get_order_details_handler(claims, ORDER)));
        match response.body {
            Body::OrderDetails(details) => {
                assert_eq!(details.order.id, ORDER);
                assert_eq!(details.items.len(), 1);
                assert_eq!(details.items[0].order_item_id, 1002);
                assert_eq!(details.items[0].price_at_purchase, 5_000);
                assert_eq!(details.items[0].product.name, "buty");
                assert_eq!(details.items[0].product.images, vec!["https://img/buty"]);
            }
            _ => panic!("the order is shown"),
        }
    }
    assert_eq!(
        err(shop.run(get_order_details_handler(customer(8), ORDER))),
        AppError::UnauthorizedAccess("Nie masz uprawnień do tego zamówienia".to_string())
    );
    assert_eq!(
        err(shop.run(get_order_details_handler(admin(), 1))),
        AppError::NotFound
    );
}

#[test]
fn an_order_without_items_is_shown() {
    let mut shop = shop();
    shop.committed.orders.insert(ORDER, (None, Some(5), 0));
    let response = ok(shop.run(get_order_details_handler(admin(), ORDER)));
    assert!(matches!(response.body, Body::OrderDetails(details) if details.items.is_empty()));
    assert_eq!(
        err(shop.run(get_order_details_handler(customer(5), ORDER))),
        AppError::UnauthorizedAccess("Nie masz uprawnień do tego zamówienia".to_string())
    );
}

#[test]
fn the_last_of_two_rows_with_one_id_is_shown() {
    let step = get_order_details_handler(admin(), ORDER);
    let step = match step {
        Step::Perform(stage, _) => {
            stage.resume(Reply::Order(Some(order_of(ORDER, &(None, None, 0)))))
        }
        _ => panic!("the order is looked for"),
    };
    let items = vec![OrderItem { id: 1, order_id: ORDER, product_id: 2, price_at_purchase: 3 }];
    let step = match step {
        Step::Perform(stage, _) => stage.resume(Reply::OrderItems(items)),
        _ => panic!("its items are looked for"),
    };
    let rows = vec![product_of(2, &row("pierwszy", 1)), product_of(2, &row("drugi", 1))];
    let step = match step {
        Step::Perform(stage, _) => stage.resume(Reply::Products(rows)),
        _ => panic!("its products are looked for"),
    };
    match step {
        Step::Finish(Ok(Response { body: Body::OrderDetails(details), .. })) => {
            assert_eq!(details.items[0].product.name, "drugi");
        }
        _ => panic!("the order is shown"),
    }
}

#[test]
fn an_orders_status_is_changed_by_administrators() {
    let mut shop = shop();
    shop.committed.orders.insert(ORDER, (Some(7), None, 5));
    let shipped = || UpdateOrderStatusPayload { status: OrderStatus::Named("Shipped".to_string()) };
    let response = ok(shop.run(update_order_status_handler(admin(), ORDER, shipped())));
    assert_eq!(response.status, 200);
    assert_eq!(
        header(&response, "HX-Trigger"),
        "{\"reloadAdminOrderList\":true,\"showMessage\":{\"message\":\"Status zamowienia zostal pomyslnie zaktualizowany.\",\"type\":\"success\"}}"
    );
    match response.body {
        Body::Order(order) => {
            assert_eq!(order.status, OrderStatus::Named("Shipped".to_string()));
        }
        _ => panic!("the order is shown"),
    }
    assert_eq!(
        err(shop.run(update_order_status_handler(admin(), 1, shipped()))),
        AppError::NotFound
    );
    assert_eq!(
        err(shop.run(update_order_status_handler(customer(7), ORDER, shipped()))),
        AppError::UnauthorizedAccess(
            "Tylko administrator może zmieniać status zamówienia".to_string()
        )
    );
}

// Products.

type Field = (Option<&'static str>, Option<&'static str>, &'static str);

fn text(name: &'static str, value: &'static str) -> Field {
    (Some(name), None, value)
}

fn product_form() -> Vec<Field> {
    vec![
        text("name", "plaszcz"),
        text("description", "opis"),
        text("price", "12300"),
        (None, None, "bez nazwy"),
        text("gender", "Damskie"),
        text("condition", "Nowy"),
        (Some("image_file_1"), Some("przod.png"), "bajty"),
        (Some("image_file_2"), None, "bajty"),
        (Some("image_file_3"), Some("pusty.png"), ""),
        text("category", "Odziez"),
        text("on_sale", "on"),
        text("name", "kozuch"),
    ]
}

#[test]
fn a_product_is_added() {
    let mut shop = shop();
    shop.form = product_form().into();
    let response = ok(shop.run(add_product(50, admin())));
    assert_eq!(response.status, 201);
    assert_eq!(
        header(&response, "HX-Trigger"),
        "{\"showMessage\":{\"message\":\"Pomyslnie dodano produkt.\",\"type\":\"success\"}}"
    );
    assert_eq!(
        header(&response, "HX-Location"),
        "{\"path\":\"/htmx/admin/products\",\"swap\":\"innerHTML\",\"target\":\"#admin-content\"}"
    );
    assert_eq!(
        shop.committed.products[&50],
        Row {
            name: "kozuch".to_string(),
            description: "opis".to_string(),
            price: 12_300,
            gender: "Damskie".to_string(),
            condition: "Nowy".to_string(),
            category: "Odziez".to_string(),
            status: ProductStatus::Available,
            images: vec![
                "https://img/przod.png".to_string(),
                "https://img/image_file_2.jpg".to_string(),
            ],
            on_sale: true,
            created_at: NOW,
            updated_at: NOW,
        }
    );
    assert_eq!(shop.committed.products.len(), 4);
}

#[test]
fn a_product_gets_a_random_id() {
    let mut shop = shop();
    shop.form = product_form().into();
    ok(shop.run(create_product_handler(admin())));
    let id = *shop.committed.products.keys().max().unwrap();
    assert_eq!((id >> 76) & 0xf, 4);
}

fn refused_form(change: impl Fn(&mut Vec<Field>)) -> AppError {
    let mut shop = shop();
    let before = shop.committed.clone();
    let mut form = product_form();
    change(&mut form);
    shop.form = form.into();
    let error = err(shop.run(add_product(50, admin())));
    assert_eq!(shop.committed, before);
    assert!(shop.uploaded.is_empty());
    error
}

#[test]
fn products_are_added_by_administrators_only() {
    let mut shop = shop();
    assert_eq!(
        err(shop.run(create_product_handler(customer(7)))),
        AppError::UnauthorizedAccess("Tylko administrator może dodawać produkty".to_string())
    );
    assert_eq!(shop.commands, 0);
}

#[test]
fn a_product_needs_every_field() {
    for (name, message) in [
        ("name", "Brak pola 'name'."),
        ("description", "Brak pola 'description'"),
        ("price", "Brak pola 'price'."),
        ("gender", "Brak pola 'gender'."),
        ("condition", "Brak pola 'condition'."),
        ("category", "Brak pola 'category'."),
    ] {
        let error = refused_form(|form| form.retain(|field| field.0 != Some(name)));
        assert_eq!(error, unprocessable(message));
    }
}

#[test]
fn a_product_needs_an_image() {
    let error = refused_form(|form| {
        form.retain(|field| field.0.map_or(true, |name| !name.starts_with("image_file_")))
    });
    assert_eq!(
        error,
        unprocessable("Należy przesłac conajmniej jeden plik obrazu ('image_file)")
    );
}

#[test]
fn a_product_needs_readable_fields() {
    for (name, value, message) in [
        ("price", "12,50", "Pole 'price' musi być liczbą całkowitą"),
        ("gender", "?", "Nieprawidłowa wartość pola 'gender': ?"),
        ("condition", "?", "Nieprawidłowa wartość pola 'condition': ?"),
        ("category", "?", "Nieprawidłowa wartość pola 'category': ?"),
        ("name", "", "Nieprawidłowa długość pola 'name'"),
        ("price", "-1", "Cena nie może być ujemna"),
    ] {
        let error = refused_form(|form| form.push(text(name, value)));
        assert_eq!(error, unprocessable(message));
    }
}

#[test]
fn names_and_descriptions_have_a_length_in_bytes() {
    let long: &'static str = Box::leak("ą".repeat(128).into_boxed_str());
    let fits: &'static str = Box::leak("ą".repeat(127).into_boxed_str());
    let words: &'static str = Box::leak("x".repeat(5001).into_boxed_str());
    assert_eq!(
        refused_form(|form| form.push(text("name", long))),
        unprocessable("Nieprawidłowa długość pola 'name'")
    );
    assert_eq!(
        refused_form(|form| form.push(text("description", words))),
        unprocessable("Pole 'description' jest za długie")
    );
    let mut shop = shop();
    let mut form = product_form();
    form.push(text("name", fits));
    form.push(text("description", &words[1..]));
    shop.form = form.into();
    ok(shop.run(add_product(50, admin())));
}

#[test]
fn a_failing_addition_is_all_or_nothing() {
    for place in 0..40 {
        let mut shop = shop();
        let before = shop.committed.clone();
        shop.form = product_form().into();
        shop.failing.insert(place);
        let outcome = shop.run(add_product(50, admin()));
        assert_eq!(outcome.is_ok(), shop.committed.products.contains_key(&50));
        assert!(outcome.is_ok() || shop.committed == before);
    }
}

fn row_shown(product: &Product) -> Row {
    Row {
        name: product.name.clone(),
        description: product.description.clone(),
        price: product.price,
        gender: product.gender.clone(),
        condition: product.condition.clone(),
        category: product.category.clone(),
        status: product.status,
        images: product.images.clone(),
        on_sale: product.on_sale,
        created_at: product.created_at,
        updated_at: product.updated_at,
    }
}

#[test]
fn a_product_is_changed() {
    let mut shop = shop();
    shop.form = vec![
        text("name", "inna"),
        text("price", "+15"),
        text("gender", "Meskie"),
        text("category", "Odziez"),
        text("status", "Reserved"),
        text("name", "nowa"),
        text("on_sale", "TRUE"),
        text("urls_to_delete", "[\"https://img/kurtka\", \"https://elsewhere/x\"]"),
        (Some("image_file_a"), Some("a.png"), "bajty"),
        (Some("image_file_b"), None, "bajty"),
        (Some("image_file_c"), Some("c.png"), ""),
        (None, Some("d.png"), "bajty"),
    ]
    .into();
    let response = ok(shop.run(update_product_partial_handler(1, admin())));
    assert_eq!(response.status, 200);
    let changed = Row {
        name: "nowa".to_string(),
        description: "opis: kurtka".to_string(),
        price: 15,
        gender: "Meskie".to_string(),
        condition: "Nowy".to_string(),
        category: "Odziez".to_string(),
        status: ProductStatus::Reserved,
        images: vec!["https://img/a.png".to_string()],
        on_sale: true,
        created_at: 3,
        updated_at: NOW,
    };
    assert_eq!(shop.committed.products[&1], changed);
    match response.body {
        Body::Product(product) => {
            assert_eq!(product.id, 1);
            assert_eq!(row_shown(&product), changed);
        }
        _ => panic!("the product is shown"),
    }
    assert_eq!(shop.deleted, vec!["kurtka"]);
    assert_eq!(shop.committed.products[&2], row("buty", 5_000));
}

#[test]
fn an_empty_form_ends_a_sale_only() {
    let mut shop = shop();
    shop.committed.products.get_mut(&1).unwrap().on_sale = true;
    ok(shop.run(update_product_partial_handler(1, admin())));
    let same = Row { updated_at: NOW, ..row("kurtka", 10_000) };
    assert_eq!(shop.committed.products[&1], same);
    assert!(shop.deleted.is_empty());
    assert!(shop.uploaded.is_empty());
}

fn refused_change(form: Vec<Field>) -> AppError {
    let mut shop = shop();
    let before = shop.committed.clone();
    shop.form = form.into();
    let error = err(shop.run(update_product_partial_handler(1, admin())));
    assert_eq!(shop.committed, before);
    assert!(shop.uploaded.is_empty());
    error
}

#[test]
fn a_product_is_not_changed_to_nonsense() {
    for (name, value, message) in [
        ("price", "tanio", "Nieprawidłowy format ceny"),
        ("gender", "?", "Nieprawidłowa płeć: nieznane"),
        ("condition", "?", "Nieprawidłowy stan: nieznane"),
        ("category", "?", "Nieprawidłowa kategoria: nieznane"),
        ("status", "?", "Nieprawidłowy status: nieznany"),
        ("urls_to_delete", "{}", "Nieprawidłowy format listy URLi do usunięcia."),
        ("urls_to_delete", "[1]", "Nieprawidłowy format listy URLi do usunięcia."),
        (
            "urls_to_delete",
            "[\"https://img/kurtka\"]",
            "Produkt musi mieć przynajmniej jeden obrazek.",
        ),
    ] {
        assert_eq!(refused_change(vec![text(name, value)]), unprocessable(message));
    }
}

#[test]
fn an_empty_list_takes_no_image_away() {
    for list in ["", "[]", "[ ]", "[\"https://elsewhere/x\"]"] {
        let mut shop = shop();
        shop.form = vec![text("urls_to_delete", list)].into();
        ok(shop.run(update_product_partial_handler(1, admin())));
        let same = Row { updated_at: NOW, ..row("kurtka", 10_000) };
        assert_eq!(shop.committed.products[&1], same);
        assert!(shop.deleted.is_empty());
    }
}

#[test]
fn images_that_stay_keep_their_order() {
    let mut shop = shop();
    shop.committed.products.get_mut(&1).unwrap().images =
        ["a", "b", "c", "d"].map(|name| format!("https://img/{name}")).to_vec();
    shop.form = vec![
        text("urls_to_delete", "[\"https://img/a\"]"),
        (Some("image_file_1"), Some("e"), "bajty"),
        text("urls_to_delete", "[\"https://img/c\", \"https://img/z\"]"),
        (Some("image_file_2"), Some("f"), "bajty"),
    ]
    .into();
    ok(shop.run(update_product_partial_handler(1, admin())));
    assert_eq!(
        shop.committed.products[&1].images,
        ["a", "b", "d", "e", "f"].map(|name| format!("https://img/{name}")).to_vec()
    );
}

#[test]
fn an_unknown_product_is_not_changed() {
    let mut shop = shop();
    assert_eq!(
        err(shop.run(update_product_partial_handler(77, admin()))),
        AppError::NotFound
    );
    assert_eq!(
        err(shop.run(update_product_partial_handler(1, customer(7)))),
        AppError::UnauthorizedAccess(
            "Tylko administrator może aktualizować produkty".to_string()
        )
    );
}

#[test]
fn a_failing_change_is_all_or_nothing() {
    for place in 0..20 {
        let mut shop = shop();
        let before = shop.committed.clone();
        shop.form = vec![
            text("name", "nowa"),
            text("urls_to_delete", "[\"https://img/kurtka\"]"),
            (Some("image_file_a"), Some("a.png"), "bajty"),
        ]
        .into();
        shop.failing.insert(place);
        let outcome = shop.run(update_product_partial_handler(1, admin()));
        if outcome.is_ok() {
            assert_eq!(shop.committed.products[&1].name, "nowa");
        } else {
            assert_eq!(err(outcome), broken());
            assert_eq!(shop.committed, before);
        }
    }
}

#[test]
fn a_product_is_shown() {
    let mut shop = shop();
    let response = ok(shop.run(get_product_details(2)));
    assert!(matches!(response.body, Body::Product(product) if product.name == "buty"));
    assert_eq!(err(shop.run(get_product_details(77))), AppError::NotFound);
    shop.failing.insert(0);
    assert_eq!(err(shop.run(get_product_details(2))), broken());
}

#[test]
fn a_product_is_archived() {
    let mut shop = shop();
    for id in [2, 77] {
        let response = ok(shop.run(archivize_product_handler(id, admin())));
        assert_eq!(response.status, 200);
        assert_eq!(
            header(&response, "HX-Trigger"),
            "{\"reloadAdminProductList\":true,\"showMessage\":{\"message\":\"Produkt zostal pomyslnie zarchiwizowany.\",\"type\":\"success\"}}"
        );
        assert_eq!(response.headers.len(), 1);
    }
    assert_eq!(
        shop.committed.products[&2],
        Row { status: ProductStatus::Archived, updated_at: NOW, ..row("buty", 5_000) }
    );
    assert_eq!(shop.committed.products[&1], row("kurtka", 10_000));
    assert_eq!(shop.committed.products.len(), 3);
    assert_eq!(
        err(shop.run(archivize_product_handler(2, customer(7)))),
        AppError::UnauthorizedAccess("Tylko administrator może usuwać produkty".to_string())
    );
}

#[test]
fn a_product_is_deleted() {
    let mut shop = shop();
    let response = ok(shop.run(permanent_delete_product_handler(2, admin())));
    assert_eq!(
        header(&response, "HX-Trigger"),
        "{\"showMessage\":{\"message\":\"Produkt zostal trwale usuniety.\",\"type\":\"success\"}}"
    );
    assert!(!shop.committed.products.contains_key(&2));
    assert_eq!(shop.deleted, vec!["buty"]);
    assert_eq!(
        err(shop.run(permanent_delete_product_handler(2, admin()))),
        AppError::NotFound
    );
    shop.committed.products.get_mut(&1).unwrap().images.clear();
    ok(shop.run(permanent_delete_product_handler(1, admin())));
    assert_eq!(shop.deleted, vec!["buty"]);
    assert_eq!(
        err(shop.run(permanent_delete_product_handler(3, customer(7)))),
        AppError::UnauthorizedAccess("Tylko administrator może trwale usuwać produkty".to_string())
    );
}

#[test]
fn an_ordered_product_is_not_deleted() {
    let mut shop = shop();
    shop.committed.order_items.push((ORDER, 2, 5_000));
    let before = shop.committed.clone();
    assert_eq!(
        err(shop.run(permanent_delete_product_handler(2, admin()))),
        AppError::Conflict(
            "Nie można usunąć produktu, który jest częścią istniejących zamówień. Zamiast tego zarchiwizuj go.".to_string()
        )
    );
    assert_eq!(shop.committed, before);
    assert!(shop.deleted.is_empty());
}

#[test]
fn a_failing_deletion_is_all_or_nothing() {
    for place in 0..9 {
        let mut shop = shop();
        let before = shop.committed.clone();
        shop.failing.insert(place);
        let outcome = shop.run(permanent_delete_product_handler(2, admin()));
        assert_eq!(outcome.is_ok(), !shop.committed.products.contains_key(&2));
        assert!(outcome.is_ok() || shop.committed == before);
    }
}

// Accounts.

fn registration(password: &str) -> RegistrationPayload {
    RegistrationPayload {
        email: "anna@example.com".to_string(),
        password: password.to_string(),
    }
}

#[test]
fn an_email_address_is_registered_once() {
    let mut shop = shop();
    let first = ok(shop.run(register_handler(registration("tajne"), None)));
    assert_eq!(first.status, 201);
    let once = shop.committed.clone();
    assert_eq!(
        once.users,
        BTreeMap::from([(200, ("anna@example.com".to_string(), "skrot tajne".to_string()))])
    );
    let second = ok(shop.run(register_handler(registration("inne"), None)));
    assert_eq!(second.status, 409);
    match second.body {
        Body::Json(body) => assert_eq!(body["message"], "Email już istnieje"),
        _ => panic!("the body is JSON"),
    }
    assert_eq!(shop.committed, once);
}

#[test]
fn a_failing_registration_adds_nobody() {
    for place in 0..4 {
        let mut shop = shop();
        shop.failing.insert(place);
        let outcome = shop.run(register_handler(registration("tajne"), None));
        let welcomed = matches!(&outcome, Ok(response) if response.status == 201);
        assert_eq!(welcomed, place == 3);
        assert_eq!(shop.committed.users.len(), welcomed as usize);
    }
}

fn address(city: &str) -> UpdateUserShippingDetailsPayload {
    UpdateUserShippingDetailsPayload {
        shipping_first_name: Some("Anna".to_string()),
        shipping_last_name: Some(String::new()),
        shipping_address_line1: None,
        shipping_address_line2: None,
        shipping_city: Some(city.to_string()),
        shipping_postal_code: None,
        shipping_country: None,
        shipping_phone: None,
    }
}

#[test]
fn each_user_has_one_address() {
    let mut shop = shop();
    let store = |shop: &mut Shop, user: u128, city: &str| {
        ok(shop.run(upsert_user_shipping_details_handler(customer(user), address(city), None)))
    };
    assert_eq!(store(&mut shop, 7, "Radom").status, 200);
    store(&mut shop, 8, "Gniezno");
    let response = store(&mut shop, 7, "Łódź");
    let once = shop.committed.clone();
    assert_eq!(once.shipping.len(), 2);
    assert_eq!(once.shipping[&7][0], Some("Anna".to_string()));
    assert_eq!(once.shipping[&7][1], None);
    assert_eq!(once.shipping[&7][4], Some("Łódź".to_string()));
    assert_eq!(once.shipping[&8][4], Some("Gniezno".to_string()));
    let again = store(&mut shop, 7, "Łódź");
    assert_eq!(again.status, response.status);
    assert_eq!(again.headers, response.headers);
    assert_eq!(shop.committed, once);
}
