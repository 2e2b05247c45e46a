//! The SQL of each query, and the values that are bound to its placeholders.
use crate::ids::Id;
use crate::models::{OrderStatus, ProductStatus, Role};
use crate::protocol::{CartOwner, LabelKind, Query};
use vstd::prelude::*;

verus! {

/// A value for a placeholder.
pub enum Bind {
    Id(Id),
    OptionalId(Option<Id>),
    Ids(Vec<Id>),
    Number(i64),
    Flag(bool),
    Text(String),
    FixedText(&'static str),
    OptionalText(Option<String>),
    Texts(Vec<String>),
    Label(LabelKind, String),
    Status(ProductStatus),
    OrderStatus(OrderStatus),
    Role(Role),
}

/// A statement: its text, and the value of each placeholder in turn.
pub struct Statement {
    pub sql: &'static str,
    pub binds: Vec<Bind>,
}

pub const SELECT_PRODUCT: &'static str =
    "SELECT id, name, description, price, gender, condition, category, status, images, on_sale, created_at, updated_at
           FROM products
           WHERE id = $1";

pub const LOCK_PRODUCT: &'static str = "SELECT * FROM products WHERE id = $1 FOR UPDATE";

pub const SELECT_PRODUCTS: &'static str = "SELECT * FROM products WHERE id = ANY($1)";

pub const LOCK_PRODUCTS: &'static str = "SELECT * FROM products WHERE id = ANY($1) FOR UPDATE";

pub const INSERT_PRODUCT: &'static str = "
            INSERT INTO products (id, name, description, price, gender, condition, category, status, images, on_sale)
            VALUES ($1, $2, $3, $4, $5, $6, $7, $8, $9, $10)
            RETURNING id, name, description, price, gender, condition , category, status, images, on_sale, created_at, updated_at
        ";

pub const UPDATE_PRODUCT: &'static str = "
            UPDATE products
            SET name = $1, description = $2, price = $3, gender = $4, condition = $5, category = $6, status = $7, images = $8, on_sale = $9, updated_at = NOW()
            WHERE id = $10
            RETURNING *
        ";

pub const SET_PRODUCT_STATUS: &'static str = "
            UPDATE products
            SET status = $1, updated_at = NOW()
            WHERE id = $2
        ";

pub const SET_STATUSES: &'static str = "UPDATE products SET status = $1 WHERE id = ANY($2)";

pub const FIND_PRODUCT_IN_ORDERS: &'static str =
    "SELECT 1 FROM order_items WHERE product_id = $1 LIMIT 1";

pub const DELETE_PRODUCT: &'static str = "DELETE FROM products WHERE id = $1";

pub const SELECT_USER: &'static str = "
            SELECT id, email, password_hash, role, created_at, updated_at
            FROM users
            WHERE email = $1
        ";

pub const INSERT_USER: &'static str = "INSERT INTO users (email, password_hash, role) 
           VALUES ($1, $2, $3)
           RETURNING id, email, password_hash, role, created_at, updated_at";

pub const SELECT_USER_CART: &'static str = "SELECT * FROM shopping_carts WHERE user_id = $1";

pub const LOCK_USER_CART: &'static str =
    "SELECT * FROM shopping_carts WHERE user_id = $1 FOR UPDATE";

pub const SELECT_GUEST_CART: &'static str =
    "SELECT * FROM shopping_carts WHERE guest_session_id = $1";

pub const LOCK_GUEST_CART: &'static str =
    "SELECT * FROM shopping_carts WHERE guest_session_id = $1 FOR UPDATE";

pub const SELECT_CART: &'static str = "SELECT * FROM shopping_carts WHERE id = $1";

pub const INSERT_USER_CART: &'static str =
    "INSERT INTO shopping_carts (user_id) VALUES ($1) RETURNING *";

pub const INSERT_GUEST_CART: &'static str =
    "INSERT INTO shopping_carts (guest_session_id) VALUES ($1) RETURNING *";

pub const SELECT_CART_ITEMS: &'static str =
    "SELECT * FROM cart_items WHERE cart_id = $1 FOR UPDATE";

pub const INSERT_CART_ITEM: &'static str =
    "INSERT INTO cart_items (cart_id, product_id) VALUES ($1, $2) ON CONFLICT (cart_id, product_id) DO NOTHING";

pub const DELETE_CART_ITEM: &'static str =
    "DELETE FROM cart_items WHERE cart_id = $1 AND product_id = $2";

pub const DELETE_CART_ITEMS: &'static str = "DELETE FROM cart_items WHERE cart_id = $1";

pub const MOVE_CART_ITEMS: &'static str = "
                    UPDATE cart_items
                    SET cart_id = $1
                    WHERE cart_id = $2 AND product_id NOT IN (
                        SELECT product_id FROM cart_items WHERE cart_id = $1
                    )
                ";

pub const DETACH_GUEST: &'static str =
    "UPDATE shopping_carts SET guest_session_id = NULL WHERE id = $1 AND user_id = $2";

pub const DELETE_CART: &'static str = "DELETE FROM shopping_carts WHERE id = $1";

pub const INSERT_ORDER: &'static str = "
            INSERT INTO orders (
                id, user_id, guest_email, guest_session_id, status, total_price,
                shipping_first_name, shipping_last_name, shipping_address_line1, shipping_address_line2,
                shipping_city, shipping_postal_code, shipping_country, shipping_phone, 
                payment_method, shipping_method_name
            ) VALUES ($1, $2, $3, $4, $5, $6, $7, $8, $9, $10, $11, $12, $13, $14, $15, $16)
        ";

pub const INSERT_ORDER_ITEM: &'static str =
    "INSERT INTO order_items (order_id, product_id, price_at_purchase) VALUES ($1, $2, $3)";

pub const SELECT_ORDER: &'static str = "SELECT * FROM orders WHERE id = $1";

pub const SELECT_ORDER_ITEMS: &'static str = "SELECT * FROM order_items WHERE order_id = $1";

pub const SELECT_ORDER_PRODUCTS: &'static str =
    "SELECT product_id FROM order_items WHERE order_id = $1";

pub const UPDATE_ORDER_STATUS: &'static str = "
            UPDATE orders
            SET status = $1, updated_at = CURRENT_TIMESTAMP
            WHERE id = $2
            RETURNING *
        ";

pub const DELETE_ORDER_ITEMS: &'static str = "DELETE FROM order_items WHERE order_id = $1";

pub const DELETE_ORDER: &'static str = "DELETE FROM orders WHERE id = $1";

pub const UPSERT_SHIPPING: &'static str = "
            INSERT INTO user_shipping_details (
                user_id, shipping_first_name, shipping_last_name, shipping_address_line1,
                shipping_address_line2, shipping_city, shipping_postal_code, shipping_country, shipping_phone
            ) VALUES ($1, $2, $3, $4, $5, $6, $7, $8, $9)
            ON CONFLICT (user_id) DO UPDATE SET
                shipping_first_name = EXCLUDED.shipping_first_name,
                shipping_last_name = EXCLUDED.shipping_last_name,
                shipping_address_line1 = EXCLUDED.shipping_address_line1,
                shipping_address_line2 = EXCLUDED.shipping_address_line2,
                shipping_city = EXCLUDED.shipping_city,
                shipping_postal_code = EXCLUDED.shipping_postal_code,
                shipping_country = EXCLUDED.shipping_country,
                shipping_phone = EXCLUDED.shipping_phone,
                updated_at = NOW()
            RETURNING *
        ";

/// The text of a query.
pub open spec fn statement_sql(query: Query) -> &'static str {
    match query {
        Query::SelectProduct { .. } => SELECT_PRODUCT,
        Query::LockProduct { .. } => LOCK_PRODUCT,
        Query::SelectProducts { lock, .. } => if lock {
            LOCK_PRODUCTS
        } else {
            SELECT_PRODUCTS
        },
        Query::InsertProduct { .. } => INSERT_PRODUCT,
        Query::UpdateProduct { .. } => UPDATE_PRODUCT,
        Query::SetProductStatus { .. } => SET_PRODUCT_STATUS,
        Query::SetStatuses { .. } => SET_STATUSES,
        Query::FindProductInOrders { .. } => FIND_PRODUCT_IN_ORDERS,
        Query::DeleteProduct { .. } => DELETE_PRODUCT,
        Query::SelectUser { .. } => SELECT_USER,
        Query::InsertUser { .. } => INSERT_USER,
        Query::SelectCart { owner: CartOwner::User(_), lock } => if lock {
            LOCK_USER_CART
        } else {
            SELECT_USER_CART
        },
        Query::SelectCart { owner: CartOwner::Guest(_), lock } => if lock {
            LOCK_GUEST_CART
        } else {
            SELECT_GUEST_CART
        },
        Query::SelectCartById { .. } => SELECT_CART,
        Query::InsertCart { owner: CartOwner::User(_) } => INSERT_USER_CART,
        Query::InsertCart { owner: CartOwner::Guest(_) } => INSERT_GUEST_CART,
        Query::SelectCartItems { .. } => SELECT_CART_ITEMS,
        Query::InsertCartItem { .. } => INSERT_CART_ITEM,
        Query::DeleteCartItem { .. } => DELETE_CART_ITEM,
        Query::DeleteCartItems { .. } => DELETE_CART_ITEMS,
        Query::MoveCartItems { .. } => MOVE_CART_ITEMS,
        Query::DetachGuest { .. } => DETACH_GUEST,
        Query::DeleteCart { .. } => DELETE_CART,
        Query::InsertOrder { .. } => INSERT_ORDER,
        Query::InsertOrderItem { .. } => INSERT_ORDER_ITEM,
        Query::SelectOrder { .. } => SELECT_ORDER,
        Query::SelectOrderItems { .. } => SELECT_ORDER_ITEMS,
        Query::SelectOrderProducts { .. } => SELECT_ORDER_PRODUCTS,
        Query::UpdateOrderStatus { .. } => UPDATE_ORDER_STATUS,
        Query::DeleteOrderItems { .. } => DELETE_ORDER_ITEMS,
        Query::DeleteOrder { .. } => DELETE_ORDER,
        Query::UpsertShipping { .. } => UPSERT_SHIPPING,
    }
}

/// The id of a cart's owner.
pub open spec fn owner_id(owner: CartOwner) -> Id {
    match owner {
        CartOwner::User(id) => id,
        CartOwner::Guest(id) => id,
    }
}

/// The values of a query's placeholders.
pub open spec fn statement_binds(query: Query) -> Seq<Bind> {
    match query {
        Query::SelectProduct { id } => seq![Bind::Id(id)],
        Query::LockProduct { id } => seq![Bind::Id(id)],
        Query::SelectProducts { ids, .. } => seq![Bind::Ids(ids)],
        Query::InsertProduct { product } => seq![
            Bind::Id(product.id),
            Bind::Text(product.name),
            Bind::Text(product.description),
            Bind::Number(product.price),
            Bind::Label(LabelKind::Gender, product.gender),
            Bind::Label(LabelKind::Condition, product.condition),
            Bind::Label(LabelKind::Category, product.category),
            Bind::Status(product.status),
            Bind::Texts(product.images),
            Bind::Flag(product.on_sale),
        ],
        Query::UpdateProduct { product } => seq![
            Bind::Text(product.name),
            Bind::Text(product.description),
            Bind::Number(product.price),
            Bind::Label(LabelKind::Gender, product.gender),
            Bind::Label(LabelKind::Condition, product.condition),
            Bind::Label(LabelKind::Category, product.category),
            Bind::Status(product.status),
            Bind::Texts(product.images),
            Bind::Flag(product.on_sale),
            Bind::Id(product.id),
        ],
        Query::SetProductStatus { id, status } => seq![Bind::Status(status), Bind::Id(id)],
        Query::SetStatuses { ids, status } => seq![Bind::Status(status), Bind::Ids(ids)],
        Query::FindProductInOrders { id } => seq![Bind::Id(id)],
        Query::DeleteProduct { id } => seq![Bind::Id(id)],
        Query::SelectUser { email } => seq![Bind::Text(email)],
        Query::InsertUser { email, password_hash, role } => seq![
            Bind::Text(email),
            Bind::Text(password_hash),
            Bind::Role(role),
        ],
        Query::SelectCart { owner, .. } => seq![Bind::Id(owner_id(owner))],
        Query::SelectCartById { id } => seq![Bind::Id(id)],
        Query::InsertCart { owner } => seq![Bind::Id(owner_id(owner))],
        Query::SelectCartItems { cart_id } => seq![Bind::Id(cart_id)],
        Query::InsertCartItem { cart_id, product_id } => seq![
            Bind::Id(cart_id),
            Bind::Id(product_id),
        ],
        Query::DeleteCartItem { cart_id, product_id } => seq![
            Bind::Id(cart_id),
            Bind::Id(product_id),
        ],
        Query::DeleteCartItems { cart_id } => seq![Bind::Id(cart_id)],
        Query::MoveCartItems { to, from } => seq![Bind::Id(to), Bind::Id(from)],
        Query::DetachGuest { cart_id, user_id } => seq![Bind::Id(cart_id), Bind::Id(user_id)],
        Query::DeleteCart { id } => seq![Bind::Id(id)],
        Query::InsertOrder { order } => seq![
            Bind::Id(order.id),
            Bind::OptionalId(order.user_id),
            Bind::OptionalText(order.guest_email),
            Bind::OptionalId(order.guest_session_id),
            Bind::OrderStatus(order.status),
            Bind::Number(order.total_price),
            Bind::Text(order.shipping_first_name),
            Bind::Text(order.shipping_last_name),
            Bind::Text(order.shipping_address_line1),
            Bind::OptionalText(order.shipping_address_line2),
            Bind::Text(order.shipping_city),
            Bind::Text(order.shipping_postal_code),
            Bind::Text(order.shipping_country),
            Bind::Text(order.shipping_phone),
            Bind::Label(LabelKind::PaymentMethod, order.payment_method),
            Bind::FixedText(order.shipping_method_name),
        ],
        Query::InsertOrderItem { order_id, product_id, price } => seq![
            Bind::Id(order_id),
            Bind::Id(product_id),
            Bind::Number(price),
        ],
        Query::SelectOrder { id } => seq![Bind::Id(id)],
        Query::SelectOrderItems { order_id } => seq![Bind::Id(order_id)],
        Query::SelectOrderProducts { order_id } => seq![Bind::Id(order_id)],
        Query::UpdateOrderStatus { id, order_status } => seq![
            Bind::OrderStatus(order_status),
            Bind::Id(id),
        ],
        Query::DeleteOrderItems { order_id } => seq![Bind::Id(order_id)],
        Query::DeleteOrder { id } => seq![Bind::Id(id)],
        Query::UpsertShipping { shipping } => seq![
            Bind::Id(shipping.user_id),
            Bind::OptionalText(shipping.first_name),
            Bind::OptionalText(shipping.last_name),
            Bind::OptionalText(shipping.address_line1),
            Bind::OptionalText(shipping.address_line2),
            Bind::OptionalText(shipping.city),
            Bind::OptionalText(shipping.postal_code),
            Bind::OptionalText(shipping.country),
            Bind::OptionalText(shipping.phone),
        ],
    }
}

fn id_of(owner: CartOwner) -> (id: Id)
    ensures
        id == owner_id(owner),
{
    match owner {
        CartOwner::User(id) => id,
        CartOwner::Guest(id) => id,
    }
}

/// The text of a query.
pub fn sql(query: &Query) -> (text: &'static str)
    ensures
        text == statement_sql(*query),
{
    match query {
        Query::SelectProduct { .. } => SELECT_PRODUCT,
        Query::LockProduct { .. } => LOCK_PRODUCT,
        Query::SelectProducts { lock, .. } => if *lock {
            LOCK_PRODUCTS
        } else {
            SELECT_PRODUCTS
        },
        Query::InsertProduct { .. } => INSERT_PRODUCT,
        Query::UpdateProduct { .. } => UPDATE_PRODUCT,
        Query::SetProductStatus { .. } => SET_PRODUCT_STATUS,
        Query::SetStatuses { .. } => SET_STATUSES,
        Query::FindProductInOrders { .. } => FIND_PRODUCT_IN_ORDERS,
        Query::DeleteProduct { .. } => DELETE_PRODUCT,
        Query::SelectUser { .. } => SELECT_USER,
        Query::InsertUser { .. } => INSERT_USER,
        Query::SelectCart { owner: CartOwner::User(_), lock } => if *lock {
            LOCK_USER_CART
        } else {
            SELECT_USER_CART
        },
        Query::SelectCart { owner: CartOwner::Guest(_), lock } => if *lock {
            LOCK_GUEST_CART
        } else {
            SELECT_GUEST_CART
        },
        Query::SelectCartById { .. } => SELECT_CART,
        Query::InsertCart { owner: CartOwner::User(_) } => INSERT_USER_CART,
        Query::InsertCart { owner: CartOwner::Guest(_) } => INSERT_GUEST_CART,
        Query::SelectCartItems { .. } => SELECT_CART_ITEMS,
        Query::InsertCartItem { .. } => INSERT_CART_ITEM,
        Query::DeleteCartItem { .. } => DELETE_CART_ITEM,
        Query::DeleteCartItems { .. } => DELETE_CART_ITEMS,
        Query::MoveCartItems { .. } => MOVE_CART_ITEMS,
        Query::DetachGuest { .. } => DETACH_GUEST,
        Query::DeleteCart { .. } => DELETE_CART,
        Query::InsertOrder { .. } => INSERT_ORDER,
        Query::InsertOrderItem { .. } => INSERT_ORDER_ITEM,
        Query::SelectOrder { .. } => SELECT_ORDER,
        Query::SelectOrderItems { .. } => SELECT_ORDER_ITEMS,
        Query::SelectOrderProducts { .. } => SELECT_ORDER_PRODUCTS,
        Query::UpdateOrderStatus { .. } => UPDATE_ORDER_STATUS,
        Query::DeleteOrderItems { .. } => DELETE_ORDER_ITEMS,
        Query::DeleteOrder { .. } => DELETE_ORDER,
        Query::UpsertShipping { .. } => UPSERT_SHIPPING,
    }
}

fn binds(query: Query) -> (values: Vec<Bind>)
    ensures
        values@ == statement_binds(query),
{
    match query {
        Query::SelectProduct { id } => vec![Bind::Id(id)],
        Query::LockProduct { id } => vec![Bind::Id(id)],
        Query::SelectProducts { ids, .. } => vec![Bind::Ids(ids)],
        Query::InsertProduct { product } => vec![
            Bind::Id(product.id),
            Bind::Text(product.name),
            Bind::Text(product.description),
            Bind::Number(product.price),
            Bind::Label(LabelKind::Gender, product.gender),
            Bind::Label(LabelKind::Condition, product.condition),
            Bind::Label(LabelKind::Category, product.category),
            Bind::Status(product.status),
            Bind::Texts(product.images),
            Bind::Flag(product.on_sale),
        ],
        Query::UpdateProduct { product } => vec![
            Bind::Text(product.name),
            Bind::Text(product.description),
            Bind::Number(product.price),
            Bind::Label(LabelKind::Gender, product.gender),
            Bind::Label(LabelKind::Condition, product.condition),
            Bind::Label(LabelKind::Category, product.category),
            Bind::Status(product.status),
            Bind::Texts(product.images),
            Bind::Flag(product.on_sale),
            Bind::Id(product.id),
        ],
        Query::SetProductStatus { id, status } => vec![Bind::Status(status), Bind::Id(id)],
        Query::SetStatuses { ids, status } => vec![Bind::Status(status), Bind::Ids(ids)],
        Query::FindProductInOrders { id } => vec![Bind::Id(id)],
        Query::DeleteProduct { id } => vec![Bind::Id(id)],
        Query::SelectUser { email } => vec![Bind::Text(email)],
        Query::InsertUser { email, password_hash, role } => vec![
            Bind::Text(email),
            Bind::Text(password_hash),
            Bind::Role(role),
        ],
        Query::SelectCart { owner, .. } => vec![Bind::Id(id_of(owner))],
        Query::SelectCartById { id } => vec![Bind::Id(id)],
        Query::InsertCart { owner } => vec![Bind::Id(id_of(owner))],
        Query::SelectCartItems { cart_id } => vec![Bind::Id(cart_id)],
        Query::InsertCartItem { cart_id, product_id } => vec![
            Bind::Id(cart_id),
            Bind::Id(product_id),
        ],
        Query::DeleteCartItem { cart_id, product_id } => vec![
            Bind::Id(cart_id),
            Bind::Id(product_id),
        ],
        Query::DeleteCartItems { cart_id } => vec![Bind::Id(cart_id)],
        Query::MoveCartItems { to, from } => vec![Bind::Id(to), Bind::Id(from)],
        Query::DetachGuest { cart_id, user_id } => vec![Bind::Id(cart_id), Bind::Id(user_id)],
        Query::DeleteCart { id } => vec![Bind::Id(id)],
        Query::InsertOrder { order } => vec![
            Bind::Id(order.id),
            Bind::OptionalId(order.user_id),
            Bind::OptionalText(order.guest_email),
            Bind::OptionalId(order.guest_session_id),
            Bind::OrderStatus(order.status),
            Bind::Number(order.total_price),
            Bind::Text(order.shipping_first_name),
            Bind::Text(order.shipping_last_name),
            Bind::Text(order.shipping_address_line1),
            Bind::OptionalText(order.shipping_address_line2),
            Bind::Text(order.shipping_city),
            Bind::Text(order.shipping_postal_code),
            Bind::Text(order.shipping_country),
            Bind::Text(order.shipping_phone),
            Bind::Label(LabelKind::PaymentMethod, order.payment_method),
            Bind::FixedText(order.shipping_method_name),
        ],
        Query::InsertOrderItem { order_id, product_id, price } => vec![
            Bind::Id(order_id),
            Bind::Id(product_id),
            Bind::Number(price),
        ],
        Query::SelectOrder { id } => vec![Bind::Id(id)],
        Query::SelectOrderItems { order_id } => vec![Bind::Id(order_id)],
        Query::SelectOrderProducts { order_id } => vec![Bind::Id(order_id)],
        Query::UpdateOrderStatus { id, order_status } => vec![
            Bind::OrderStatus(order_status),
            Bind::Id(id),
        ],
        Query::DeleteOrderItems { order_id } => vec![Bind::Id(order_id)],
        Query::DeleteOrder { id } => vec![Bind::Id(id)],
        Query::UpsertShipping { shipping } => vec![
            Bind::Id(shipping.user_id),
            Bind::OptionalText(shipping.first_name),
            Bind::OptionalText(shipping.last_name),
            Bind::OptionalText(shipping.address_line1),
            Bind::OptionalText(shipping.address_line2),
            Bind::OptionalText(shipping.city),
            Bind::OptionalText(shipping.postal_code),
            Bind::OptionalText(shipping.country),
            Bind::OptionalText(shipping.phone),
        ],
    }
}

/// The statement that runs a query.
pub fn statement(query: Query) -> (statement: Statement)
    ensures
        statement.sql == statement_sql(query),
        statement.binds@ == statement_binds(query),
{
    let text = sql(&query);
    Statement { sql: text, binds: binds(query) }
}

} // verus!
