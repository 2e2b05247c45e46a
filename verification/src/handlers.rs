//! The requests that the shop answers.
pub mod accounts;
pub mod carts;
pub mod create_order;
pub mod create_product;
pub mod listings;
pub mod lookup;
pub mod orders;
pub mod products;
pub mod update_product;

pub use crate::ids::XGuestCartId;
pub use accounts::{
    login_handler, protected_route_handler, register_handler, upsert_user_shipping_details_handler,
};
pub use carts::{
    add_item_to_cart_handler, add_item_to_guest_cart, get_cart_handler, get_guest_cart,
    merge_cart_handler, remove_item_from_cart_handler, remove_item_from_guest_cart,
};
pub use create_order::create_order_handler;
pub use create_product::create_product_handler;
pub use listings::{list_orders_handler, list_products};
pub use orders::{
    get_order_details_handler, permanent_delete_order_handler, update_order_status_handler,
};
pub use products::{
    archivize_product_handler, get_product_details, permanent_delete_product_handler,
};
pub use update_product::update_product_partial_handler;
