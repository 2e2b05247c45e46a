//! Decision logic of a small shop: its catalogue, carts, orders and accounts.
pub mod handlers;
pub mod headers;
pub mod ids;
pub mod json;
pub mod laws;
pub mod messages;
pub mod models;
pub mod pages;
pub mod protocol;
pub mod seo;
pub mod sql;
pub mod statements;
pub mod store;
pub mod text;
