//! What holds of whole requests: what each leaves in the tables, whatever came of its commands; and
//! what their statements, lists and answers mean.
pub mod accounts;
pub mod added_products;
pub mod answers;
pub mod carts;
pub mod changed_products;
pub mod filters;
pub mod forms;
pub mod heads;
pub mod kept_images;
pub mod listings;
pub mod locks;
pub mod new_products;
pub mod orders;
pub mod placed_orders;
pub mod products;
pub mod refusals;
pub mod sessions;
pub mod shown_orders;
pub mod statements;
pub mod stored_rows;
pub mod texts;
pub mod told;
