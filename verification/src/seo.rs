//! The description of a product that search engines read, after schema.org.
use vstd::prelude::*;

verus! {

/// A brand; `type_of` stands under `@type`.
pub struct SchemaBrand<'a> {
    pub type_of: &'a str,
    pub name: &'a str,
}

/// An offer; `type_of` stands under `@type`.
pub struct SchemaOffer<'a> {
    pub type_of: &'a str,
    pub url: String,
    pub price_currency: &'a str,
    pub price: String,
    pub availability: &'a str,
    pub item_condition: &'a str,
}

/// A product; `context` stands under `@context`, `type_of` under `@type`.
pub struct SchemaProduct<'a> {
    pub context: &'a str,
    pub type_of: &'a str,
    pub name: &'a str,
    pub description: &'a str,
    pub sku: String,
    pub image: &'a [String],
    pub brand: SchemaBrand<'a>,
    pub offers: SchemaOffer<'a>,
}

} // verus!
