use vstd::prelude::*;

verus! {

/// One catalog item: an immutable value record.
///
/// The price is held in whole cents of the implied single currency, so
/// amounts stay exact integers and are never negative.
#[derive(Debug, Clone, PartialEq)]
pub struct Product {
    /// Caller-visible stable identifier, unique within the catalog.
    pub id: u64,
    /// Human-readable title; never empty.
    pub name: String,
    /// Price in cents; a two-decimal currency amount times one hundred.
    pub price_cents: u64,
    /// Free-form marketing copy; never empty.
    pub description: String,
    /// Relative path to an external image asset; not checked for existence.
    pub image: String,
}

/// The mathematical image of a [`Product`]: the same five fields, with the
/// text fields as character sequences.
pub ghost struct ProductModel {
    pub id: u64,
    pub name: Seq<char>,
    pub price_cents: u64,
    pub description: Seq<char>,
    pub image: Seq<char>,
}

impl View for Product {
    type V = ProductModel;

    open spec fn view(&self) -> ProductModel {
        ProductModel {
            id: self.id,
            name: self.name@,
            price_cents: self.price_cents,
            description: self.description@,
            image: self.image@,
        }
    }
}

/// The view of a whole product sequence, record by record.
pub open spec fn products_view(products: Seq<Product>) -> Seq<ProductModel> {
    products.map_values(|p: Product| p@)
}

} // verus!
