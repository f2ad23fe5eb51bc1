//! Products: what a customer owns and what a line item sells.
use vstd::prelude::*;

verus! {

/// What a [`Product`] is, as mathematical values.
pub struct ProductView {
    pub code: int,
    pub name: Seq<char>,
    /// The unit value, in hundredths of the currency unit.
    pub value: int,
}

/// A product: an identifying code, a name and a unit value in hundredths of
/// the currency unit. It does not change once built.
#[derive(Debug, PartialEq, Eq)]
pub struct Product {
    code: i32,
    name: String,
    value: i32,
}

impl View for Product {
    type V = ProductView;

    closed spec fn view(&self) -> ProductView {
        ProductView { code: self.code as int, name: self.name@, value: self.value as int }
    }
}

impl Product {
    /// Builds a product. Nothing is checked: the code need not be unique and
    /// the value may be negative.
    pub fn new(code: i32, name: String, value: i32) -> (product: Product)
        ensures
            product@ == (ProductView { code: code as int, name: name@, value: value as int }),
    {
        Product { code, name, value }
    }

    pub fn code(&self) -> (code: i32)
        ensures
            code == self@.code,
    {
        self.code
    }

    pub fn name(&self) -> (name: &str)
        ensures
            name@ == self@.name,
    {
        self.name.as_str()
    }

    /// The unit value, in hundredths of the currency unit.
    pub fn value(&self) -> (value: i32)
        ensures
            value == self@.value,
    {
        self.value
    }
}

/// The views of a run of products, in the same order.
pub open spec fn product_views(products: Seq<Product>) -> Seq<ProductView> {
    Seq::new(products.len(), |i: int| products[i]@)
}

/// The sum of the unit values of `products`.
pub open spec fn total_value(products: Seq<ProductView>) -> int
    decreases products.len(),
{
    if products.len() == 0 {
        0
    } else {
        total_value(products.drop_last()) + products.last().value
    }
}

} // verus!
