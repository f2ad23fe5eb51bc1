//! Line items: a product sold at the unit value it had when the item was
//! recorded, in a quantity.
use vstd::prelude::*;
use crate::product::{Product, ProductView};
use crate::totalable::Totalable;

verus! {

/// What a [`SaleLineItem`] is, as mathematical values.
pub struct LineItemView {
    pub product: ProductView,
    /// The unit value captured when the item was built.
    pub unit_value: int,
    pub quantity: int,
}

impl LineItemView {
    /// The item's total: the captured unit value times the quantity. The
    /// product held by the item plays no part in it.
    pub open spec fn total(self) -> int {
        self.unit_value * self.quantity
    }
}

/// The sum of the totals of `items`.
pub open spec fn ledger_total(items: Seq<LineItemView>) -> int
    decreases items.len(),
{
    if items.len() == 0 {
        0
    } else {
        ledger_total(items.drop_last()) + items.last().total()
    }
}

/// A product sold in some quantity. The unit value is copied from the product
/// when the item is built and is what the total is computed from. The
/// quantity is not checked: it may be zero or negative.
#[derive(Debug, PartialEq, Eq)]
pub struct SaleLineItem {
    product: Product,
    unit_value: i32,
    quantity: i32,
}

impl View for SaleLineItem {
    type V = LineItemView;

    closed spec fn view(&self) -> LineItemView {
        LineItemView {
            product: self.product@,
            unit_value: self.unit_value as int,
            quantity: self.quantity as int,
        }
    }
}

/// The views of a run of line items, in the same order.
pub open spec fn line_item_views(items: Seq<SaleLineItem>) -> Seq<LineItemView> {
    Seq::new(items.len(), |i: int| items[i]@)
}

impl SaleLineItem {
    /// Records `quantity` units of `product` at the value the product has now.
    pub fn new(product: Product, quantity: i32) -> (item: SaleLineItem)
        ensures
            item@ == (LineItemView {
                product: product@,
                unit_value: product@.value,
                quantity: quantity as int,
            }),
    {
        let unit_value = product.value();
        SaleLineItem { product, unit_value, quantity }
    }

    pub fn product(&self) -> (product: &Product)
        ensures
            product@ == self@.product,
    {
        &self.product
    }

    /// The unit value captured when the item was built, in hundredths of the
    /// currency unit.
    pub fn unit_value(&self) -> (unit_value: i32)
        ensures
            unit_value == self@.unit_value,
    {
        self.unit_value
    }

    pub fn quantity(&self) -> (quantity: i32)
        ensures
            quantity == self@.quantity,
    {
        self.quantity
    }
}

impl Totalable for SaleLineItem {
    open spec fn total_spec(&self) -> int {
        self@.total()
    }

    /// The captured unit value times the quantity. Both are `i32`, which
    /// bounds the total.
    fn total(&self) -> (total: i128)
        ensures
            -0x4000_0000_0000_0000 < total <= 0x4000_0000_0000_0000,
    {
        let unit_value: i128 = self.unit_value as i128;
        let quantity: i128 = self.quantity as i128;
        assert(-0x4000_0000_0000_0000 < unit_value * quantity <= 0x4000_0000_0000_0000)
            by (nonlinear_arith)
            requires
                -0x8000_0000 <= unit_value <= 0x7fff_ffff,
                -0x8000_0000 <= quantity <= 0x7fff_ffff,
        ;
        unit_value * quantity
    }
}

} // verus!
