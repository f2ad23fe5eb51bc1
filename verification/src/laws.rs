//! What holds of the totals and of the customer list, whatever the values.
use vstd::prelude::*;
use vstd::seq_lib::{to_multiset_contains, to_multiset_len, to_multiset_remove};
use crate::customer::CustomerView;
use crate::line_item::{ledger_total, LineItemView};
use crate::product::{total_value, ProductView};
use crate::sale::{customers_total, Sale};
use crate::totalable::Totalable;

verus! {

/// A customer who owns nothing owns a value of zero, and each product added
/// raises the value owned by exactly its own value.
pub proof fn total_value_grows_by_each_product(products: Seq<ProductView>, product: ProductView)
    ensures
        total_value(Seq::empty()) == 0,
        total_value(products.push(product)) == total_value(products) + product.value,
{
    assert(products.push(product).drop_last() =~= products);
}

/// Taking one product out lowers the value owned by exactly its own value.
pub proof fn total_value_without_one(products: Seq<ProductView>, index: int)
    requires
        0 <= index < products.len(),
    ensures
        total_value(products) == total_value(products.remove(index)) + products[index].value,
    decreases products.len(),
{
    let rest = products.remove(index);
    if index == products.len() - 1 {
        assert(rest =~= products.drop_last());
    } else {
        total_value_without_one(products.drop_last(), index);
        assert(rest.drop_last() =~= products.drop_last().remove(index));
        assert(rest.last() == products.last());
    }
}

/// The value owned does not depend on the order of the products: two runs
/// that hold the same products, each as often as the other, have the same
/// total.
pub proof fn total_value_in_any_order(first: Seq<ProductView>, second: Seq<ProductView>)
    requires
        first.to_multiset() == second.to_multiset(),
    ensures
        total_value(first) == total_value(second),
    decreases first.len(),
{
    to_multiset_len(first);
    to_multiset_len(second);
    if first.len() > 0 {
        let product = first.last();
        assert(first.contains(product)) by {
            assert(first[first.len() - 1] == product);
        }
        to_multiset_contains(first, product);
        to_multiset_contains(second, product);
        let at = choose|at: int| 0 <= at < second.len() && second[at] == product;
        to_multiset_remove(first, first.len() - 1);
        to_multiset_remove(second, at);
        assert(first.remove(first.len() - 1) =~= first.drop_last());
        total_value_in_any_order(first.drop_last(), second.remove(at));
        total_value_without_one(second, at);
    }
}

/// An empty ledger totals zero, and each line item added raises the total
/// by exactly its own total: its captured unit value times its quantity.
pub proof fn ledger_total_grows_by_each_item(items: Seq<LineItemView>, item: LineItemView)
    ensures
        ledger_total(Seq::empty()) == 0,
        ledger_total(items.push(item)) == ledger_total(items) + item.unit_value * item.quantity,
{
    assert(items.push(item).drop_last() =~= items);
}

/// A line item's total rests on the unit value it captured and on its
/// quantity alone: whatever product stands in the item, the total is the same.
pub proof fn line_total_ignores_product(item: LineItemView, product: ProductView)
    ensures
        (LineItemView { product, ..item }).total() == item.total(),
{
}

/// A sale's total rests on its line items alone: two sales with the same
/// line items have the same total, whatever their customers, and that total
/// is the sum over the line items.
pub proof fn sale_total_ignores_customers(first: Sale, second: Sale)
    requires
        first@.line_items == second@.line_items,
    ensures
        first.total_spec() == second.total_spec(),
        first.total_spec() == ledger_total(first@.line_items),
{
}

/// A sale without customers holds a customer-owned value of zero, and each
/// customer added raises it by exactly the value of what that customer owns.
pub proof fn customers_total_grows_by_each_customer(
    customers: Seq<CustomerView>,
    customer: CustomerView,
)
    ensures
        customers_total(Seq::empty()) == 0,
        customers_total(customers.push(customer)) == customers_total(customers) + total_value(
            customer.products,
        ),
{
    assert(customers.push(customer).drop_last() =~= customers);
}

/// Taking the customer at `index` out of a list leaves one customer fewer;
/// those before `index` stay where they were and each one behind it moves one
/// place forward.
pub proof fn removal_closes_the_gap(customers: Seq<CustomerView>, index: int)
    requires
        0 <= index < customers.len(),
    ensures
        customers.remove(index).len() == customers.len() - 1,
        forall|at: int| 0 <= at < index ==> customers.remove(index)[at] == customers[at],
        forall|at: int|
            index < at < customers.len() ==> customers.remove(index)[at - 1] == customers[at],
{
}

} // verus!
