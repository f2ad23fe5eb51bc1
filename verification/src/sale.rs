//! The sale: its customers, and the ledger of line items.
use vstd::prelude::*;
use crate::calendar::local_now;
use crate::customer::{Customer, CustomerView};
use crate::line_item::{ledger_total, line_item_views, LineItemView, SaleLineItem};
use crate::person::PersonView;
use crate::product::total_value;
use crate::totalable::Totalable;

verus! {

/// What a [`Sale`] is, as mathematical values.
pub struct SaleView {
    pub number: int,
    /// When the sale was opened. It never changes afterwards.
    pub created_at: chrono::NaiveDateTime,
    /// The customers, in the order in which they were added.
    pub customers: Seq<CustomerView>,
    /// The ledger, in the order in which the items were added.
    pub line_items: Seq<LineItemView>,
}

/// The views of a run of customers, in the same order.
pub open spec fn customer_views(customers: Seq<Customer>) -> Seq<CustomerView> {
    Seq::new(customers.len(), |i: int| customers[i]@)
}

/// The sum, over `customers`, of the value of the products each one owns.
pub open spec fn customers_total(customers: Seq<CustomerView>) -> int
    decreases customers.len(),
{
    if customers.len() == 0 {
        0
    } else {
        customers_total(customers.drop_last()) + total_value(customers.last().products)
    }
}

/// Whether `amount` can be held in an `i128`.
pub open spec fn representable(amount: int) -> bool {
    i128::MIN <= amount <= i128::MAX
}

/// Why an operation on a sale was refused.
#[derive(Debug, Clone, Copy, PartialEq, Eq)]
pub enum SaleError {
    /// No customer stands at `index`: the sale holds only `count` of them.
    CustomerIndexOutOfRange { index: usize, count: usize },
}

/// The error that says that `sale` holds no customer at `index`.
pub open spec fn out_of_range(index: usize, sale: SaleView) -> SaleError {
    SaleError::CustomerIndexOutOfRange { index, count: sale.customers.len() as usize }
}

/// One sale: a number, the moment it was opened, its customers and its
/// ledger of line items. The two lists are independent of each other.
#[derive(Debug, PartialEq, Eq)]
pub struct Sale {
    number: i32,
    created_at: chrono::NaiveDateTime,
    customers: Vec<Customer>,
    line_items: Vec<SaleLineItem>,
}

impl View for Sale {
    type V = SaleView;

    closed spec fn view(&self) -> SaleView {
        SaleView {
            number: self.number as int,
            created_at: self.created_at,
            customers: customer_views(self.customers@),
            line_items: line_item_views(self.line_items@),
        }
    }
}

/// Half of the range of an `i128` above zero: 2^126.
const HALF_RANGE: i128 = 0x4000_0000_0000_0000_0000_0000_0000_0000;

impl Sale {
    /// Opens a sale now: the machine's local date and time are read once
    /// and kept. The sale has no customer and no line item.
    pub fn new(number: i32) -> (sale: Sale)
        ensures
            sale@.number == number,
            sale@.customers == Seq::<CustomerView>::empty(),
            sale@.line_items == Seq::<LineItemView>::empty(),
    {
        Sale::opened_at(number, local_now())
    }

    /// Opens a sale at a given moment, with no customer and no line item.
    pub fn opened_at(number: i32, created_at: chrono::NaiveDateTime) -> (sale: Sale)
        ensures
            sale@ == (SaleView {
                number: number as int,
                created_at,
                customers: Seq::empty(),
                line_items: Seq::empty(),
            }),
    {
        let sale = Sale { number, created_at, customers: Vec::new(), line_items: Vec::new() };
        assert(sale@.customers =~= Seq::empty());
        assert(sale@.line_items =~= Seq::empty());
        sale
    }

    pub fn number(&self) -> (number: i32)
        ensures
            number == self@.number,
    {
        self.number
    }

    /// When the sale was opened.
    pub fn created_at(&self) -> (created_at: chrono::NaiveDateTime)
        ensures
            created_at == self@.created_at,
    {
        self.created_at
    }

    /// The customers, in the order in which they were added.
    pub fn customers(&self) -> (customers: &Vec<Customer>)
        ensures
            customer_views(customers@) == self@.customers,
    {
        &self.customers
    }

    /// The ledger, in the order in which the items were added.
    pub fn line_items(&self) -> (line_items: &Vec<SaleLineItem>)
        ensures
            line_item_views(line_items@) == self@.line_items,
    {
        &self.line_items
    }

    pub fn customer_count(&self) -> (count: usize)
        ensures
            count == self@.customers.len(),
    {
        self.customers.len()
    }

    /// The customer at `index`, counted from zero; an error where the sale
    /// holds no customer there.
    pub fn customer(&self, index: usize) -> (found: Result<&Customer, SaleError>)
        ensures
            match found {
                Ok(customer) => index < self@.customers.len() && customer@
                    == self@.customers[index as int],
                Err(error) => index >= self@.customers.len() && error == out_of_range(
                    index,
                    self@,
                ),
            },
    {
        if index < self.customers.len() {
            Ok(&self.customers[index])
        } else {
            Err(SaleError::CustomerIndexOutOfRange { index, count: self.customers.len() })
        }
    }

    /// The customer at `index`, to be changed in place; an error where the
    /// sale holds no customer there. Whatever the caller makes of the customer
    /// is what the sale holds at `index` afterwards; nothing else changes.
    pub fn customer_mut(&mut self, index: usize) -> (found: Result<&mut Customer, SaleError>)
        ensures
            match found {
                Ok(customer) => {
                    &&& index < old(self)@.customers.len()
                    &&& customer@ == old(self)@.customers[index as int]
                    &&& final(self)@ == (SaleView {
                        customers: old(self)@.customers.update(index as int, final(customer)@),
                        ..old(self)@
                    })
                },
                Err(error) => {
                    &&& index >= old(self)@.customers.len()
                    &&& error == out_of_range(index, old(self)@)
                    &&& final(self)@ == old(self)@
                },
            },
    {
        if index < self.customers.len() {
            let slot = &mut self.customers[index];
            assert(customer_views(after_borrow(self.customers)@) =~= customer_views(
                old(self).customers@,
            ).update(index as int, (*final(slot))@));
            Ok(slot)
        } else {
            Err(SaleError::CustomerIndexOutOfRange { index, count: self.customers.len() })
        }
    }

    /// Appends `item` to the ledger. The customers are not touched.
    pub fn add_line_item(&mut self, item: SaleLineItem)
        ensures
            final(self)@ == (SaleView {
                line_items: old(self)@.line_items.push(item@),
                ..old(self)@
            }),
    {
        self.line_items.push(item);
        assert(line_item_views(self.line_items@) =~= line_item_views(old(self).line_items@).push(
            item@,
        ));
    }

    /// Appends `customer` to the customers. The ledger is not touched.
    pub fn add_customer(&mut self, customer: Customer)
        ensures
            final(self)@ == (SaleView {
                customers: old(self)@.customers.push(customer@),
                ..old(self)@
            }),
    {
        self.customers.push(customer);
        assert(customer_views(self.customers@) =~= customer_views(old(self).customers@).push(
            customer@,
        ));
    }

    /// Takes the customer at `index` out of the sale and hands it back; those
    /// behind it move one place forward. Where the sale holds no customer at
    /// `index`, nothing changes and the error says so.
    pub fn remove_customer(&mut self, index: usize) -> (removed: Result<Customer, SaleError>)
        ensures
            match removed {
                Ok(customer) => {
                    &&& index < old(self)@.customers.len()
                    &&& customer@ == old(self)@.customers[index as int]
                    &&& final(self)@ == (SaleView {
                        customers: old(self)@.customers.remove(index as int),
                        ..old(self)@
                    })
                },
                Err(error) => {
                    &&& index >= old(self)@.customers.len()
                    &&& error == out_of_range(index, old(self)@)
                    &&& final(self)@ == old(self)@
                },
            },
    {
        if index < self.customers.len() {
            let customer = self.customers.remove(index);
            assert(customer_views(self.customers@) =~= customer_views(
                old(self).customers@,
            ).remove(index as int));
            Ok(customer)
        } else {
            Err(SaleError::CustomerIndexOutOfRange { index, count: self.customers.len() })
        }
    }

    /// Replaces the name, address, document id and birth date of the customer
    /// at `index`; the products that customer owns, the other customers and
    /// the ledger stay. Where the sale holds no customer at `index`, nothing
    /// changes and the error says so.
    pub fn update_customer(
        &mut self,
        index: usize,
        name: String,
        address: String,
        document_id: String,
        birth_date: chrono::NaiveDate,
    ) -> (updated: Result<(), SaleError>)
        ensures
            match updated {
                Ok(()) => {
                    &&& index < old(self)@.customers.len()
                    &&& final(self)@ == (SaleView {
                        customers: old(self)@.customers.update(
                            index as int,
                            CustomerView {
                                person: PersonView { name: name@, address: address@ },
                                document_id: document_id@,
                                birth_date,
                                products: old(self)@.customers[index as int].products,
                            },
                        ),
                        ..old(self)@
                    })
                },
                Err(error) => {
                    &&& index >= old(self)@.customers.len()
                    &&& error == out_of_range(index, old(self)@)
                    &&& final(self)@ == old(self)@
                },
            },
    {
        if index < self.customers.len() {
            let customer = &mut self.customers[index];
            customer.update_name(name);
            customer.update_address(address);
            customer.update_document_id(document_id);
            customer.update_birth_date(birth_date);
            assert(customer_views(self.customers@) =~= customer_views(
                old(self).customers@,
            ).update(index as int, self.customers@[index as int]@));
            Ok(())
        } else {
            Err(SaleError::CustomerIndexOutOfRange { index, count: self.customers.len() })
        }
    }

    /// The sum, over the customers, of the value of the products each one
    /// owns, in hundredths of the currency unit; zero where there is no
    /// customer. The ledger plays no part in it. `None` where, and only where,
    /// the sum is too large for an `i128`.
    ///
    /// A partial sum may leave the range while the whole sum lies inside it,
    /// so the sum is carried in two words: `carry * 2^126 + low`.
    pub fn total_customer_product_value(&self) -> (total: Option<i128>)
        ensures
            match total {
                Some(sum) => sum == customers_total(self@.customers),
                None => !representable(customers_total(self@.customers)),
            },
    {
        let mut carry: i128 = 0;
        let mut low: i128 = 0;
        let mut i: usize = 0;
        while i < self.customers.len()
            invariant
                i <= self.customers.len(),
                carry * HALF_RANGE + low == customers_total(self@.customers.take(i as int)),
                -HALF_RANGE < low < HALF_RANGE,
                -i <= carry <= i,
            decreases self.customers.len() - i,
        {
            let owned = self.customers[i].total_product_value();
            assert(self@.customers.take(i + 1).drop_last() =~= self@.customers.take(i as int));
            low = low + owned;
            if low >= HALF_RANGE {
                low = low - HALF_RANGE;
                carry = carry + 1;
            } else if low <= -HALF_RANGE {
                low = low + HALF_RANGE;
                carry = carry - 1;
            }
            i = i + 1;
        }
        assert(self@.customers.take(i as int) =~= self@.customers);
        if carry == 0 {
            Some(low)
        } else if carry == 1 {
            Some(low + HALF_RANGE)
        } else if carry == -1 {
            Some(low - HALF_RANGE)
        } else if carry == 2 && low < 0 {
            Some(low + HALF_RANGE + HALF_RANGE)
        } else if carry == -2 && low >= 0 {
            Some(low - HALF_RANGE - HALF_RANGE)
        } else {
            None
        }
    }
}

impl Totalable for Sale {
    open spec fn total_spec(&self) -> int {
        ledger_total(self@.line_items)
    }

    /// The sum of the totals of the line items, in hundredths of the currency
    /// unit; zero where the ledger is empty. The customers play no part in it.
    /// It cannot leave the range of the result: an item's total is at most
    /// 2^62 in size and the ledger holds fewer than 2^64 items.
    fn total(&self) -> (total: i128) {
        let mut total: i128 = 0;
        let mut i: usize = 0;
        while i < self.line_items.len()
            invariant
                i <= self.line_items.len(),
                total == ledger_total(self@.line_items.take(i as int)),
                -0x4000_0000_0000_0000 * i <= total <= 0x4000_0000_0000_0000 * i,
            decreases self.line_items.len() - i,
        {
            let item_total = self.line_items[i].total();
            assert(self@.line_items.take(i + 1).drop_last() =~= self@.line_items.take(i as int));
            total = total + item_total;
            i = i + 1;
        }
        assert(self@.line_items.take(i as int) =~= self@.line_items);
        total
    }
}

} // verus!
