//! A sale held in memory: customers with the products they own, and a
//! separate ledger of line items from which the sale's total is computed.
//!
//! Money is counted in whole hundredths of the currency unit, so every total
//! is an exact integer. A unit value and a quantity are `i32`; totals are
//! `i128`, which holds the value of any one customer's products and the total
//! of any ledger. Only the value summed over all customers can outgrow it, and
//! the sale says so when it does.
pub mod calendar;
pub mod console;
pub mod customer;
pub mod laws;
pub mod line_item;
pub mod money;
pub mod person;
pub mod product;
pub mod sale;
pub mod totalable;

pub use customer::Customer;
pub use line_item::SaleLineItem;
pub use person::Person;
pub use product::Product;
pub use sale::{Sale, SaleError};
pub use totalable::Totalable;
