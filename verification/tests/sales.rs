use chrono::{Local, NaiveDate, NaiveDateTime};
use sale_session::{Customer, Product, Sale, SaleError, SaleLineItem, Totalable};

fn moment() -> NaiveDateTime {
    NaiveDate::from_ymd_opt(2024, 3, 15).unwrap().and_hms_opt(10, 30, 0).unwrap()
}

fn customer(name: &str) -> Customer {
    Customer::new(
        name.to_string(),
        "Rua Um".to_string(),
        "000".to_string(),
        NaiveDate::from_ymd_opt(2000, 1, 1).unwrap(),
    )
}

fn sale_with(names: &[&str]) -> Sale {
    let mut sale = Sale::opened_at(7, moment());
    for name in names {
        sale.add_customer(customer(name));
    }
    sale
}

fn names(sale: &Sale) -> Vec<String> {
    sale.customers().iter().map(|customer| customer.name().to_string()).collect()
}

fn reported<T: Totalable>(thing: &T) -> i128 {
    thing.total()
}

#[test]
fn line_item_total_is_value_times_quantity() {
    let item = SaleLineItem::new(Product::new(1, "Caneta".to_string(), 300), 2);
    assert_eq!(item.unit_value(), 300);
    assert_eq!(item.quantity(), 2);
    assert_eq!(item.product().name(), "Caneta");
    assert_eq!(item.total(), 600);
}

#[test]
fn line_item_quantity_may_be_zero_or_negative() {
    let none = SaleLineItem::new(Product::new(1, "Caneta".to_string(), 300), 0);
    assert_eq!(none.total(), 0);
    let returned = SaleLineItem::new(Product::new(1, "Caneta".to_string(), 300), -3);
    assert_eq!(returned.total(), -900);
    let both = SaleLineItem::new(Product::new(1, "Estorno".to_string(), -300), -3);
    assert_eq!(both.total(), 900);
}

#[test]
fn line_item_total_at_the_ends_of_the_range() {
    let largest = SaleLineItem::new(Product::new(1, "Max".to_string(), i32::MIN), i32::MIN);
    assert_eq!(largest.total(), 4_611_686_018_427_387_904);
    let smallest = SaleLineItem::new(Product::new(1, "Min".to_string(), i32::MIN), i32::MAX);
    assert_eq!(smallest.total(), -4_611_686_016_279_904_256);
}

#[test]
fn line_item_keeps_the_value_it_captured() {
    let cheap = Product::new(1, "Caneta".to_string(), 300);
    let item = SaleLineItem::new(cheap, 2);
    let dear = Product::new(1, "Caneta".to_string(), 900);
    assert_eq!(dear.value(), 900);
    assert_eq!(item.unit_value(), 300);
    assert_eq!(item.product().value(), 300);
    assert_eq!(item.total(), 600);
}

#[test]
fn new_sale_is_empty() {
    let sale = Sale::opened_at(7, moment());
    assert_eq!(sale.number(), 7);
    assert_eq!(sale.created_at(), moment());
    assert_eq!(sale.customer_count(), 0);
    assert!(sale.customers().is_empty());
    assert!(sale.line_items().is_empty());
    assert_eq!(sale.total(), 0);
    assert_eq!(sale.total_customer_product_value(), Some(0));
}

#[test]
fn new_sale_is_opened_now() {
    let before = Local::now().naive_local();
    let sale = Sale::new(1);
    let after = Local::now().naive_local();
    assert_eq!(sale.number(), 1);
    assert!(before <= sale.created_at());
    assert!(sale.created_at() <= after);
    assert_eq!(sale.customer_count(), 0);
    assert!(sale.line_items().is_empty());
}

#[test]
fn created_at_never_changes() {
    let mut sale = Sale::opened_at(7, moment());
    sale.add_customer(customer("Ana"));
    sale.add_line_item(SaleLineItem::new(Product::new(1, "Caneta".to_string(), 300), 2));
    assert_eq!(sale.remove_customer(0).map(|removed| removed.name().to_string()), Ok("Ana".to_string()));
    assert_eq!(sale.created_at(), moment());
    assert_eq!(sale.number(), 7);
}

#[test]
fn sale_total_is_the_sum_of_the_line_totals() {
    let mut sale = Sale::opened_at(7, moment());
    sale.add_line_item(SaleLineItem::new(Product::new(1, "Caneta".to_string(), 300), 2));
    sale.add_line_item(SaleLineItem::new(Product::new(2, "Lápis".to_string(), 150), 4));
    assert_eq!(sale.total(), 1200);
}

#[test]
fn sale_total_ignores_the_customers() {
    let mut sale = Sale::opened_at(7, moment());
    sale.add_line_item(SaleLineItem::new(Product::new(1, "Caneta".to_string(), 300), 2));
    sale.add_line_item(SaleLineItem::new(Product::new(2, "Lápis".to_string(), 150), 4));
    let mut rich = customer("Ana");
    rich.add_product(Product::new(3, "Piano".to_string(), 9_000_000));
    sale.add_customer(rich);
    assert_eq!(sale.total(), 1200);
    assert_eq!(sale.total_customer_product_value(), Some(9_000_000));
}

#[test]
fn sale_total_with_returns() {
    let mut sale = Sale::opened_at(7, moment());
    sale.add_line_item(SaleLineItem::new(Product::new(1, "Caneta".to_string(), 300), 2));
    sale.add_line_item(SaleLineItem::new(Product::new(1, "Caneta".to_string(), 300), -5));
    sale.add_line_item(SaleLineItem::new(Product::new(1, "Caneta".to_string(), 300), 0));
    assert_eq!(sale.total(), -900);
}

#[test]
fn sale_total_goes_beyond_sixty_four_bits() {
    let mut sale = Sale::opened_at(7, moment());
    for _ in 0..3 {
        sale.add_line_item(SaleLineItem::new(Product::new(1, "Max".to_string(), i32::MIN), i32::MIN));
    }
    assert_eq!(sale.total(), 13_835_058_055_282_163_712);
}

#[test]
fn line_items_keep_their_order_and_may_repeat() {
    let mut sale = Sale::opened_at(7, moment());
    sale.add_line_item(SaleLineItem::new(Product::new(2, "Lápis".to_string(), 150), 4));
    sale.add_line_item(SaleLineItem::new(Product::new(1, "Caneta".to_string(), 300), 2));
    sale.add_line_item(SaleLineItem::new(Product::new(2, "Lápis".to_string(), 150), 4));
    let codes: Vec<i32> = sale.line_items().iter().map(|item| item.product().code()).collect();
    assert_eq!(codes, vec![2, 1, 2]);
    assert_eq!(sale.customer_count(), 0);
}

#[test]
fn totals_are_reported_alike() {
    let item = SaleLineItem::new(Product::new(1, "Caneta".to_string(), 300), 2);
    assert_eq!(reported(&item), 600);
    let mut sale = Sale::opened_at(7, moment());
    sale.add_line_item(item);
    sale.add_line_item(SaleLineItem::new(Product::new(2, "Lápis".to_string(), 150), 4));
    assert_eq!(reported(&sale), 1200);
}

#[test]
fn customer_product_value_of_one_customer() {
    let mut sale = Sale::opened_at(7, moment());
    assert_eq!(sale.total_customer_product_value(), Some(0));
    let mut ana = customer("Ana");
    ana.add_product(Product::new(1, "Caderno".to_string(), 725));
    sale.add_customer(ana);
    assert_eq!(sale.total_customer_product_value(), Some(725));
    assert_eq!(sale.total(), 0);
}

#[test]
fn customer_product_value_sums_over_the_customers() {
    let mut sale = Sale::opened_at(7, moment());
    let mut ana = customer("Ana");
    ana.add_product(Product::new(1, "Caderno".to_string(), 1000));
    ana.add_product(Product::new(2, "Caneta".to_string(), 550));
    let mut bia = customer("Bia");
    bia.add_product(Product::new(3, "Estorno".to_string(), -2000));
    sale.add_customer(ana);
    sale.add_customer(customer("Caio"));
    sale.add_customer(bia);
    assert_eq!(sale.total_customer_product_value(), Some(-450));
}

#[test]
fn customer_product_value_ignores_the_ledger() {
    let mut sale = Sale::opened_at(7, moment());
    let mut ana = customer("Ana");
    ana.add_product(Product::new(1, "Caderno".to_string(), 725));
    sale.add_customer(ana);
    sale.add_line_item(SaleLineItem::new(Product::new(1, "Caneta".to_string(), 300), 2));
    assert_eq!(sale.total_customer_product_value(), Some(725));
}

#[test]
fn customer_product_value_with_large_values_of_both_signs() {
    let mut sale = Sale::opened_at(7, moment());
    for round in 0..6 {
        let mut owner = customer("Dono");
        let value = if round % 2 == 0 { i32::MAX } else { i32::MIN };
        for _ in 0..5 {
            owner.add_product(Product::new(round, "Item".to_string(), value));
        }
        sale.add_customer(owner);
    }
    assert_eq!(sale.total_customer_product_value(), Some(-15));
}

#[test]
fn customers_keep_their_order_and_may_repeat() {
    let sale = sale_with(&["Ana", "Bia", "Ana"]);
    assert_eq!(names(&sale), vec!["Ana", "Bia", "Ana"]);
    assert_eq!(sale.customer_count(), 3);
    assert!(sale.line_items().is_empty());
}

#[test]
fn customer_by_index() {
    let sale = sale_with(&["Ana", "Bia", "Caio"]);
    assert_eq!(sale.customer(0).map(|found| found.name()), Ok("Ana"));
    assert_eq!(sale.customer(2).map(|found| found.name()), Ok("Caio"));
    assert_eq!(
        sale.customer(3).map(|found| found.name()),
        Err(SaleError::CustomerIndexOutOfRange { index: 3, count: 3 })
    );
    assert_eq!(
        sale.customer(usize::MAX).map(|found| found.name()),
        Err(SaleError::CustomerIndexOutOfRange { index: usize::MAX, count: 3 })
    );
}

#[test]
fn customer_by_index_in_an_empty_sale() {
    let sale = sale_with(&[]);
    assert_eq!(
        sale.customer(0).map(|found| found.name()),
        Err(SaleError::CustomerIndexOutOfRange { index: 0, count: 0 })
    );
}

#[test]
fn remove_from_the_middle_moves_the_rest_forward() {
    let mut sale = sale_with(&["Ana", "Bia", "Caio", "Davi"]);
    let removed = sale.remove_customer(1);
    assert_eq!(removed, Ok(customer("Bia")));
    assert_eq!(sale.customer_count(), 3);
    assert_eq!(names(&sale), vec!["Ana", "Caio", "Davi"]);
}

#[test]
fn remove_the_first_and_the_last() {
    let mut sale = sale_with(&["Ana", "Bia", "Caio"]);
    assert_eq!(sale.remove_customer(0), Ok(customer("Ana")));
    assert_eq!(names(&sale), vec!["Bia", "Caio"]);
    assert_eq!(sale.remove_customer(1), Ok(customer("Caio")));
    assert_eq!(names(&sale), vec!["Bia"]);
    assert_eq!(sale.remove_customer(0), Ok(customer("Bia")));
    assert_eq!(sale.customer_count(), 0);
}

#[test]
fn remove_out_of_range_changes_nothing() {
    let mut sale = sale_with(&["Ana", "Bia"]);
    assert_eq!(
        sale.remove_customer(2),
        Err(SaleError::CustomerIndexOutOfRange { index: 2, count: 2 })
    );
    assert_eq!(
        sale.remove_customer(usize::MAX),
        Err(SaleError::CustomerIndexOutOfRange { index: usize::MAX, count: 2 })
    );
    assert_eq!(sale, sale_with(&["Ana", "Bia"]));
}

#[test]
fn remove_from_an_empty_sale_fails() {
    let mut sale = sale_with(&[]);
    assert_eq!(
        sale.remove_customer(0),
        Err(SaleError::CustomerIndexOutOfRange { index: 0, count: 0 })
    );
    assert_eq!(sale.customer_count(), 0);
}

#[test]
fn remove_leaves_the_ledger_alone() {
    let mut sale = sale_with(&["Ana", "Bia"]);
    sale.add_line_item(SaleLineItem::new(Product::new(1, "Caneta".to_string(), 300), 2));
    assert!(sale.remove_customer(0).is_ok());
    assert_eq!(sale.line_items().len(), 1);
    assert_eq!(sale.total(), 600);
}

#[test]
fn remove_takes_the_customer_products_out_of_the_value() {
    let mut sale = Sale::opened_at(7, moment());
    let mut ana = customer("Ana");
    ana.add_product(Product::new(1, "Caderno".to_string(), 1000));
    let mut bia = customer("Bia");
    bia.add_product(Product::new(2, "Caneta".to_string(), 550));
    sale.add_customer(ana);
    sale.add_customer(bia);
    assert_eq!(sale.total_customer_product_value(), Some(1550));
    assert!(sale.remove_customer(0).is_ok());
    assert_eq!(sale.total_customer_product_value(), Some(550));
}

#[test]
fn update_customer_replaces_the_four_fields() {
    let mut sale = Sale::opened_at(7, moment());
    let mut bia = customer("Bia");
    bia.add_product(Product::new(2, "Caneta".to_string(), 550));
    sale.add_customer(customer("Ana"));
    sale.add_customer(bia);
    sale.add_customer(customer("Caio"));
    let born = NaiveDate::from_ymd_opt(1975, 12, 31).unwrap();
    let updated = sale.update_customer(
        1,
        "Beatriz".to_string(),
        "Rua Dois".to_string(),
        "111".to_string(),
        born,
    );
    assert_eq!(updated, Ok(()));
    assert_eq!(names(&sale), vec!["Ana", "Beatriz", "Caio"]);
    let found = sale.customer(1).unwrap();
    assert_eq!(found.address(), "Rua Dois");
    assert_eq!(found.document_id(), "111");
    assert_eq!(found.birth_date(), born);
    assert_eq!(found.products(), &vec![Product::new(2, "Caneta".to_string(), 550)]);
    assert_eq!(sale.customer(0).unwrap(), &customer("Ana"));
    assert_eq!(sale.customer(2).unwrap(), &customer("Caio"));
}

#[test]
fn update_customer_out_of_range_changes_nothing() {
    let mut sale = sale_with(&["Ana", "Bia"]);
    let updated = sale.update_customer(
        2,
        "Caio".to_string(),
        "Rua Dois".to_string(),
        "111".to_string(),
        NaiveDate::from_ymd_opt(1975, 12, 31).unwrap(),
    );
    assert_eq!(updated, Err(SaleError::CustomerIndexOutOfRange { index: 2, count: 2 }));
    assert_eq!(sale, sale_with(&["Ana", "Bia"]));
}

#[test]
fn customer_mut_changes_the_customer_in_place() {
    let mut sale = sale_with(&["Ana", "Bia", "Caio"]);
    sale.customer_mut(1).unwrap().update_name("Beatriz".to_string());
    sale.customer_mut(1).unwrap().add_product(Product::new(2, "Caneta".to_string(), 550));
    assert_eq!(names(&sale), vec!["Ana", "Beatriz", "Caio"]);
    assert_eq!(sale.customer(1).unwrap().address(), "Rua Um");
    assert_eq!(sale.total_customer_product_value(), Some(550));
}

#[test]
fn customer_mut_out_of_range_fails() {
    let mut sale = sale_with(&["Ana"]);
    assert_eq!(
        sale.customer_mut(1).map(|found| found.name().to_string()),
        Err(SaleError::CustomerIndexOutOfRange { index: 1, count: 1 })
    );
    assert_eq!(sale, sale_with(&["Ana"]));
}
