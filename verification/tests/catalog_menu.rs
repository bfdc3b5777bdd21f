use market::catalog::BuyOutcome;
use market::catalog::Catalog;
use market::menu::Action;
use market::menu::Selection;
use market::menu::handle_selection;
use market::records::Customer;
use market::records::Product;

fn sample_catalog() -> Catalog {
    let mut catalog = Catalog::new();
    catalog.add_product(Product::new(String::from("Book"), 1000, 5));
    catalog.add_product(Product::new(String::from("Phone"), 5000, 3));
    catalog.add_product(Product::new(String::from("Headphones"), 2500, 7));
    catalog
}

#[test]
fn new_catalog_is_empty() {
    let catalog = Catalog::new();
    assert_eq!(catalog.len(), 0);
    assert!(catalog.product_at(0).is_none());
}

#[test]
fn add_product_appends_in_order() {
    let catalog = sample_catalog();
    assert_eq!(catalog.len(), 3);
    let first = catalog.product_at(0).unwrap();
    assert_eq!(first.name().as_str(), "Book");
    assert_eq!(first.price(), 1000);
    assert_eq!(first.stock_quantity(), 5);
    let last = catalog.product_at(2).unwrap();
    assert_eq!(last.name().as_str(), "Headphones");
    assert!(catalog.product_at(3).is_none());
}

#[test]
fn buy_success_updates_only_that_product() {
    let mut customer = Customer::new(String::from("Ada"), String::from("Lovelace"), 20000);
    let mut catalog = sample_catalog();
    let outcome = catalog.buy(&mut customer, 2, 2);
    assert_eq!(outcome, BuyOutcome::Success);
    assert_eq!(customer.balance(), 10000);
    assert_eq!(catalog.product_at(1).unwrap().stock_quantity(), 1);
    assert_eq!(catalog.product_at(0).unwrap().stock_quantity(), 5);
    assert_eq!(catalog.product_at(2).unwrap().stock_quantity(), 7);
}

#[test]
fn buy_number_zero_is_out_of_range() {
    let mut customer = Customer::new(String::from("Ada"), String::from("Lovelace"), 20000);
    let mut catalog = sample_catalog();
    let outcome = catalog.buy(&mut customer, 0, 1);
    assert_eq!(outcome, BuyOutcome::IndexOutOfRange);
    assert_eq!(customer.balance(), 20000);
    assert_eq!(catalog.product_at(0).unwrap().stock_quantity(), 5);
}

#[test]
fn buy_number_past_end_is_out_of_range() {
    let mut customer = Customer::new(String::from("Ada"), String::from("Lovelace"), 20000);
    let mut catalog = sample_catalog();
    let outcome = catalog.buy(&mut customer, 4, 1);
    assert_eq!(outcome, BuyOutcome::IndexOutOfRange);
    assert_eq!(customer.balance(), 20000);
}

#[test]
fn buy_denied_reports_transaction_denied() {
    let mut customer = Customer::new(String::from("Jane"), String::from("Smith"), 100);
    let mut catalog = sample_catalog();
    let outcome = catalog.buy(&mut customer, 1, 1);
    assert_eq!(outcome, BuyOutcome::TransactionDenied);
    assert_eq!(customer.balance(), 100);
    assert_eq!(catalog.product_at(0).unwrap().stock_quantity(), 5);
}

#[test]
fn view_balance_changes_nothing() {
    let mut customer = Customer::new(String::from("Eve"), String::from("User"), 20000);
    let mut catalog = sample_catalog();
    let action = handle_selection(&mut customer, &mut catalog, Selection::ViewBalance);
    assert_eq!(action, Action::ShowBalance);
    assert_eq!(customer.balance(), 20000);
    assert_eq!(catalog.len(), 3);
}

#[test]
fn view_products_changes_nothing() {
    let mut customer = Customer::new(String::from("Eve"), String::from("User"), 20000);
    let mut catalog = sample_catalog();
    let action = handle_selection(&mut customer, &mut catalog, Selection::ViewProducts);
    assert_eq!(action, Action::ShowProducts);
    assert_eq!(catalog.product_at(1).unwrap().stock_quantity(), 3);
}

#[test]
fn exit_changes_nothing() {
    let mut customer = Customer::new(String::from("Eve"), String::from("User"), 20000);
    let mut catalog = sample_catalog();
    let action = handle_selection(&mut customer, &mut catalog, Selection::Exit);
    assert_eq!(action, Action::Quit);
    assert_eq!(customer.balance(), 20000);
}

#[test]
fn buy_selection_purchases_and_reports() {
    let mut customer = Customer::new(String::from("Eve"), String::from("User"), 20000);
    let mut catalog = sample_catalog();
    let action = handle_selection(&mut customer, &mut catalog, Selection::BuyProduct(3, 2));
    assert_eq!(action, Action::ReportPurchase(BuyOutcome::Success));
    assert_eq!(customer.balance(), 15000);
    assert_eq!(catalog.product_at(2).unwrap().stock_quantity(), 5);
}

#[test]
fn buy_selection_reports_failure_without_mutation() {
    let mut customer = Customer::new(String::from("Eve"), String::from("User"), 20000);
    let mut catalog = sample_catalog();
    let action = handle_selection(&mut customer, &mut catalog, Selection::BuyProduct(9, 2));
    assert_eq!(action, Action::ReportPurchase(BuyOutcome::IndexOutOfRange));
    assert_eq!(customer.balance(), 20000);
    assert_eq!(catalog.len(), 3);
}
