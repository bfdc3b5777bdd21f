//! The requests an interactive driver can make of the market, and the one
//! step that carries such a request out.
//!
//! The driver itself — prompting, reading lines, parsing numbers, printing
//! status text — is outside the library. It turns each parsed input into a
//! [`Selection`] and hands it to [`handle_selection`], which performs
//! whatever the market must do for it (only a purchase changes any state)
//! and answers with the [`Action`] the driver should display.

use vstd::prelude::*;

use crate::catalog::BuyOutcome;
use crate::catalog::Catalog;
use crate::catalog::buy_post;
use crate::records::Customer;

verus! {

/// One request from the interactive driver, derived from parsed user input.
/// A purchase carries the 1-based product number and the quantity.
#[derive(Clone, Copy, Debug, PartialEq, Eq, Structural)]
pub enum Selection {
    /// Show the customer's balance.
    ViewBalance,
    /// Show the catalog.
    ViewProducts,
    /// Attempt a purchase of the given product number and quantity.
    BuyProduct(usize, u32),
    /// Leave the market.
    Exit,
}

/// What the driver should display after a selection has been carried out.
#[derive(Clone, Copy, Debug, PartialEq, Eq, Structural)]
pub enum Action {
    /// Display the customer's balance.
    ShowBalance,
    /// Display the catalog.
    ShowProducts,
    /// Report how the attempted purchase ended.
    ReportPurchase(BuyOutcome),
    /// Say goodbye and stop the loop.
    Quit,
}

/// Carries one selection out. Viewing and leaving read nothing and change
/// nothing; a purchase acts on the catalog and the customer exactly as
/// [`buy_post`] says and reports its outcome.
pub fn handle_selection(customer: &mut Customer, catalog: &mut Catalog, selection: Selection) -> (action:
    Action)
    ensures
        match selection {
            Selection::ViewBalance => {
                &&& action == Action::ShowBalance
                &&& *final(customer) == *old(customer)
                &&& final(catalog)@ == old(catalog)@
            },
            Selection::ViewProducts => {
                &&& action == Action::ShowProducts
                &&& *final(customer) == *old(customer)
                &&& final(catalog)@ == old(catalog)@
            },
            Selection::BuyProduct(product_number, quantity) => match action {
                Action::ReportPurchase(outcome) => buy_post(
                    old(catalog)@,
                    *old(customer),
                    product_number,
                    quantity,
                    final(catalog)@,
                    *final(customer),
                    outcome,
                ),
                _ => false,
            },
            Selection::Exit => {
                &&& action == Action::Quit
                &&& *final(customer) == *old(customer)
                &&& final(catalog)@ == old(catalog)@
            },
        },
{
    match selection {
        Selection::ViewBalance => Action::ShowBalance,
        Selection::ViewProducts => Action::ShowProducts,
        Selection::BuyProduct(product_number, quantity) => Action::ReportPurchase(
            catalog.buy(customer, product_number, quantity),
        ),
        Selection::Exit => Action::Quit,
    }
}

} // verus!
