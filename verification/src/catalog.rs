//! An owned, ordered collection of products, and the purchase transaction
//! keyed by a 1-based product number as the interactive menu presents it.
//!
//! The outcome of such a purchase distinguishes a number outside the catalog
//! range from a transaction the guard denied; a plain purchase by direct
//! reference reports denial only through its boolean result.

use vstd::prelude::*;

use crate::records::Customer;
use crate::records::Product;
use crate::records::purchase_post;

verus! {

/// How a purchase through the catalog ended.
#[derive(Clone, Copy, Debug, PartialEq, Eq, Structural)]
pub enum BuyOutcome {
    /// The guard held; balance and stock were transferred.
    Success,
    /// The product number was in range but the guard failed
    /// (insufficient stock or insufficient balance); nothing changed.
    TransactionDenied,
    /// The product number was outside the catalog range; nothing changed.
    IndexOutOfRange,
}

/// The ordered collection of available products.
pub struct Catalog {
    products: Vec<Product>,
}

impl View for Catalog {
    type V = Seq<Product>;

    closed spec fn view(&self) -> Seq<Product> {
        self.products@
    }
}

/// How one purchase through the catalog relates the catalog and the customer
/// before the call (`catalog0`, `customer0`) to those after it (`catalog1`,
/// `customer1`) and to its outcome. `product_number` is 1-based: a number of
/// zero or above the catalog's length is out of range and changes nothing;
/// otherwise the purchase acts on the product at that position exactly as
/// [`purchase_post`] says, leaves every other product untouched, and reports
/// success or denial.
pub open spec fn buy_post(
    catalog0: Seq<Product>,
    customer0: Customer,
    product_number: usize,
    quantity: u32,
    catalog1: Seq<Product>,
    customer1: Customer,
    outcome: BuyOutcome,
) -> bool {
    if product_number == 0 || product_number > catalog0.len() {
        &&& outcome == BuyOutcome::IndexOutOfRange
        &&& catalog1 == catalog0
        &&& customer1 == customer0
    } else {
        let i = product_number - 1;
        &&& (outcome == BuyOutcome::Success || outcome == BuyOutcome::TransactionDenied)
        &&& catalog1.len() == catalog0.len()
        &&& (forall|j: int| 0 <= j < catalog0.len() && j != i ==> catalog1[j] == catalog0[j])
        &&& purchase_post(
            customer0,
            catalog0[i],
            quantity,
            customer1,
            catalog1[i],
            outcome == BuyOutcome::Success,
        )
    }
}

impl Catalog {
    /// Makes an empty catalog.
    pub fn new() -> (catalog: Catalog)
        ensures
            catalog@ == Seq::<Product>::empty(),
    {
        Catalog { products: Vec::new() }
    }

    /// Appends a product at the end of the catalog.
    pub fn add_product(&mut self, product: Product)
        ensures
            final(self)@ == old(self)@.push(product),
    {
        self.products.push(product);
    }

    /// The number of products in the catalog.
    pub fn len(&self) -> (n: usize)
        ensures
            n == self@.len(),
    {
        self.products.len()
    }

    /// The product at a 0-based position, or nothing when the position is
    /// outside the catalog.
    pub fn product_at(&self, index: usize) -> (r: Option<&Product>)
        ensures
            match r {
                Some(product) => index < self@.len() && *product == self@[index as int],
                None => index >= self@.len(),
            },
    {
        if index < self.products.len() {
            Some(&self.products[index])
        } else {
            None
        }
    }

    /// The purchase transaction through the catalog: checks the 1-based
    /// product number, then attempts the guarded transfer on the product at
    /// that position. All-or-nothing: on any failure the catalog and the
    /// customer are exactly as they were.
    pub fn buy(&mut self, customer: &mut Customer, product_number: usize, quantity: u32) -> (outcome:
        BuyOutcome)
        ensures
            buy_post(
                old(self)@,
                *old(customer),
                product_number,
                quantity,
                final(self)@,
                *final(customer),
                outcome,
            ),
    {
        if product_number == 0 || product_number > self.products.len() {
            return BuyOutcome::IndexOutOfRange;
        }
        let index = product_number - 1;
        let mut product = self.products.remove(index);
        let success = customer.buy_product(&mut product, quantity);
        self.products.insert(index, product);
        if success {
            BuyOutcome::Success
        } else {
            BuyOutcome::TransactionDenied
        }
    }
}

} // verus!
