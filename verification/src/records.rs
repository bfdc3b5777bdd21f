//! The two leaf records of the market — a customer and a product — and the
//! guarded purchase transaction that reads and writes both.
//!
//! Balances and prices are whole numbers of cents, so every cost is an exact
//! integer and the non-negativity invariant of the data model holds by
//! construction (`u64` and `u32` cannot go below zero). A customer's balance
//! can only decrease, and only through [`Customer::buy_product`]; a product's
//! price is immutable after construction and its stock can only decrease,
//! again only through a purchase.

use vstd::prelude::*;

verus! {

/// A customer: a name, a surname, and a cash balance in cents.
pub struct Customer {
    name: String,
    surname: String,
    balance: u64,
}

/// A product: a name, a unit price in cents, and a stock count.
pub struct Product {
    name: String,
    price: u64,
    stock_quantity: u32,
}

impl Customer {
    /// The customer's name, for specification purposes.
    pub closed spec fn spec_name(&self) -> String {
        self.name
    }

    /// The customer's surname, for specification purposes.
    pub closed spec fn spec_surname(&self) -> String {
        self.surname
    }

    /// The customer's balance in cents, for specification purposes.
    pub closed spec fn spec_balance(&self) -> u64 {
        self.balance
    }

    /// Makes a customer with the given name, surname and balance (in cents).
    pub fn new(name: String, surname: String, balance: u64) -> (customer: Customer)
        ensures
            customer.spec_name() == name,
            customer.spec_surname() == surname,
            customer.spec_balance() == balance,
    {
        Customer { name, surname, balance }
    }

    /// Read accessor for the customer's name.
    pub fn name(&self) -> (r: &String)
        ensures
            *r == self.spec_name(),
    {
        &self.name
    }

    /// Read accessor for the customer's surname.
    pub fn surname(&self) -> (r: &String)
        ensures
            *r == self.spec_surname(),
    {
        &self.surname
    }

    /// Read accessor for the customer's balance in cents.
    pub fn balance(&self) -> (r: u64)
        ensures
            r == self.spec_balance(),
    {
        self.balance
    }

    /// The purchase transaction: all-or-nothing transfer of
    /// `quantity * product.price` cents out of the balance and of `quantity`
    /// units out of the stock. Succeeds exactly when the stock covers the
    /// quantity and the balance covers the total cost; on failure neither
    /// record changes, and the boolean result is the only signal.
    pub fn buy_product(&mut self, product: &mut Product, quantity: u32) -> (success: bool)
        ensures
            purchase_post(*old(self), *old(product), quantity, *final(self), *final(product), success),
    {
        match product.price.checked_mul(quantity as u64) {
            Some(total) => {
                if product.stock_quantity >= quantity && self.balance >= total {
                    self.balance = self.balance - total;
                    product.stock_quantity = product.stock_quantity - quantity;
                    true
                } else {
                    false
                }
            }
            // The cost does not even fit in a `u64`, so no balance covers it.
            None => false,
        }
    }
}

impl Product {
    /// The product's name, for specification purposes.
    pub closed spec fn spec_name(&self) -> String {
        self.name
    }

    /// The product's unit price in cents, for specification purposes.
    pub closed spec fn spec_price(&self) -> u64 {
        self.price
    }

    /// The product's stock count, for specification purposes.
    pub closed spec fn spec_stock_quantity(&self) -> u32 {
        self.stock_quantity
    }

    /// Makes a product with the given name, unit price (in cents) and stock.
    pub fn new(name: String, price: u64, stock_quantity: u32) -> (product: Product)
        ensures
            product.spec_name() == name,
            product.spec_price() == price,
            product.spec_stock_quantity() == stock_quantity,
    {
        Product { name, price, stock_quantity }
    }

    /// Read accessor for the product's name.
    pub fn name(&self) -> (r: &String)
        ensures
            *r == self.spec_name(),
    {
        &self.name
    }

    /// Read accessor for the product's unit price in cents.
    pub fn price(&self) -> (r: u64)
        ensures
            r == self.spec_price(),
    {
        self.price
    }

    /// Read accessor for the product's stock count.
    pub fn stock_quantity(&self) -> (r: u32)
        ensures
            r == self.spec_stock_quantity(),
    {
        self.stock_quantity
    }
}

/// The total cost of `quantity` units at `price` cents each, as an
/// unbounded integer (so the specification never overflows).
pub open spec fn total_cost(price: u64, quantity: u32) -> int {
    price * quantity
}

/// The guard condition of a purchase: the stock covers the quantity and the
/// balance covers the total cost.
pub open spec fn purchase_allowed(customer: Customer, product: Product, quantity: u32) -> bool {
    &&& product.spec_stock_quantity() >= quantity
    &&& customer.spec_balance() >= total_cost(product.spec_price(), quantity)
}

/// How one purchase relates the records before the call (`customer0`,
/// `product0`) to the records after it (`customer1`, `product1`) and to its
/// boolean result: it succeeds exactly when the guard holds; on success the
/// balance drops by the total cost and the stock by the quantity while names
/// and price stay as they were; on failure nothing changes at all.
pub open spec fn purchase_post(
    customer0: Customer,
    product0: Product,
    quantity: u32,
    customer1: Customer,
    product1: Product,
    success: bool,
) -> bool {
    &&& success == purchase_allowed(customer0, product0, quantity)
    &&& if success {
        &&& customer1.spec_name() == customer0.spec_name()
        &&& customer1.spec_surname() == customer0.spec_surname()
        &&& customer1.spec_balance() == customer0.spec_balance() - total_cost(
            product0.spec_price(),
            quantity,
        )
        &&& product1.spec_name() == product0.spec_name()
        &&& product1.spec_price() == product0.spec_price()
        &&& product1.spec_stock_quantity() == product0.spec_stock_quantity() - quantity
    } else {
        &&& customer1 == customer0
        &&& product1 == product0
    }
}

/// Law: whenever the guard holds, a purchase succeeds and transfers exactly
/// the total cost out of the balance and exactly the quantity out of the
/// stock, leaving names and price untouched.
pub proof fn lemma_granted_purchase(
    customer0: Customer,
    product0: Product,
    quantity: u32,
    customer1: Customer,
    product1: Product,
    success: bool,
)
    requires
        purchase_allowed(customer0, product0, quantity),
        purchase_post(customer0, product0, quantity, customer1, product1, success),
    ensures
        success,
        customer1.spec_balance() == customer0.spec_balance() - total_cost(
            product0.spec_price(),
            quantity,
        ),
        product1.spec_stock_quantity() == product0.spec_stock_quantity() - quantity,
        customer1.spec_name() == customer0.spec_name(),
        customer1.spec_surname() == customer0.spec_surname(),
        product1.spec_name() == product0.spec_name(),
        product1.spec_price() == product0.spec_price(),
{
}

/// Law: whenever the guard fails, a purchase returns false and leaves both
/// records exactly as they were.
pub proof fn lemma_denied_purchase(
    customer0: Customer,
    product0: Product,
    quantity: u32,
    customer1: Customer,
    product1: Product,
    success: bool,
)
    requires
        !purchase_allowed(customer0, product0, quantity),
        purchase_post(customer0, product0, quantity, customer1, product1, success),
    ensures
        !success,
        customer1 == customer0,
        product1 == product0,
{
}

/// Law: a denied purchase is idempotent. Two successive calls with the same
/// denied inputs both return false and leave the records exactly as they
/// started, so any number of repetitions never mutates state.
pub proof fn lemma_denied_purchase_idempotent(
    customer0: Customer,
    product0: Product,
    quantity: u32,
    customer1: Customer,
    product1: Product,
    success1: bool,
    customer2: Customer,
    product2: Product,
    success2: bool,
)
    requires
        !purchase_allowed(customer0, product0, quantity),
        purchase_post(customer0, product0, quantity, customer1, product1, success1),
        purchase_post(customer1, product1, quantity, customer2, product2, success2),
    ensures
        !success1,
        !success2,
        customer1 == customer0,
        product1 == product0,
        customer2 == customer0,
        product2 == product0,
{
}

/// Law: a purchase of zero units always succeeds, whatever the balance and
/// the stock, and transfers nothing: both guard comparisons hold trivially
/// and the cost is zero.
pub proof fn lemma_zero_quantity_purchase(
    customer0: Customer,
    product0: Product,
    customer1: Customer,
    product1: Product,
    success: bool,
)
    requires
        purchase_post(customer0, product0, 0, customer1, product1, success),
    ensures
        success,
        customer1.spec_balance() == customer0.spec_balance(),
        customer1.spec_name() == customer0.spec_name(),
        customer1.spec_surname() == customer0.spec_surname(),
        product1.spec_stock_quantity() == product0.spec_stock_quantity(),
        product1.spec_name() == product0.spec_name(),
        product1.spec_price() == product0.spec_price(),
{
}

/// Law: buying exactly the whole stock succeeds whenever the balance covers
/// the cost, and exhausts the stock to zero.
pub proof fn lemma_exact_stock_exhaustion(
    customer0: Customer,
    product0: Product,
    customer1: Customer,
    product1: Product,
    success: bool,
)
    requires
        customer0.spec_balance() >= total_cost(product0.spec_price(), product0.spec_stock_quantity()),
        purchase_post(
            customer0,
            product0,
            product0.spec_stock_quantity(),
            customer1,
            product1,
            success,
        ),
    ensures
        success,
        product1.spec_stock_quantity() == 0,
{
}

} // verus!
