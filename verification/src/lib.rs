//! A small market-transaction library.
//!
//! Two record types — a customer with a cash balance and a product with a
//! unit price and a stock count — and one guarded, all-or-nothing purchase
//! operation that checks and mutates both. A catalog holds an ordered
//! collection of products and offers the same purchase keyed by a 1-based
//! product number, and a selection type describes the requests an
//! interactive driver can make of the library.
//!
//! All amounts of money are whole numbers of cents (fixed-point with two
//! decimal places), so balances and costs are exact integers.

pub mod catalog;
pub mod menu;
pub mod records;
