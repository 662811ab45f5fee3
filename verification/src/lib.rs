//! An invoice marketplace.
//!
//! Sellers list invoices for financing, and investors contribute until the asking
//! price is reached. A fee on each contribution goes to the treasury, the rest to
//! a financing pool, which releases the funds once the listing is funded in full.
//!
//! [`marketplace`] holds the operations. Each works on an [`env::Env`]: what the
//! invocation sees of the ledger, and the actions that it asks for. [`model`] says
//! what each operation means, and [`history`] what a sequence of them leads to.
//!
//! [`admission`] states when each operation is accepted, [`outcome`] what it leaves
//! stored, [`conduct`] what it does and publishes, and [`laws`] what holds of the
//! whole.

pub mod address;
pub mod admission;
pub mod conduct;
pub mod env;
pub mod errors;
pub mod events;
pub mod history;
pub mod laws;
pub mod marketplace;
pub mod model;
pub mod outcome;
pub mod table;
pub mod types;
pub mod validation;
