//! The errors with which the marketplace refuses a request.

use vstd::prelude::*;

verus! {

/// Why a request was refused.
#[derive(Clone, Copy, Debug, PartialEq, Eq, Structural)]
pub enum KoraError {
    /// The marketplace has been initialized before.
    AlreadyInitialized,
    /// The marketplace has no configuration yet.
    NotInitialized,
    /// The caller is not the administrator.
    NotAdmin,
    /// The caller is neither the seller of the listing nor the administrator.
    Unauthorized,
    /// The protocol is paused.
    ProtocolPaused,
    /// An amount is not positive, or the asking price does not lie below the
    /// face value.
    InvalidAmount,
    /// A fee rate exceeds the whole.
    InvalidFeeBps,
    /// A deadline does not lie in the future.
    InvalidDueDate,
    /// The token is not on the whitelist.
    TokenNotWhitelisted,
    /// The invoice has been listed before.
    InvoiceAlreadyExists,
    /// There is no listing for the invoice.
    ListingNotFound,
    /// The listing is closed: cancelled, or funded in full.
    ListingAlreadyCancelled,
    /// The funding deadline of the listing has passed.
    FundingDeadlinePassed,
    /// The contribution exceeds what the listing still needs.
    ExceedsFundingTarget,
    /// The marketplace was entered again from within a guarded call.
    ReentrantCall,
    /// A result does not fit in 128 bits.
    ArithmeticOverflow,
}

} // verus!
