//! Why a call is refused.
use vstd::prelude::*;

verus! {

/// The caller may not make the call.
#[derive(Debug, Clone, Copy, PartialEq, Eq, Structural)]
pub enum AuthorizationError {
    /// The authorization deposit of one yoctoNEAR is not attached.
    MissingAuthorizationDeposit,
    /// The signer is not the store owner.
    NotOwner,
    /// The predecessor is not the escrow contract.
    NotEscrow,
}

/// The call's inputs or the store's state do not allow it.
#[derive(Debug, Clone, Copy, PartialEq, Eq, Structural)]
pub enum PreconditionError {
    ProductNotFound,
    InsufficientPayment,
    InsufficientStock,
    QuantityMismatch,
    ArithmeticOverflow,
    ZeroPrice,
    InsufficientDeposit,
    AlreadyDeployed,
    DeploymentPending,
    InvalidSubaccount,
}

/// A refused call. A refused call changes nothing.
#[derive(Debug, Clone, Copy, PartialEq, Eq, Structural)]
pub enum StoreError {
    Authorization(AuthorizationError),
    Precondition(PreconditionError),
}

} // verus!
