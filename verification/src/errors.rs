use vstd::prelude::*;

verus! {

/// Every way an operation on the payment ledger can fail.
///
/// Ledger operations are synchronous and report exactly one error; the
/// ledger's own state is never mutated by a failing call.
#[derive(Clone, Copy, Debug, PartialEq, Eq, Structural)]
pub enum Error {
    /// `initialize` was called on a ledger whose protocol address is already set.
    AlreadyInitialized,
    /// A distribution was requested before `initialize` set the protocol address.
    ProtocolNotConfigured,
    /// The given payment id does not refer to any stored record.
    PaymentNotFound,
    /// The host could not prove the call was authorized by the claimed account.
    NotAuthorized,
    /// The value-transfer service failed to move funds.
    TransferFailed,
    /// A fee computation would leave the signed 128-bit range.
    ArithmeticOverflow,
    /// A negative gross amount was supplied.
    InvalidAmount,
}

} // verus!
