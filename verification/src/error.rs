//! The registry's error taxonomy.
//!
//! Every command and query fails with exactly one of these variants; the
//! handlers' contracts state which variant comes on which input. All errors
//! are terminal: the caller must change its input or authorization and
//! resubmit.

use vstd::prelude::*;

verus! {

/// Errors returned by the registry's commands and queries.
#[derive(Debug, PartialEq, Eq)]
pub enum ContractError {
    /// The caller lacks admin or delegated-owner rights for the operation.
    Unauthorized {},
    /// The attached or notified payment does not equal the configured amount
    /// (also reported for a configured payment amount of zero).
    IncorrectPaymentAmount {},
    /// The query target or unregister target does not exist.
    NotFound {},
    /// The code id is already registered on the given chain.
    CodeIDAlreadyRegistered(u64, String),
    /// The version is already registered for the given name and chain.
    VersionAlreadyRegistered(String, String, String),
    /// A configured fungible-token address failed the token-info probe.
    InvalidCw20 {},
    /// A token notification came from a token other than the configured one.
    UnrecognizedCw20 {},
    /// An attached native coin's denom does not match the configured denom.
    UnrecognizedNativeToken {},
    /// The payment path used does not fit the configured payment policy.
    InvalidPayment {},
    /// A malformed address was supplied in a message payload.
    InvalidAddress {},
}

} // verus!
