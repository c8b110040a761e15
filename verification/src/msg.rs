//! Command and query payloads, and the values a command hands back.
//!
//! The host decodes inbound documents into these types and hands them to the
//! handlers in [`crate::contract`]; a successful command returns a
//! [`Response`] whose transfers the host is asked to carry out.

use crate::state::{Config, PaymentInfo, Registration};
use vstd::prelude::*;

verus! {

/// An amount of one native coin.
#[derive(Debug, PartialEq, Eq)]
pub struct Coin {
    pub denom: String,
    pub amount: u128,
}

/// Who sent the current command, and the native funds attached to it.
#[derive(Debug, PartialEq, Eq)]
pub struct MessageInfo {
    pub sender: String,
    pub funds: Vec<Coin>,
}

/// Instantiates a fresh registry.
#[derive(Debug, PartialEq, Eq)]
pub struct InstantiateMsg {
    pub admin: String,
    pub payment_info: PaymentInfo,
}

/// The payload a fungible-token contract forwards with a transfer
/// notification: the depositor, the transferred amount, and the embedded
/// registration command.
#[derive(Debug, PartialEq, Eq)]
pub struct ReceiveEnvelope {
    pub sender: String,
    pub amount: u128,
    pub msg: ReceiveMsg,
}

/// Commands accepted inside a fungible-token transfer notification.
#[derive(Debug, PartialEq, Eq)]
pub enum ReceiveMsg {
    /// Register a code id, paid by the notified transfer.
    Register { name: String, version: String, chain_id: String, code_id: u64, checksum: String },
}

/// The registry's commands.
#[derive(Debug, PartialEq, Eq)]
pub enum ExecuteMsg {
    /// A fungible-token transfer notification; the only way to register when
    /// the payment policy is `Cw20Payment`.
    Receive(ReceiveEnvelope),
    /// Register a code id, paid by attached native funds when the payment
    /// policy is `NativePayment`.
    Register { name: String, version: String, chain_id: String, code_id: u64, checksum: String },
    /// Set or clear the delegated owner of a `(name, chain_id)` pair.
    SetOwner { name: String, chain_id: String, owner: Option<String> },
    /// Remove a registration, found by chain id and code id. Admin only.
    Unregister { chain_id: String, code_id: u64 },
    /// Replace the admin and/or the payment policy; an absent field is left
    /// unchanged. Admin only.
    UpdateConfig { admin: Option<String>, payment_info: Option<PaymentInfo> },
}

/// The registry's queries.
#[derive(Debug, PartialEq, Eq)]
pub enum QueryMsg {
    /// The current configuration.
    Config {},
    /// The registration at the given version, or the latest one when no
    /// version is given.
    GetRegistration { name: String, chain_id: String, version: Option<String> },
    /// Who registered a code id, and as what, resolved by the reverse index.
    InfoForCodeId { chain_id: String, code_id: u64 },
    /// All live registrations for a `(name, chain_id)` pair, oldest first.
    ListRegistrations { name: String, chain_id: String },
}

/// Answer to [`QueryMsg::GetRegistration`].
#[derive(Debug, PartialEq, Eq)]
pub struct GetRegistrationResponse {
    pub registration: Registration,
}

/// Answer to [`QueryMsg::InfoForCodeId`].
#[derive(Debug, PartialEq, Eq)]
pub struct InfoForCodeIdResponse {
    pub registered_by: String,
    pub name: String,
    pub version: String,
    pub checksum: String,
}

/// Answer to [`QueryMsg::ListRegistrations`].
#[derive(Debug, PartialEq, Eq)]
pub struct ListRegistrationsResponse {
    pub registrations: Vec<Registration>,
}

/// Answer to [`QueryMsg::Config`].
#[derive(Debug, PartialEq, Eq)]
pub struct ConfigResponse {
    pub config: Config,
}

/// One typed answer per query variant.
#[derive(Debug, PartialEq, Eq)]
pub enum QueryAnswer {
    Config(ConfigResponse),
    GetRegistration(GetRegistrationResponse),
    InfoForCodeId(InfoForCodeIdResponse),
    ListRegistrations(ListRegistrationsResponse),
}

/// A payment the ledger is asked to carry out after a successful command.
/// The registry only requests the two fee transfers to the admin.
#[derive(Debug, PartialEq, Eq)]
pub enum Transfer {
    /// Send `amount` of the native coin `denom` to `to_address`.
    Native { to_address: String, denom: String, amount: u128 },
    /// Ask the fungible-token contract at `token_address` to transfer
    /// `amount` to `to_address`.
    Cw20 { token_address: String, to_address: String, amount: u128 },
}

/// What a successful command hands back: the action it acknowledges and the
/// transfers the ledger should perform.
#[derive(Debug, PartialEq, Eq)]
pub struct Response {
    pub action: String,
    pub transfers: Vec<Transfer>,
}

} // verus!
