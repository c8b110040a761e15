//! A name/version registry for deployed code artifacts.
//!
//! The registry maps a package name plus a target chain identifier to a
//! sequence of immutable registrations, each carrying a numeric code id, a
//! version string, a checksum, and the address that registered it.
//! Registration can be monetized (native or fungible-token payment routed to
//! an administrator), and per-name ownership can be delegated so a maintainer
//! other than the global admin may publish new versions.
//!
//! The heart of the crate is the registry state machine: [`state::Registry`]
//! with its invariants, and the command and query handlers in [`contract`].
//! Every handler states exactly when it succeeds, which error it returns
//! otherwise, and how the state changes. The laws in [`laws`] prove the
//! registry-wide properties (uniqueness of live code ids and versions,
//! re-registration after removal, latest-version tracking, round trips).
//!
//! The host that embeds the registry (a ledger runtime, or the thin driver in
//! the companion application) performs storage, message decoding, and
//! cross-contract probes; it hands the handlers plain values and receives
//! plain values and requested transfers back.

pub mod addr;
pub mod contract;
pub mod cpm;
pub mod error;
pub mod laws;
pub mod msg;
pub mod state;
