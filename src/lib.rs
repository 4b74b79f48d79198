//! A royalty-splitting transfer hook: on every transfer of an asset it diverts a
//! fixed share of the amount to a royalty recipient and forwards the rest.
//!
//! The library holds the hook's decisions: the royalty split, the decoding and
//! routing of the raw calls that the token program makes, the checks on the
//! accounts of each call, and the provisioning of the extra-accounts record.
//! The host program performs the transfers and account creation that these
//! decisions ask for.

pub mod royalty;
pub mod address;
pub mod dispatch;
pub mod error;
pub mod pda;
pub mod hook;
pub mod provision;
