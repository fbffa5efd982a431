//! Verified core of QuorumForge, an N-of-M multi-signature governance
//! contract for open-source maintainer boards.
//!
//! Board members open proposals (pay a contributor, transfer treasury funds,
//! add or remove a member, change the threshold), sign them, and a proposal is
//! carried out as soon as its signatures reach the board's threshold. The
//! state of the contract and every call on it live here as plain values; the
//! host (storage, ledger time, authorization, token transfers and events) is
//! left to the caller, which hands the library the current time and carries
//! out the `Effects` that an accepted call returns.

pub mod address;
pub mod error;
pub mod events;
pub mod focus;
pub mod forge;
pub mod laws;
pub mod model;
pub mod types;

pub use address::{Address, AddressKind};
pub use error::Error;
pub use events::{Action, Effects, Event, Transfer};
pub use focus::ProposalFocus;
pub use forge::QuorumForge;
pub use types::{
    AddMemberPayload, BoardConfig, DataKey, Proposal, ProposalPayload, ProposalStatus,
    ProposalType, RemoveMemberPayload, ResolveIssuePayload, Stats, TransferFundsPayload,
    UpdateThresholdPayload, DEFAULT_TTL_SECS, MAX_DESCRIPTION_LEN, MAX_MEMBERS, MAX_TTL_SECS,
};
