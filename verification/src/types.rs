//! The contract's data: board, proposals, payloads, statistics, and their
//! mathematical views.

use vstd::prelude::*;

use crate::address::Address;

verus! {

/// Largest number of members a board may have.
pub const MAX_MEMBERS: usize = 20;

/// Largest length, in bytes, of a proposal's description.
pub const MAX_DESCRIPTION_LEN: usize = 256;

/// Time to live of a proposal when its creator gives none: 7 days.
pub const DEFAULT_TTL_SECS: u64 = 7 * 24 * 60 * 60;

/// Longest time to live a proposal may be given: 30 days.
pub const MAX_TTL_SECS: u64 = 30 * 24 * 60 * 60;

/// The keys under which the contract's state is stored.
#[derive(Clone, Copy, Debug, PartialEq, Eq, Structural)]
pub enum DataKey {
    Board,
    Admin,
    Proposal(u64),
    Count,
}

/// What a proposal is about.
#[derive(Clone, Copy, Debug, PartialEq, Eq, Structural)]
pub enum ProposalType {
    ResolveIssue,
    TransferFunds,
    AddMember,
    RemoveMember,
    UpdateThreshold,
}

/// Where a proposal stands. Every status but `Pending` is final.
#[derive(Clone, Copy, Debug, PartialEq, Eq, Structural)]
pub enum ProposalStatus {
    Pending,
    Executed,
    Expired,
    Cancelled,
}

/// Pay a contributor for resolving a tracked issue.
#[derive(Clone, Copy, Debug, PartialEq, Eq)]
pub struct ResolveIssuePayload {
    pub issue_number: u64,
    pub contributor: Address,
    pub amount: i128,
    pub asset: Address,
}

/// A general transfer out of the treasury, with a note.
#[derive(Clone, Debug, PartialEq, Eq)]
pub struct TransferFundsPayload {
    pub recipient: Address,
    pub amount: i128,
    pub asset: Address,
    pub memo: Vec<u8>,
}

/// Add an address to the board.
#[derive(Clone, Copy, Debug, PartialEq, Eq)]
pub struct AddMemberPayload {
    pub new_member: Address,
}

/// Remove an address from the board.
#[derive(Clone, Copy, Debug, PartialEq, Eq)]
pub struct RemoveMemberPayload {
    pub member: Address,
}

/// Change the number of signatures a proposal needs.
#[derive(Clone, Copy, Debug, PartialEq, Eq, Structural)]
pub struct UpdateThresholdPayload {
    pub new_threshold: u32,
}

/// The action a proposal carries out once it is executed.
#[derive(Clone, Debug, PartialEq, Eq)]
pub enum ProposalPayload {
    ResolveIssue(ResolveIssuePayload),
    TransferFunds(TransferFundsPayload),
    AddMember(AddMemberPayload),
    RemoveMember(RemoveMemberPayload),
    UpdateThreshold(UpdateThresholdPayload),
}

/// The board: its members and the number of signatures a proposal needs.
#[derive(Clone, Debug, PartialEq, Eq)]
pub struct BoardConfig {
    pub members: Vec<Address>,
    pub threshold: u32,
    pub created_at: u64,
}

/// A proposal and the signatures it has collected.
#[derive(Clone, Debug, PartialEq, Eq)]
pub struct Proposal {
    pub proposal_id: u64,
    pub proposer: Address,
    pub proposal_type: ProposalType,
    pub payload: ProposalPayload,
    pub signatures: Vec<Address>,
    pub status: ProposalStatus,
    pub created_at: u64,
    pub expires_at: u64,
    pub executed_at: Option<u64>,
    /// Timestamp when the proposal was cancelled, if it was.
    pub cancelled_at: Option<u64>,
    /// What the proposal means to do, at most `MAX_DESCRIPTION_LEN` bytes.
    pub description: Vec<u8>,
}

/// Counts over all proposals ever created.
#[derive(Clone, Copy, Debug, PartialEq, Eq, Structural)]
pub struct Stats {
    pub total_proposals: u64,
    pub executed: u64,
    pub pending: u64,
    pub cancelled: u64,
    pub expired: u64,
    pub total_signatures: u64,
}

/// The view of a `TransferFundsPayload`.
pub struct TransferFundsView {
    pub recipient: Address,
    pub amount: i128,
    pub asset: Address,
    pub memo: Seq<u8>,
}

/// The view of a `ProposalPayload`.
pub enum PayloadView {
    ResolveIssue(ResolveIssuePayload),
    TransferFunds(TransferFundsView),
    AddMember(AddMemberPayload),
    RemoveMember(RemoveMemberPayload),
    UpdateThreshold(UpdateThresholdPayload),
}

/// The view of a `BoardConfig`.
pub struct BoardView {
    pub members: Seq<Address>,
    pub threshold: u32,
    pub created_at: u64,
}

/// The view of a `Proposal`.
pub struct ProposalView {
    pub proposal_id: u64,
    pub proposer: Address,
    pub proposal_type: ProposalType,
    pub payload: PayloadView,
    pub signatures: Seq<Address>,
    pub status: ProposalStatus,
    pub created_at: u64,
    pub expires_at: u64,
    pub executed_at: Option<u64>,
    pub cancelled_at: Option<u64>,
    pub description: Seq<u8>,
}

impl View for TransferFundsPayload {
    type V = TransferFundsView;

    open spec fn view(&self) -> TransferFundsView {
        TransferFundsView {
            recipient: self.recipient,
            amount: self.amount,
            asset: self.asset,
            memo: self.memo@,
        }
    }
}

impl View for ProposalPayload {
    type V = PayloadView;

    open spec fn view(&self) -> PayloadView {
        match self {
            ProposalPayload::ResolveIssue(p) => PayloadView::ResolveIssue(*p),
            ProposalPayload::TransferFunds(p) => PayloadView::TransferFunds(p@),
            ProposalPayload::AddMember(p) => PayloadView::AddMember(*p),
            ProposalPayload::RemoveMember(p) => PayloadView::RemoveMember(*p),
            ProposalPayload::UpdateThreshold(p) => PayloadView::UpdateThreshold(*p),
        }
    }
}

impl View for BoardConfig {
    type V = BoardView;

    open spec fn view(&self) -> BoardView {
        BoardView { members: self.members@, threshold: self.threshold, created_at: self.created_at }
    }
}

impl View for Proposal {
    type V = ProposalView;

    open spec fn view(&self) -> ProposalView {
        ProposalView {
            proposal_id: self.proposal_id,
            proposer: self.proposer,
            proposal_type: self.proposal_type,
            payload: self.payload@,
            signatures: self.signatures@,
            status: self.status,
            created_at: self.created_at,
            expires_at: self.expires_at,
            executed_at: self.executed_at,
            cancelled_at: self.cancelled_at,
            description: self.description@,
        }
    }
}

} // verus!
