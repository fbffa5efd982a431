//! What a call asks the host to do once it has been accepted: token
//! transfers to make and events to publish.

use vstd::prelude::*;

use crate::address::Address;
use crate::types::ProposalType;

verus! {

/// An event that an accepted call publishes.
#[derive(Clone, Debug, PartialEq, Eq)]
pub enum Event {
    BoardInitialized { members: Vec<Address>, threshold: u32, timestamp: u64 },
    ProposalCreated {
        proposal_id: u64,
        proposer: Address,
        proposal_type: ProposalType,
        expires_at: u64,
    },
    ProposalSigned { proposal_id: u64, signer: Address, signatures_count: u32, threshold: u32 },
    QuorumReached { proposal_id: u64, signatures_count: u32, threshold: u32, timestamp: u64 },
    /// The executor is always the contract itself.
    ProposalExecuted { proposal_id: u64, proposal_type: ProposalType, timestamp: u64 },
    ProposalCancelled { proposal_id: u64, canceller: Address, timestamp: u64 },
    ProposalExpired { proposal_id: u64, timestamp: u64 },
    MemberAdded { new_member: Address, members_count: u32, timestamp: u64 },
    MemberRemoved { member: Address, members_count: u32, timestamp: u64 },
    ThresholdUpdated { old_threshold: u32, new_threshold: u32, timestamp: u64 },
    BoardUpdated { members_count: u32, threshold: u32, timestamp: u64 },
    WithdrawalRequested { proposal_id: u64, recipient: Address, amount: i128, timestamp: u64 },
    DepositReceived { from: Address, amount: i128, asset: Address, timestamp: u64 },
}

/// A token transfer between the contract's treasury and another address.
#[derive(Clone, Copy, Debug, PartialEq, Eq)]
pub enum Transfer {
    /// `amount` of `asset` from the contract to `to`.
    Payout { asset: Address, to: Address, amount: i128 },
    /// `amount` of `asset` from `from` to the contract.
    Deposit { asset: Address, from: Address, amount: i128 },
}

/// One thing the host must do for an accepted call.
#[derive(Clone, Debug, PartialEq, Eq)]
pub enum Action {
    /// Make a token transfer.
    Transfer(Transfer),
    /// Publish an event.
    Publish(Event),
}

/// What the host must do for an accepted call, in the order it must do it.
#[derive(Clone, Debug, PartialEq, Eq)]
pub struct Effects {
    pub actions: Vec<Action>,
}

/// The view of an `Event`.
pub enum EventView {
    BoardInitialized { members: Seq<Address>, threshold: u32, timestamp: u64 },
    ProposalCreated {
        proposal_id: u64,
        proposer: Address,
        proposal_type: ProposalType,
        expires_at: u64,
    },
    ProposalSigned { proposal_id: u64, signer: Address, signatures_count: u32, threshold: u32 },
    QuorumReached { proposal_id: u64, signatures_count: u32, threshold: u32, timestamp: u64 },
    ProposalExecuted { proposal_id: u64, proposal_type: ProposalType, timestamp: u64 },
    ProposalCancelled { proposal_id: u64, canceller: Address, timestamp: u64 },
    ProposalExpired { proposal_id: u64, timestamp: u64 },
    MemberAdded { new_member: Address, members_count: u32, timestamp: u64 },
    MemberRemoved { member: Address, members_count: u32, timestamp: u64 },
    ThresholdUpdated { old_threshold: u32, new_threshold: u32, timestamp: u64 },
    BoardUpdated { members_count: u32, threshold: u32, timestamp: u64 },
    WithdrawalRequested { proposal_id: u64, recipient: Address, amount: i128, timestamp: u64 },
    DepositReceived { from: Address, amount: i128, asset: Address, timestamp: u64 },
}

/// The view of an `Action`.
pub enum ActionView {
    Transfer(Transfer),
    Publish(EventView),
}

/// The view of `Effects`.
pub struct EffectsView {
    pub actions: Seq<ActionView>,
}

impl View for Event {
    type V = EventView;

    open spec fn view(&self) -> EventView {
        match self {
            Event::BoardInitialized { members, threshold, timestamp } => EventView::BoardInitialized {
                members: members@,
                threshold: *threshold,
                timestamp: *timestamp,
            },
            Event::ProposalCreated { proposal_id, proposer, proposal_type, expires_at } =>
                EventView::ProposalCreated {
                proposal_id: *proposal_id,
                proposer: *proposer,
                proposal_type: *proposal_type,
                expires_at: *expires_at,
            },
            Event::ProposalSigned { proposal_id, signer, signatures_count, threshold } =>
                EventView::ProposalSigned {
                proposal_id: *proposal_id,
                signer: *signer,
                signatures_count: *signatures_count,
                threshold: *threshold,
            },
            Event::QuorumReached { proposal_id, signatures_count, threshold, timestamp } =>
                EventView::QuorumReached {
                proposal_id: *proposal_id,
                signatures_count: *signatures_count,
                threshold: *threshold,
                timestamp: *timestamp,
            },
            Event::ProposalExecuted { proposal_id, proposal_type, timestamp } =>
                EventView::ProposalExecuted {
                proposal_id: *proposal_id,
                proposal_type: *proposal_type,
                timestamp: *timestamp,
            },
            Event::ProposalCancelled { proposal_id, canceller, timestamp } =>
                EventView::ProposalCancelled {
                proposal_id: *proposal_id,
                canceller: *canceller,
                timestamp: *timestamp,
            },
            Event::ProposalExpired { proposal_id, timestamp } => EventView::ProposalExpired {
                proposal_id: *proposal_id,
                timestamp: *timestamp,
            },
            Event::MemberAdded { new_member, members_count, timestamp } => EventView::MemberAdded {
                new_member: *new_member,
                members_count: *members_count,
                timestamp: *timestamp,
            },
            Event::MemberRemoved { member, members_count, timestamp } => EventView::MemberRemoved {
                member: *member,
                members_count: *members_count,
                timestamp: *timestamp,
            },
            Event::ThresholdUpdated { old_threshold, new_threshold, timestamp } =>
                EventView::ThresholdUpdated {
                old_threshold: *old_threshold,
                new_threshold: *new_threshold,
                timestamp: *timestamp,
            },
            Event::BoardUpdated { members_count, threshold, timestamp } => EventView::BoardUpdated {
                members_count: *members_count,
                threshold: *threshold,
                timestamp: *timestamp,
            },
            Event::WithdrawalRequested { proposal_id, recipient, amount, timestamp } =>
                EventView::WithdrawalRequested {
                proposal_id: *proposal_id,
                recipient: *recipient,
                amount: *amount,
                timestamp: *timestamp,
            },
            Event::DepositReceived { from, amount, asset, timestamp } => EventView::DepositReceived {
                from: *from,
                amount: *amount,
                asset: *asset,
                timestamp: *timestamp,
            },
        }
    }
}

impl View for Action {
    type V = ActionView;

    open spec fn view(&self) -> ActionView {
        match self {
            Action::Transfer(t) => ActionView::Transfer(*t),
            Action::Publish(e) => ActionView::Publish(e@),
        }
    }
}

impl View for Effects {
    type V = EffectsView;

    open spec fn view(&self) -> EffectsView {
        EffectsView { actions: self.actions@.map_values(|a: Action| a@) }
    }
}

} // verus!
