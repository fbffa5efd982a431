//! The contract as a mathematical state machine: its state, its invariant,
//! and what each call does to the state.

use vstd::prelude::*;

use crate::address::Address;
use crate::error::Error;
use crate::events::{ActionView, EffectsView, EventView, Transfer};
use crate::types::{
    BoardView, PayloadView, ProposalStatus, ProposalType, ProposalView, Stats, DEFAULT_TTL_SECS,
    MAX_DESCRIPTION_LEN, MAX_MEMBERS, MAX_TTL_SECS,
};

verus! {

/// The state of the contract: the board, the admin, and every proposal ever
/// created, proposal `i + 1` at index `i`.
pub struct ForgeView {
    pub board: Option<BoardView>,
    pub admin: Option<Address>,
    pub proposals: Seq<ProposalView>,
}

/// What an accepted call leaves behind: the new state and its effects.
pub type Accepted = (ForgeView, EffectsView);

/// The action of publishing an event.
pub open spec fn publish(e: EventView) -> ActionView {
    ActionView::Publish(e)
}

/// Publishing a single event and nothing else.
pub open spec fn only_event(e: EventView) -> EffectsView {
    EffectsView { actions: seq![publish(e)] }
}

/// The status of a proposal agrees with its timestamps.
pub open spec fn status_consistent(p: ProposalView) -> bool {
    match p.status {
        ProposalStatus::Pending => p.executed_at is None && p.cancelled_at is None,
        ProposalStatus::Executed => p.executed_at is Some && p.cancelled_at is None,
        ProposalStatus::Cancelled => p.executed_at is None && p.cancelled_at is Some,
        ProposalStatus::Expired => p.executed_at is None && p.cancelled_at is None,
    }
}

/// What holds of the proposal stored at index `i`.
pub open spec fn proposal_wf(p: ProposalView, i: int) -> bool {
    &&& p.proposal_id == i + 1
    &&& p.signatures.no_duplicates()
    &&& p.signatures.len() <= u32::MAX
    &&& p.description.len() <= MAX_DESCRIPTION_LEN
    &&& p.created_at <= p.expires_at
    &&& status_consistent(p)
}

/// The invariant of every state the contract can reach.
pub open spec fn inv(m: ForgeView) -> bool {
    &&& (m.board is None <==> m.admin is None)
    &&& (m.board is None ==> m.proposals.len() == 0)
    &&& (m.board matches Some(b) ==> 1 <= b.threshold && b.members.len() <= MAX_MEMBERS)
    &&& forall|i: int| 0 <= i < m.proposals.len() ==> #[trigger] proposal_wf(m.proposals[i], i)
}

/// The proposal with the given id, if there is one.
pub open spec fn lookup(m: ForgeView, id: u64) -> Option<ProposalView> {
    if 1 <= id <= m.proposals.len() {
        Some(m.proposals[id - 1])
    } else {
        None
    }
}

/// The state with the proposal of the given id replaced.
pub open spec fn with_proposal(m: ForgeView, id: u64, p: ProposalView) -> ForgeView {
    ForgeView { proposals: m.proposals.update(id - 1, p), ..m }
}

/// The members of a board without any occurrence of `a`.
pub open spec fn without(members: Seq<Address>, a: Address) -> Seq<Address> {
    members.filter(|x: Address| x != a)
}

// ── initialize ──────────────────────────────────────────────────────────────

/// One-time setup of the board and admin.
pub open spec fn initialize_step(
    m: ForgeView,
    admin: Address,
    members: Seq<Address>,
    threshold: u32,
    now: u64,
) -> Result<Accepted, Error> {
    if m.board is Some {
        Err(Error::AlreadyInitialized)
    } else if members.len() == 0 {
        Err(Error::MembersEmpty)
    } else if members.len() > MAX_MEMBERS {
        Err(Error::TooManyMembers)
    } else if threshold > members.len() || threshold == 0 {
        Err(Error::InvalidThreshold)
    } else {
        Ok((
            ForgeView {
                board: Some(BoardView { members, threshold, created_at: now }),
                admin: Some(admin),
                proposals: m.proposals,
            },
            only_event(EventView::BoardInitialized { members, threshold, timestamp: now }),
        ))
    }
}

// ── create_proposal ─────────────────────────────────────────────────────────

/// The time to live a proposal gets.
pub open spec fn effective_ttl(ttl_seconds: Option<u64>) -> u64 {
    match ttl_seconds {
        Some(t) => t,
        None => DEFAULT_TTL_SECS,
    }
}

/// A member opens a proposal; it gets the next id.
pub open spec fn create_step(
    m: ForgeView,
    proposer: Address,
    proposal_type: ProposalType,
    payload: PayloadView,
    description: Seq<u8>,
    ttl_seconds: Option<u64>,
    now: u64,
) -> Result<Accepted, Error> {
    let ttl = effective_ttl(ttl_seconds);
    match m.board {
        None => Err(Error::NotInitialized),
        Some(b) => if !b.members.contains(proposer) {
            Err(Error::NotMember)
        } else if ttl > MAX_TTL_SECS {
            Err(Error::TtlTooLong)
        } else if description.len() > MAX_DESCRIPTION_LEN {
            Err(Error::DescriptionTooLong)
        } else if now + ttl > u64::MAX {
            Err(Error::ExpiryOverflow)
        } else if m.proposals.len() >= u64::MAX {
            Err(Error::CountOverflow)
        } else {
            let id = (m.proposals.len() + 1) as u64;
            let expires_at = (now + ttl) as u64;
            let p = ProposalView {
                proposal_id: id,
                proposer,
                proposal_type,
                payload,
                signatures: Seq::empty(),
                status: ProposalStatus::Pending,
                created_at: now,
                expires_at,
                executed_at: None,
                cancelled_at: None,
                description,
            };
            Ok((
                ForgeView { proposals: m.proposals.push(p), ..m },
                only_event(
                    EventView::ProposalCreated { proposal_id: id, proposer, proposal_type, expires_at },
                ),
            ))
        },
    }
}

// ── execution ───────────────────────────────────────────────────────────────

/// Why the payload cannot be carried out on this board, if it cannot.
pub open spec fn execution_error(b: BoardView, payload: PayloadView) -> Option<Error> {
    match payload {
        PayloadView::AddMember(p) => if b.members.contains(p.new_member) {
            Some(Error::MemberAlreadyExists)
        } else if b.members.len() >= MAX_MEMBERS {
            Some(Error::BoardFull)
        } else {
            None
        },
        PayloadView::UpdateThreshold(p) => if p.new_threshold > b.members.len()
            || p.new_threshold == 0 {
            Some(Error::InvalidThreshold)
        } else {
            None
        },
        _ => None,
    }
}

/// The board after the payload is carried out.
pub open spec fn board_after(b: BoardView, payload: PayloadView) -> BoardView {
    match payload {
        PayloadView::AddMember(p) => BoardView { members: b.members.push(p.new_member), ..b },
        PayloadView::RemoveMember(p) => BoardView { members: without(b.members, p.member), ..b },
        PayloadView::UpdateThreshold(p) => BoardView { threshold: p.new_threshold, ..b },
        _ => b,
    }
}

/// What carrying out the payload of proposal `id` on board `b` asks of the
/// host, in order: the token transfer it pays, and the events it publishes.
pub open spec fn payload_actions(id: u64, b: BoardView, payload: PayloadView, now: u64) -> Seq<
    ActionView,
> {
    let after = board_after(b, payload);
    let count = after.members.len() as u32;
    match payload {
        PayloadView::ResolveIssue(p) => seq![
            ActionView::Transfer(
                Transfer::Payout { asset: p.asset, to: p.contributor, amount: p.amount },
            ),
        ],
        PayloadView::TransferFunds(p) => seq![
            ActionView::Transfer(Transfer::Payout { asset: p.asset, to: p.recipient, amount: p.amount }),
            publish(
                EventView::WithdrawalRequested {
                    proposal_id: id,
                    recipient: p.recipient,
                    amount: p.amount,
                    timestamp: now,
                },
            ),
        ],
        PayloadView::AddMember(p) => seq![
            publish(
                EventView::MemberAdded { new_member: p.new_member, members_count: count, timestamp: now },
            ),
            publish(
                EventView::BoardUpdated { members_count: count, threshold: b.threshold, timestamp: now },
            ),
        ],
        PayloadView::RemoveMember(p) => seq![
            publish(EventView::MemberRemoved { member: p.member, members_count: count, timestamp: now }),
            publish(
                EventView::BoardUpdated { members_count: count, threshold: b.threshold, timestamp: now },
            ),
        ],
        PayloadView::UpdateThreshold(p) => seq![
            publish(
                EventView::ThresholdUpdated {
                    old_threshold: b.threshold,
                    new_threshold: p.new_threshold,
                    timestamp: now,
                },
            ),
            publish(
                EventView::BoardUpdated {
                    members_count: count,
                    threshold: p.new_threshold,
                    timestamp: now,
                },
            ),
        ],
    }
}

/// The proposal once executed.
pub open spec fn executed(p: ProposalView, now: u64) -> ProposalView {
    ProposalView { status: ProposalStatus::Executed, executed_at: Some(now), ..p }
}

/// Carries out proposal `id` (whose current form is `p`) on board `b`.
pub open spec fn execute(m: ForgeView, b: BoardView, id: u64, p: ProposalView, now: u64) -> Result<
    Accepted,
    Error,
> {
    match execution_error(b, p.payload) {
        Some(e) => Err(e),
        None => Ok((
            ForgeView {
                board: Some(board_after(b, p.payload)),
                proposals: m.proposals.update(id - 1, executed(p, now)),
                ..m
            },
            EffectsView {
                actions: payload_actions(id, b, p.payload, now).push(
                    publish(
                        EventView::ProposalExecuted {
                            proposal_id: id,
                            proposal_type: p.proposal_type,
                            timestamp: now,
                        },
                    ),
                ),
            },
        )),
    }
}

// ── sign_proposal ───────────────────────────────────────────────────────────

/// A member signs a pending proposal; once the signatures reach the
/// threshold the proposal is executed in the same call.
pub open spec fn sign_step(m: ForgeView, signer: Address, id: u64, now: u64) -> Result<
    Accepted,
    Error,
> {
    match m.board {
        None => Err(Error::NotInitialized),
        Some(b) => if !b.members.contains(signer) {
            Err(Error::NotMember)
        } else {
            match lookup(m, id) {
                None => Err(Error::ProposalNotFound),
                Some(p) => if p.status != ProposalStatus::Pending {
                    Err(Error::NotPending)
                } else if now > p.expires_at {
                    Err(Error::ProposalExpired)
                } else if p.signatures.contains(signer) {
                    Err(Error::AlreadySigned)
                } else if p.signatures.len() >= u32::MAX {
                    Err(Error::TooManySignatures)
                } else {
                    let signed = ProposalView { signatures: p.signatures.push(signer), ..p };
                    let count = signed.signatures.len() as u32;
                    let ev = EventView::ProposalSigned {
                        proposal_id: id,
                        signer,
                        signatures_count: count,
                        threshold: b.threshold,
                    };
                    if count >= b.threshold {
                        match execute(m, b, id, signed, now) {
                            Err(e) => Err(e),
                            Ok((m2, eff)) => Ok((
                                m2,
                                EffectsView {
                                    actions: seq![
                                        publish(ev),
                                        publish(
                                            EventView::QuorumReached {
                                                proposal_id: id,
                                                signatures_count: count,
                                                threshold: b.threshold,
                                                timestamp: now,
                                            },
                                        ),
                                    ] + eff.actions,
                                },
                            )),
                        }
                    } else {
                        Ok((with_proposal(m, id, signed), only_event(ev)))
                    }
                },
            }
        },
    }
}

// ── execute_proposal ────────────────────────────────────────────────────────

/// Anyone executes a pending proposal whose signatures reach the threshold.
pub open spec fn execute_step(m: ForgeView, id: u64, now: u64) -> Result<Accepted, Error> {
    match m.board {
        None => Err(Error::NotInitialized),
        Some(b) => match lookup(m, id) {
            None => Err(Error::ProposalNotFound),
            Some(p) => if p.status != ProposalStatus::Pending {
                Err(Error::NotPending)
            } else if p.signatures.len() < b.threshold {
                Err(Error::ThresholdNotMet)
            } else {
                execute(m, b, id, p, now)
            },
        },
    }
}

// ── cancel_proposal ─────────────────────────────────────────────────────────

/// The proposer or the admin cancels a pending proposal.
pub open spec fn cancel_step(m: ForgeView, id: u64, canceller: Address, now: u64) -> Result<
    Accepted,
    Error,
> {
    match m.admin {
        None => Err(Error::NotInitialized),
        Some(admin) => match lookup(m, id) {
            None => Err(Error::ProposalNotFound),
            Some(p) => if canceller != p.proposer && canceller != admin {
                Err(Error::Unauthorized)
            } else if p.status != ProposalStatus::Pending {
                Err(Error::NotPending)
            } else {
                Ok((
                    with_proposal(
                        m,
                        id,
                        ProposalView {
                            status: ProposalStatus::Cancelled,
                            cancelled_at: Some(now),
                            ..p
                        },
                    ),
                    only_event(
                        EventView::ProposalCancelled { proposal_id: id, canceller, timestamp: now },
                    ),
                ))
            },
        },
    }
}

// ── expire_proposal ─────────────────────────────────────────────────────────

/// Anyone marks a pending proposal whose time to live has passed as expired.
pub open spec fn expire_step(m: ForgeView, id: u64, now: u64) -> Result<Accepted, Error> {
    match lookup(m, id) {
        None => Err(Error::ProposalNotFound),
        Some(p) => if p.status != ProposalStatus::Pending {
            Err(Error::NotPending)
        } else if now <= p.expires_at {
            Err(Error::NotYetExpired)
        } else {
            Ok((
                with_proposal(m, id, ProposalView { status: ProposalStatus::Expired, ..p }),
                only_event(EventView::ProposalExpired { proposal_id: id, timestamp: now }),
            ))
        },
    }
}

// ── any call ────────────────────────────────────────────────────────────

/// A call that changes the contract's state.
pub enum Call {
    Initialize { admin: Address, members: Seq<Address>, threshold: u32 },
    CreateProposal {
        proposer: Address,
        proposal_type: ProposalType,
        payload: PayloadView,
        description: Seq<u8>,
        ttl_seconds: Option<u64>,
    },
    SignProposal { signer: Address, proposal_id: u64 },
    ExecuteProposal { proposal_id: u64 },
    CancelProposal { proposal_id: u64, canceller: Address },
    ExpireProposal { proposal_id: u64 },
}

/// What a call made at time `now` does to the state.
pub open spec fn step(m: ForgeView, c: Call, now: u64) -> Result<Accepted, Error> {
    match c {
        Call::Initialize { admin, members, threshold } => initialize_step(
            m,
            admin,
            members,
            threshold,
            now,
        ),
        Call::CreateProposal { proposer, proposal_type, payload, description, ttl_seconds } =>
            create_step(m, proposer, proposal_type, payload, description, ttl_seconds, now),
        Call::SignProposal { signer, proposal_id } => sign_step(m, signer, proposal_id, now),
        Call::ExecuteProposal { proposal_id } => execute_step(m, proposal_id, now),
        Call::CancelProposal { proposal_id, canceller } => cancel_step(
            m,
            proposal_id,
            canceller,
            now,
        ),
        Call::ExpireProposal { proposal_id } => expire_step(m, proposal_id, now),
    }
}

/// The state of a contract that has just been deployed.
pub open spec fn initial() -> ForgeView {
    ForgeView { board: None, admin: None, proposals: Seq::empty() }
}

/// The state after the calls, each made at its time, one after another;
/// `None` when one of them is refused.
pub open spec fn run(m: ForgeView, calls: Seq<(Call, u64)>) -> Option<ForgeView>
    decreases calls.len(),
{
    if calls.len() == 0 {
        Some(m)
    } else {
        match run(m, calls.drop_last()) {
            None => None,
            Some(m1) => match step(m1, calls.last().0, calls.last().1) {
                Ok((m2, _)) => Some(m2),
                Err(_) => None,
            },
        }
    }
}

/// The number of calls that create a proposal.
pub open spec fn creations(calls: Seq<(Call, u64)>) -> nat
    decreases calls.len(),
{
    if calls.len() == 0 {
        0
    } else {
        creations(calls.drop_last()) + if calls.last().0 is CreateProposal {
            1nat
        } else {
            0nat
        }
    }
}

// ── queries ─────────────────────────────────────────────────────────────────

/// Whether `member` proposed or signed the proposal.
pub open spec fn involves(p: ProposalView, member: Address) -> bool {
    p.proposer == member || p.signatures.contains(member)
}

/// The proposals with the given status, in order of id.
pub open spec fn with_status(s: Seq<ProposalView>, status: ProposalStatus) -> Seq<ProposalView> {
    s.filter(|p: ProposalView| p.status == status)
}

/// The proposals that `member` proposed or signed, in order of id.
pub open spec fn involving(s: Seq<ProposalView>, member: Address) -> Seq<ProposalView> {
    s.filter(|p: ProposalView| involves(p, member))
}

/// The number of proposals with the given status.
pub open spec fn status_count(s: Seq<ProposalView>, status: ProposalStatus) -> nat
    decreases s.len(),
{
    if s.len() == 0 {
        0
    } else {
        status_count(s.drop_last(), status) + if s.last().status == status {
            1nat
        } else {
            0nat
        }
    }
}

/// The number of signatures over all proposals.
pub open spec fn signature_total(s: Seq<ProposalView>) -> nat
    decreases s.len(),
{
    if s.len() == 0 {
        0
    } else {
        signature_total(s.drop_last()) + s.last().signatures.len()
    }
}

/// The statistics of a list of proposals.
pub open spec fn stats_of(s: Seq<ProposalView>) -> Stats {
    Stats {
        total_proposals: s.len() as u64,
        executed: status_count(s, ProposalStatus::Executed) as u64,
        pending: status_count(s, ProposalStatus::Pending) as u64,
        cancelled: status_count(s, ProposalStatus::Cancelled) as u64,
        expired: status_count(s, ProposalStatus::Expired) as u64,
        total_signatures: signature_total(s) as u64,
    }
}

} // verus!
