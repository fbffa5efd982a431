//! The part of the stored state that a call on one proposal reads: the board,
//! the admin, the number of proposals, and that one proposal. A call made on
//! it does to the whole state exactly what the call on the whole state does.

use vstd::prelude::*;

use crate::address::Address;
use crate::error::Error;
use crate::events::{Action, Effects, Event, EventView, Transfer};
use crate::forge::{
    board_view, check_execution, check_proposal, copy_addresses, is_member, remove_all, single,
};
use crate::model::{
    board_after, cancel_step, create_step, executed, execute_step, execution_error, expire_step,
    initialize_step, lookup, payload_actions, proposal_wf, publish, sign_step, Accepted, ForgeView,
};
use crate::types::{
    BoardConfig, BoardView, Proposal, ProposalPayload, ProposalStatus, ProposalType, ProposalView,
    DEFAULT_TTL_SECS, MAX_DESCRIPTION_LEN, MAX_MEMBERS, MAX_TTL_SECS,
};

verus! {

/// The view of a `ProposalFocus`.
pub struct FocusView {
    pub board: Option<BoardView>,
    pub admin: Option<Address>,
    pub count: nat,
    pub id: u64,
    pub proposal: Option<ProposalView>,
}

/// The focus is the part of the whole state `m` that it claims to be.
pub open spec fn fits(m: ForgeView, f: FocusView) -> bool {
    &&& m.board == f.board
    &&& m.admin == f.admin
    &&& m.proposals.len() == f.count
    &&& lookup(m, f.id) == f.proposal
}

/// The whole state `m` with the board, admin and proposal of the focus put
/// back; a proposal one past the last one is appended.
pub open spec fn lift(m: ForgeView, f: FocusView) -> ForgeView {
    ForgeView {
        board: f.board,
        admin: f.admin,
        proposals: match f.proposal {
            Some(p) => if f.id == m.proposals.len() + 1 {
                m.proposals.push(p)
            } else {
                m.proposals.update(f.id - 1, p)
            },
            None => m.proposals,
        },
    }
}

/// What a focus taken from a reachable state satisfies.
pub open spec fn focus_wf(f: FocusView) -> bool {
    &&& (f.board is None <==> f.admin is None)
    &&& (f.board is None ==> f.count == 0)
    &&& (f.board matches Some(b) ==> 1 <= b.threshold && b.members.len() <= MAX_MEMBERS)
    &&& (f.proposal is Some <==> 1 <= f.id <= f.count)
    &&& (f.proposal matches Some(p) ==> proposal_wf(p, f.id - 1))
}

/// What a call's result says of the whole state `m` that the focus was taken
/// from: on success the whole state with the focus put back, and the effects;
/// on refusal the error.
pub open spec fn agrees_on(
    m: ForgeView,
    after: FocusView,
    r: Result<Effects, Error>,
    step: Result<Accepted, Error>,
) -> bool {
    match r {
        Ok(eff) => step == Ok::<Accepted, Error>((lift(m, after), eff@)),
        Err(e) => step == Err::<Accepted, Error>(e),
    }
}

/// The view of an optional proposal.
pub open spec fn proposal_view(p: Option<Proposal>) -> Option<ProposalView> {
    match p {
        Some(p) => Some(p@),
        None => None,
    }
}

/// Carries out a payload that can be carried out on the board: changes the
/// board and gives the host's actions, ending with the execution event.
pub(crate) fn execute_parts(board: &mut BoardConfig, p: &Proposal, now: u64) -> (eff: Effects)
    requires
        execution_error(old(board)@, p@.payload) is None,
        old(board)@.members.len() <= MAX_MEMBERS,
    ensures
        final(board)@ == board_after(old(board)@, p@.payload),
        eff@.actions == payload_actions(p.proposal_id, old(board)@, p@.payload, now).push(
            publish(
                EventView::ProposalExecuted {
                    proposal_id: p.proposal_id,
                    proposal_type: p.proposal_type,
                    timestamp: now,
                },
            ),
        ),
{
    let ghost bv = board@;
    let proposal_id = p.proposal_id;
    let mut actions: Vec<Action> = Vec::new();
    match &p.payload {
        ProposalPayload::ResolveIssue(q) => {
            actions.push(
                Action::Transfer(
                    Transfer::Payout { asset: q.asset, to: q.contributor, amount: q.amount },
                ),
            );
        },
        ProposalPayload::TransferFunds(q) => {
            actions.push(
                Action::Transfer(Transfer::Payout { asset: q.asset, to: q.recipient, amount: q.amount }),
            );
            actions.push(
                Action::Publish(
                    Event::WithdrawalRequested {
                        proposal_id,
                        recipient: q.recipient,
                        amount: q.amount,
                        timestamp: now,
                    },
                ),
            );
        },
        ProposalPayload::AddMember(q) => {
            let new_member = q.new_member;
            board.members.push(new_member);
            let members_count = board.members.len() as u32;
            actions.push(Action::Publish(Event::MemberAdded { new_member, members_count, timestamp: now }));
            actions.push(
                Action::Publish(
                    Event::BoardUpdated { members_count, threshold: board.threshold, timestamp: now },
                ),
            );
        },
        ProposalPayload::RemoveMember(q) => {
            let member = q.member;
            let remaining = remove_all(&board.members, &member);
            proof {
                crate::laws::lemma_without(bv.members, member);
            }
            board.members = remaining;
            let members_count = board.members.len() as u32;
            actions.push(Action::Publish(Event::MemberRemoved { member, members_count, timestamp: now }));
            actions.push(
                Action::Publish(
                    Event::BoardUpdated { members_count, threshold: board.threshold, timestamp: now },
                ),
            );
        },
        ProposalPayload::UpdateThreshold(q) => {
            let old_threshold = board.threshold;
            let new_threshold = q.new_threshold;
            board.threshold = new_threshold;
            let members_count = board.members.len() as u32;
            actions.push(
                Action::Publish(Event::ThresholdUpdated { old_threshold, new_threshold, timestamp: now }),
            );
            actions.push(
                Action::Publish(
                    Event::BoardUpdated { members_count, threshold: new_threshold, timestamp: now },
                ),
            );
        },
    }
    let ghost payload_acts = actions@.map_values(|a: Action| a@);
    actions.push(
        Action::Publish(
            Event::ProposalExecuted { proposal_id, proposal_type: p.proposal_type, timestamp: now },
        ),
    );
    let eff = Effects { actions };
    proof {
        assert(payload_acts =~= payload_actions(proposal_id, bv, p@.payload, now));
        assert(eff@.actions =~= payload_acts.push(
            publish(
                EventView::ProposalExecuted {
                    proposal_id,
                    proposal_type: p.proposal_type,
                    timestamp: now,
                },
            ),
        ));
    }
    eff
}

/// The board, the admin, the number of proposals and the proposal with one id
/// (when it exists), taken out of the stored state.
pub struct ProposalFocus {
    board: Option<BoardConfig>,
    admin: Option<Address>,
    count: u64,
    id: u64,
    proposal: Option<Proposal>,
}

impl View for ProposalFocus {
    type V = FocusView;

    closed spec fn view(&self) -> FocusView {
        FocusView {
            board: board_view(self.board),
            admin: self.admin,
            count: self.count as nat,
            id: self.id,
            proposal: proposal_view(self.proposal),
        }
    }
}

impl ProposalFocus {
    /// The focus is one taken from a reachable state.
    pub open spec fn wf(&self) -> bool {
        focus_wf(self@)
    }

    /// The focus made of the stored board, admin and number of proposals, and
    /// the stored proposal `id` (to be given exactly when `1 <= id <= count`);
    /// `None` when these cannot have been taken from a reachable state.
    pub fn from_parts(
        board: Option<BoardConfig>,
        admin: Option<Address>,
        count: u64,
        id: u64,
        proposal: Option<Proposal>,
    ) -> (r: Option<ProposalFocus>)
        ensures
            r is Some <==> focus_wf(
                FocusView {
                    board: board_view(board),
                    admin,
                    count: count as nat,
                    id,
                    proposal: proposal_view(proposal),
                },
            ),
            r matches Some(f) ==> f@ == (FocusView {
                board: board_view(board),
                admin,
                count: count as nat,
                id,
                proposal: proposal_view(proposal),
            }),
    {
        if board.is_some() != admin.is_some() {
            return None;
        }
        match &board {
            None => {
                if count != 0 {
                    return None;
                }
            },
            Some(b) => {
                if b.threshold == 0 || b.members.len() > MAX_MEMBERS {
                    return None;
                }
            },
        }
        let in_range = 1 <= id && id <= count;
        match &proposal {
            None => {
                if in_range {
                    return None;
                }
            },
            Some(p) => {
                if !in_range || !check_proposal(p, id - 1) {
                    return None;
                }
            },
        }
        Some(ProposalFocus { board, admin, count, id, proposal })
    }

    /// A focus from parts known to be consistent.
    pub(crate) fn assemble(
        board: Option<BoardConfig>,
        admin: Option<Address>,
        count: u64,
        id: u64,
        proposal: Option<Proposal>,
    ) -> (r: ProposalFocus)
        ensures
            r@ == (FocusView {
                board: board_view(board),
                admin,
                count: count as nat,
                id,
                proposal: proposal_view(proposal),
            }),
    {
        ProposalFocus { board, admin, count, id, proposal }
    }

    /// The parts of the focus: board, admin, count, id and proposal.
    pub(crate) fn into_parts(self) -> (r: (
        Option<BoardConfig>,
        Option<Address>,
        u64,
        u64,
        Option<Proposal>,
    ))
        ensures
            board_view(r.0) == self@.board,
            r.1 == self@.admin,
            r.2 == self@.count,
            r.3 == self@.id,
            proposal_view(r.4) == self@.proposal,
    {
        (self.board, self.admin, self.count, self.id, self.proposal)
    }

    /// The board.
    pub fn board(&self) -> (r: Option<&BoardConfig>)
        ensures
            self@.board == match r {
                Some(b) => Some(b@),
                None => None::<BoardView>,
            },
    {
        self.board.as_ref()
    }

    /// The admin.
    pub fn admin(&self) -> (r: Option<Address>)
        ensures
            r == self@.admin,
    {
        self.admin
    }

    /// The number of proposals.
    pub fn count(&self) -> (r: u64)
        ensures
            r == self@.count,
    {
        self.count
    }

    /// The id of the proposal in focus.
    pub fn id(&self) -> (r: u64)
        ensures
            r == self@.id,
    {
        self.id
    }

    /// The proposal in focus, when it exists.
    pub fn proposal(&self) -> (r: Option<&Proposal>)
        ensures
            self@.proposal == match r {
                Some(p) => Some(p@),
                None => None::<ProposalView>,
            },
    {
        self.proposal.as_ref()
    }

    /// Whether `addr` is a board member.
    pub fn is_member(&self, addr: Address) -> (r: Result<bool, Error>)
        ensures
            match r {
                Ok(b) => self@.board matches Some(board) && b == board.members.contains(addr),
                Err(e) => self@.board is None && e == Error::NotInitialized,
            },
    {
        match &self.board {
            Some(b) => Ok(is_member(&b.members, &addr)),
            None => Err(Error::NotInitialized),
        }
    }

    /// Whether `addr` has signed the proposal in focus.
    pub fn has_signed(&self, addr: Address) -> (r: Result<bool, Error>)
        ensures
            match r {
                Ok(b) => self@.proposal matches Some(p) && b == p.signatures.contains(addr),
                Err(e) => self@.proposal is None && e == Error::ProposalNotFound,
            },
    {
        match &self.proposal {
            Some(p) => Ok(is_member(&p.signatures, &addr)),
            None => Err(Error::ProposalNotFound),
        }
    }

    // ── Initialize ────────────────────────────────────────────────────────

    /// One-time setup: sets the board and the admin.
    pub fn initialize(&mut self, admin: Address, members: Vec<Address>, threshold: u32, now: u64) -> (r:
        Result<Effects, Error>)
        requires
            old(self).wf(),
        ensures
            final(self).wf(),
            final(self)@.id == old(self)@.id,
            final(self)@.count == old(self)@.count,
            final(self)@.proposal == old(self)@.proposal,
            r is Err ==> final(self)@ == old(self)@,
            forall|m: ForgeView| #[trigger]
                fits(m, old(self)@) ==> agrees_on(
                    m,
                    final(self)@,
                    r,
                    initialize_step(m, admin, members@, threshold, now),
                ),
    {
        let ghost f0 = self@;
        if self.board.is_some() {
            return Err(Error::AlreadyInitialized);
        }
        if members.len() == 0 {
            return Err(Error::MembersEmpty);
        }
        if members.len() > MAX_MEMBERS {
            return Err(Error::TooManyMembers);
        }
        if threshold as usize > members.len() || threshold == 0 {
            return Err(Error::InvalidThreshold);
        }
        let listed = copy_addresses(&members);
        let ghost mv = members@;
        self.board = Some(BoardConfig { members, threshold, created_at: now });
        self.admin = Some(admin);
        let out = single(Event::BoardInitialized { members: listed, threshold, timestamp: now });
        proof {
            assert forall|m: ForgeView| #[trigger] fits(m, f0) implies agrees_on(
                m,
                self@,
                Ok::<Effects, Error>(out),
                initialize_step(m, admin, mv, threshold, now),
            ) by {
                assert(f0.proposal is None);
            }
        }
        Ok(out)
    }

    // ── Create Proposal ───────────────────────────────────────────────────

    /// A board member opens a proposal; it gets the next id and becomes the
    /// proposal in focus. There is no minimum time to live.
    pub fn create_proposal(
        &mut self,
        proposer: Address,
        proposal_type: ProposalType,
        payload: ProposalPayload,
        description: Vec<u8>,
        ttl_seconds: Option<u64>,
        now: u64,
    ) -> (r: Result<(u64, Effects), Error>)
        requires
            old(self).wf(),
        ensures
            final(self).wf(),
            match r {
                Ok((id, _)) => id == old(self)@.count + 1 && final(self)@.id == id,
                Err(_) => final(self)@ == old(self)@,
            },
            forall|m: ForgeView| #[trigger]
                fits(m, old(self)@) ==> match r {
                    Ok((_, eff)) => create_step(
                        m,
                        proposer,
                        proposal_type,
                        payload@,
                        description@,
                        ttl_seconds,
                        now,
                    ) == Ok::<Accepted, Error>((lift(m, final(self)@), eff@)),
                    Err(e) => create_step(
                        m,
                        proposer,
                        proposal_type,
                        payload@,
                        description@,
                        ttl_seconds,
                        now,
                    ) == Err::<Accepted, Error>(e),
                },
    {
        let ghost f0 = self@;
        let b = match &self.board {
            None => return Err(Error::NotInitialized),
            Some(b) => b,
        };
        if !is_member(&b.members, &proposer) {
            return Err(Error::NotMember);
        }
        let ttl = match ttl_seconds {
            Some(t) => t,
            None => DEFAULT_TTL_SECS,
        };
        if ttl > MAX_TTL_SECS {
            return Err(Error::TtlTooLong);
        }
        if description.len() > MAX_DESCRIPTION_LEN {
            return Err(Error::DescriptionTooLong);
        }
        if now > u64::MAX - ttl {
            return Err(Error::ExpiryOverflow);
        }
        if self.count == u64::MAX {
            return Err(Error::CountOverflow);
        }
        let proposal_id = self.count + 1;
        let expires_at = now + ttl;
        let proposal = Proposal {
            proposal_id,
            proposer,
            proposal_type,
            payload,
            signatures: Vec::new(),
            status: ProposalStatus::Pending,
            created_at: now,
            expires_at,
            executed_at: None,
            cancelled_at: None,
            description,
        };
        let ghost pv = proposal@;
        assert(pv.signatures =~= Seq::<Address>::empty());
        self.proposal = Some(proposal);
        self.id = proposal_id;
        self.count = proposal_id;
        let eff = single(Event::ProposalCreated { proposal_id, proposer, proposal_type, expires_at });
        proof {
            assert forall|m: ForgeView| #[trigger] fits(m, f0) implies create_step(
                m,
                proposer,
                proposal_type,
                pv.payload,
                pv.description,
                ttl_seconds,
                now,
            ) == Ok::<Accepted, Error>((lift(m, self@), eff@)) by {
                assert(lift(m, self@).proposals =~= m.proposals.push(pv));
            }
        }
        Ok((proposal_id, eff))
    }

    // ── Sign Proposal ─────────────────────────────────────────────────────

    /// A board member signs the proposal in focus. When the signatures reach
    /// the threshold it is executed in the same call; if it cannot be, the
    /// whole call is refused and the signature is not kept.
    pub fn sign_proposal(&mut self, signer: Address, now: u64) -> (r: Result<Effects, Error>)
        requires
            old(self).wf(),
        ensures
            final(self).wf(),
            final(self)@.id == old(self)@.id,
            r is Err ==> final(self)@ == old(self)@,
            forall|m: ForgeView| #[trigger]
                fits(m, old(self)@) ==> agrees_on(
                    m,
                    final(self)@,
                    r,
                    sign_step(m, signer, old(self)@.id, now),
                ),
    {
        let ghost f0 = self@;
        let proposal_id = self.id;
        let threshold = match &self.board {
            None => return Err(Error::NotInitialized),
            Some(b) => {
                if !is_member(&b.members, &signer) {
                    return Err(Error::NotMember);
                }
                b.threshold
            },
        };
        let reaches = match &self.proposal {
            None => return Err(Error::ProposalNotFound),
            Some(p) => {
                if p.status != ProposalStatus::Pending {
                    return Err(Error::NotPending);
                }
                if now > p.expires_at {
                    return Err(Error::ProposalExpired);
                }
                if is_member(&p.signatures, &signer) {
                    return Err(Error::AlreadySigned);
                }
                if p.signatures.len() >= u32::MAX as usize {
                    return Err(Error::TooManySignatures);
                }
                let reaches = (p.signatures.len() + 1) as u32 >= threshold;
                if reaches {
                    match &self.board {
                        Some(b) => match check_execution(b, &p.payload) {
                            Some(e) => return Err(e),
                            None => {},
                        },
                        None => {},
                    }
                }
                reaches
            },
        };
        let mut p = self.proposal.take().unwrap();
        let ghost pv = p@;
        p.signatures.push(signer);
        let ghost signed = p@;
        assert(signed == ProposalView { signatures: pv.signatures.push(signer), ..pv });
        assert(proposal_wf(signed, proposal_id - 1));
        let signatures_count = p.signatures.len() as u32;
        let signed_event = Event::ProposalSigned { proposal_id, signer, signatures_count, threshold };
        if reaches {
            let mut board = self.board.take().unwrap();
            let ghost bv = board@;
            let mut eff = execute_parts(&mut board, &p, now);
            p.status = ProposalStatus::Executed;
            p.executed_at = Some(now);
            assert(p@ == executed(signed, now));
            assert(proposal_wf(p@, proposal_id - 1));
            self.board = Some(board);
            self.proposal = Some(p);
            let mut actions: Vec<Action> = Vec::new();
            actions.push(Action::Publish(signed_event));
            actions.push(
                Action::Publish(
                    Event::QuorumReached { proposal_id, signatures_count, threshold, timestamp: now },
                ),
            );
            let ghost head = actions@;
            let ghost tail = eff.actions@;
            actions.append(&mut eff.actions);
            let out = Effects { actions };
            proof {
                assert(out@.actions =~= head.map_values(|a: Action| a@) + tail.map_values(
                    |a: Action| a@,
                ));
                assert(head.map_values(|a: Action| a@) =~= seq![head[0]@, head[1]@]);
                if let crate::types::PayloadView::RemoveMember(q) = pv.payload {
                    crate::laws::lemma_without(bv.members, q.member);
                }
                assert forall|m: ForgeView| #[trigger] fits(m, f0) implies agrees_on(
                    m,
                    self@,
                    Ok::<Effects, Error>(out),
                    sign_step(m, signer, proposal_id, now),
                ) by {
                    assert(lift(m, self@).proposals =~= m.proposals.update(
                        proposal_id - 1,
                        executed(signed, now),
                    ));
                }
            }
            Ok(out)
        } else {
            self.proposal = Some(p);
            let out = single(signed_event);
            proof {
                assert forall|m: ForgeView| #[trigger] fits(m, f0) implies agrees_on(
                    m,
                    self@,
                    Ok::<Effects, Error>(out),
                    sign_step(m, signer, proposal_id, now),
                ) by {
                    assert(lift(m, self@).proposals =~= m.proposals.update(proposal_id - 1, signed));
                }
            }
            Ok(out)
        }
    }

    // ── Execute Proposal ──────────────────────────────────────────────────

    /// Anyone executes the proposal in focus when it is pending and its
    /// signatures already reach the threshold.
    pub fn execute_proposal(&mut self, now: u64) -> (r: Result<Effects, Error>)
        requires
            old(self).wf(),
        ensures
            final(self).wf(),
            final(self)@.id == old(self)@.id,
            r is Err ==> final(self)@ == old(self)@,
            forall|m: ForgeView| #[trigger]
                fits(m, old(self)@) ==> agrees_on(
                    m,
                    final(self)@,
                    r,
                    execute_step(m, old(self)@.id, now),
                ),
    {
        let ghost f0 = self@;
        let proposal_id = self.id;
        let threshold = match &self.board {
            None => return Err(Error::NotInitialized),
            Some(b) => b.threshold,
        };
        match &self.proposal {
            None => return Err(Error::ProposalNotFound),
            Some(p) => {
                if p.status != ProposalStatus::Pending {
                    return Err(Error::NotPending);
                }
                if p.signatures.len() < threshold as usize {
                    return Err(Error::ThresholdNotMet);
                }
                match &self.board {
                    Some(b) => match check_execution(b, &p.payload) {
                        Some(e) => return Err(e),
                        None => {},
                    },
                    None => {},
                }
            },
        }
        let mut p = self.proposal.take().unwrap();
        let ghost pv = p@;
        let mut board = self.board.take().unwrap();
        let ghost bv = board@;
        let eff = execute_parts(&mut board, &p, now);
        p.status = ProposalStatus::Executed;
        p.executed_at = Some(now);
        assert(p@ == executed(pv, now));
        assert(proposal_wf(p@, proposal_id - 1));
        self.board = Some(board);
        self.proposal = Some(p);
        proof {
            if let crate::types::PayloadView::RemoveMember(q) = pv.payload {
                crate::laws::lemma_without(bv.members, q.member);
            }
            assert forall|m: ForgeView| #[trigger] fits(m, f0) implies agrees_on(
                m,
                self@,
                Ok::<Effects, Error>(eff),
                execute_step(m, proposal_id, now),
            ) by {
                assert(lift(m, self@).proposals =~= m.proposals.update(
                    proposal_id - 1,
                    executed(pv, now),
                ));
            }
        }
        Ok(eff)
    }

    // ── Cancel Proposal ───────────────────────────────────────────────────

    /// The proposer or the admin cancels the proposal in focus while it is
    /// pending.
    pub fn cancel_proposal(&mut self, canceller: Address, now: u64) -> (r: Result<Effects, Error>)
        requires
            old(self).wf(),
        ensures
            final(self).wf(),
            final(self)@.id == old(self)@.id,
            r is Err ==> final(self)@ == old(self)@,
            forall|m: ForgeView| #[trigger]
                fits(m, old(self)@) ==> agrees_on(
                    m,
                    final(self)@,
                    r,
                    cancel_step(m, old(self)@.id, canceller, now),
                ),
    {
        let ghost f0 = self@;
        let proposal_id = self.id;
        let admin = match self.admin {
            None => return Err(Error::NotInitialized),
            Some(a) => a,
        };
        match &self.proposal {
            None => return Err(Error::ProposalNotFound),
            Some(p) => {
                if !canceller.same_as(&p.proposer) && !canceller.same_as(&admin) {
                    return Err(Error::Unauthorized);
                }
                if p.status != ProposalStatus::Pending {
                    return Err(Error::NotPending);
                }
            },
        }
        let mut p = self.proposal.take().unwrap();
        let ghost pv = p@;
        p.status = ProposalStatus::Cancelled;
        p.cancelled_at = Some(now);
        let ghost cancelled = p@;
        assert(proposal_wf(cancelled, proposal_id - 1));
        self.proposal = Some(p);
        let out = single(Event::ProposalCancelled { proposal_id, canceller, timestamp: now });
        proof {
            assert forall|m: ForgeView| #[trigger] fits(m, f0) implies agrees_on(
                m,
                self@,
                Ok::<Effects, Error>(out),
                cancel_step(m, proposal_id, canceller, now),
            ) by {
                assert(lift(m, self@).proposals =~= m.proposals.update(proposal_id - 1, cancelled));
            }
        }
        Ok(out)
    }

    // ── Expire Proposal ───────────────────────────────────────────────────

    /// Anyone marks the proposal in focus as expired once it is pending past
    /// its expiry time.
    pub fn expire_proposal(&mut self, now: u64) -> (r: Result<Effects, Error>)
        requires
            old(self).wf(),
        ensures
            final(self).wf(),
            final(self)@.id == old(self)@.id,
            r is Err ==> final(self)@ == old(self)@,
            forall|m: ForgeView| #[trigger]
                fits(m, old(self)@) ==> agrees_on(
                    m,
                    final(self)@,
                    r,
                    expire_step(m, old(self)@.id, now),
                ),
    {
        let ghost f0 = self@;
        let proposal_id = self.id;
        match &self.proposal {
            None => return Err(Error::ProposalNotFound),
            Some(p) => {
                if p.status != ProposalStatus::Pending {
                    return Err(Error::NotPending);
                }
                if now <= p.expires_at {
                    return Err(Error::NotYetExpired);
                }
            },
        }
        let mut p = self.proposal.take().unwrap();
        p.status = ProposalStatus::Expired;
        let ghost expired = p@;
        assert(proposal_wf(expired, proposal_id - 1));
        self.proposal = Some(p);
        let out = single(Event::ProposalExpired { proposal_id, timestamp: now });
        proof {
            assert forall|m: ForgeView| #[trigger] fits(m, f0) implies agrees_on(
                m,
                self@,
                Ok::<Effects, Error>(out),
                expire_step(m, proposal_id, now),
            ) by {
                assert(lift(m, self@).proposals =~= m.proposals.update(proposal_id - 1, expired));
            }
        }
        Ok(out)
    }
}

} // verus!
