//! The contract: its stored state and the calls that change and query it.

use vstd::prelude::*;

use crate::address::Address;
use crate::error::Error;
use crate::events::{Action, ActionView, Effects, Event, EventView, Transfer};
use crate::focus::{fits, lift, FocusView, ProposalFocus};
use crate::model::{
    cancel_step, create_step, execute_step, execution_error, expire_step, initial,
    initialize_step, inv, involves, involving, lookup, only_event, proposal_wf, publish, sign_step,
    signature_total, stats_of, status_count, with_status, without, Accepted, ForgeView,
};
use crate::types::{
    BoardConfig, BoardView, Proposal, ProposalPayload, ProposalStatus, ProposalType, ProposalView,
    Stats, TransferFundsPayload, MAX_DESCRIPTION_LEN, MAX_MEMBERS,
};

verus! {

/// Whether `addr` is among `members`.
pub(crate) fn is_member(members: &Vec<Address>, addr: &Address) -> (r: bool)
    ensures
        r == members@.contains(*addr),
{
    let mut i: usize = 0;
    while i < members.len()
        invariant
            i <= members@.len(),
            forall|j: int| 0 <= j < i ==> members@[j] != *addr,
        decreases members.len() - i,
    {
        if members[i].same_as(addr) {
            assert(members@[i as int] == *addr);
            return true;
        }
        i = i + 1;
    }
    false
}

/// A copy of a list of addresses.
pub(crate) fn copy_addresses(v: &Vec<Address>) -> (r: Vec<Address>)
    ensures
        r@ == v@,
{
    let mut r: Vec<Address> = Vec::new();
    let mut i: usize = 0;
    while i < v.len()
        invariant
            i <= v@.len(),
            r@ =~= v@.take(i as int),
        decreases v.len() - i,
    {
        r.push(v[i]);
        assert(v@.take(i + 1) =~= v@.take(i as int).push(v@[i as int]));
        i = i + 1;
    }
    assert(v@.take(v@.len() as int) =~= v@);
    r
}

/// `members` without any occurrence of `member`.
pub(crate) fn remove_all(members: &Vec<Address>, member: &Address) -> (r: Vec<Address>)
    ensures
        r@ == without(members@, *member),
{
    let mut r: Vec<Address> = Vec::new();
    let mut i: usize = 0;
    while i < members.len()
        invariant
            i <= members@.len(),
            r@ == without(members@.take(i as int), *member),
        decreases members.len() - i,
    {
        let ghost next = members@.take(i + 1);
        assert(next.drop_last() =~= members@.take(i as int));
        assert(next.last() == members@[i as int]);
        assert(without(next, *member) == if members@[i as int] != *member {
            without(members@.take(i as int), *member).push(members@[i as int])
        } else {
            without(members@.take(i as int), *member)
        }) by {
            reveal(Seq::filter);
        }
        if !members[i].same_as(member) {
            r.push(members[i]);
        }
        i = i + 1;
    }
    assert(members@.take(members@.len() as int) =~= members@);
    r
}

/// Whether a list of addresses holds no address twice.
fn distinct(v: &Vec<Address>) -> (r: bool)
    ensures
        r == v@.no_duplicates(),
{
    let mut i: usize = 0;
    while i < v.len()
        invariant
            i <= v@.len(),
            forall|a: int, b: int| 0 <= a < i && 0 <= b < i && a != b ==> v@[a] != v@[b],
        decreases v.len() - i,
    {
        let mut j: usize = 0;
        while j < i
            invariant
                i < v@.len(),
                j <= i,
                forall|a: int, b: int| 0 <= a < i && 0 <= b < i && a != b ==> v@[a] != v@[b],
                forall|a: int| 0 <= a < j ==> v@[a] != v@[i as int],
            decreases i - j,
        {
            if v[j].same_as(&v[i]) {
                return false;
            }
            j = j + 1;
        }
        i = i + 1;
    }
    true
}

/// Publishing the single event `e`.
pub(crate) fn single(e: Event) -> (r: Effects)
    ensures
        r@ == only_event(e@),
{
    let mut actions: Vec<Action> = Vec::new();
    actions.push(Action::Publish(e));
    let r = Effects { actions };
    assert(r@.actions =~= seq![publish(e@)]);
    r
}

/// A copy of a list of bytes.
fn copy_bytes(v: &Vec<u8>) -> (r: Vec<u8>)
    ensures
        r@ == v@,
{
    let mut r: Vec<u8> = Vec::new();
    let mut i: usize = 0;
    while i < v.len()
        invariant
            i <= v@.len(),
            r@ =~= v@.take(i as int),
        decreases v.len() - i,
    {
        r.push(v[i]);
        assert(v@.take(i + 1) =~= v@.take(i as int).push(v@[i as int]));
        i = i + 1;
    }
    assert(v@.take(v@.len() as int) =~= v@);
    r
}

/// A copy of a board.
fn copy_board(b: &BoardConfig) -> (r: BoardConfig)
    ensures
        r@ == b@,
{
    BoardConfig {
        members: copy_addresses(&b.members),
        threshold: b.threshold,
        created_at: b.created_at,
    }
}

/// A copy of a proposal.
fn copy_proposal(p: &Proposal) -> (r: Proposal)
    ensures
        r@ == p@,
{
    let payload = match &p.payload {
        ProposalPayload::ResolveIssue(q) => ProposalPayload::ResolveIssue(*q),
        ProposalPayload::TransferFunds(q) => ProposalPayload::TransferFunds(
            TransferFundsPayload {
                recipient: q.recipient,
                amount: q.amount,
                asset: q.asset,
                memo: copy_bytes(&q.memo),
            },
        ),
        ProposalPayload::AddMember(q) => ProposalPayload::AddMember(*q),
        ProposalPayload::RemoveMember(q) => ProposalPayload::RemoveMember(*q),
        ProposalPayload::UpdateThreshold(q) => ProposalPayload::UpdateThreshold(*q),
    };
    Proposal {
        proposal_id: p.proposal_id,
        proposer: p.proposer,
        proposal_type: p.proposal_type,
        payload,
        signatures: copy_addresses(&p.signatures),
        status: p.status,
        created_at: p.created_at,
        expires_at: p.expires_at,
        executed_at: p.executed_at,
        cancelled_at: p.cancelled_at,
        description: copy_bytes(&p.description),
    }
}

/// Whether `p` is a proposal that can be stored at position `index`.
pub(crate) fn check_proposal(p: &Proposal, index: u64) -> (r: bool)
    ensures
        r == proposal_wf(p@, index as int),
{
    let consistent = match p.status {
        ProposalStatus::Pending => p.executed_at.is_none() && p.cancelled_at.is_none(),
        ProposalStatus::Executed => p.executed_at.is_some() && p.cancelled_at.is_none(),
        ProposalStatus::Cancelled => p.executed_at.is_none() && p.cancelled_at.is_some(),
        ProposalStatus::Expired => p.executed_at.is_none() && p.cancelled_at.is_none(),
    };
    !(index == u64::MAX || p.proposal_id != index + 1 || !distinct(&p.signatures)
        || p.signatures.len() > u32::MAX as usize || p.description.len() > MAX_DESCRIPTION_LEN
        || p.created_at > p.expires_at || !consistent)
}

/// Why the payload cannot be carried out on this board, if it cannot.
pub(crate) fn check_execution(b: &BoardConfig, payload: &ProposalPayload) -> (r: Option<Error>)
    ensures
        r == execution_error(b@, payload@),
{
    match payload {
        ProposalPayload::AddMember(p) => {
            if is_member(&b.members, &p.new_member) {
                Some(Error::MemberAlreadyExists)
            } else if b.members.len() >= MAX_MEMBERS {
                Some(Error::BoardFull)
            } else {
                None
            }
        },
        ProposalPayload::UpdateThreshold(p) => {
            if p.new_threshold as usize > b.members.len() || p.new_threshold == 0 {
                Some(Error::InvalidThreshold)
            } else {
                None
            }
        },
        _ => None,
    }
}

/// The view of an optional board.
pub open spec fn board_view(b: Option<BoardConfig>) -> Option<BoardView> {
    match b {
        Some(b) => Some(b@),
        None => None,
    }
}

/// The views of a list of proposals.
pub open spec fn proposals_view(v: Seq<Proposal>) -> Seq<ProposalView> {
    v.map_values(|p: Proposal| p@)
}

/// The views of a list of borrowed proposals.
pub open spec fn borrowed_view(v: Seq<&Proposal>) -> Seq<ProposalView> {
    v.map_values(|p: &Proposal| p@)
}

/// What a call's result says once it is taken together with the state it
/// left behind: on success the new state and the effects, on refusal the
/// error, with the state unchanged.
pub open spec fn agrees(
    before: ForgeView,
    after: ForgeView,
    r: Result<Effects, Error>,
    step: Result<Accepted, Error>,
) -> bool {
    match r {
        Ok(eff) => step == Ok::<Accepted, Error>((after, eff@)),
        Err(e) => step == Err::<Accepted, Error>(e) && after == before,
    }
}

/// The stored state of the contract.
pub struct QuorumForge {
    board: Option<BoardConfig>,
    admin: Option<Address>,
    proposals: Vec<Proposal>,
}

impl View for QuorumForge {
    type V = ForgeView;

    closed spec fn view(&self) -> ForgeView {
        ForgeView {
            board: board_view(self.board),
            admin: self.admin,
            proposals: proposals_view(self.proposals@),
        }
    }
}

impl QuorumForge {
    /// The state is one that the contract can reach.
    pub open spec fn wf(&self) -> bool {
        inv(self@)
    }

    /// A contract that has not been initialized.
    pub fn new() -> (r: QuorumForge)
        ensures
            r@ == initial(),
            r.wf(),
    {
        let r = QuorumForge { board: None, admin: None, proposals: Vec::new() };
        assert(r@.proposals =~= Seq::<ProposalView>::empty());
        r
    }

    /// The state made of the stored board, admin and proposals (proposal
    /// `i + 1` at index `i`); `None` when these are not a reachable state.
    pub fn from_parts(
        board: Option<BoardConfig>,
        admin: Option<Address>,
        proposals: Vec<Proposal>,
    ) -> (r: Option<QuorumForge>)
        ensures
            r is Some <==> inv(
                ForgeView {
                    board: board_view(board),
                    admin,
                    proposals: proposals_view(proposals@),
                },
            ),
            r matches Some(s) ==> s@ == (ForgeView {
                board: board_view(board),
                admin,
                proposals: proposals_view(proposals@),
            }),
    {
        let ghost m = ForgeView {
            board: board_view(board),
            admin,
            proposals: proposals_view(proposals@),
        };
        if board.is_some() != admin.is_some() {
            return None;
        }
        match &board {
            None => {
                if proposals.len() != 0 {
                    return None;
                }
            },
            Some(b) => {
                if b.threshold == 0 || b.members.len() > MAX_MEMBERS {
                    return None;
                }
            },
        }
        let mut i: usize = 0;
        while i < proposals.len()
            invariant
                i <= proposals@.len(),
                m.proposals == proposals_view(proposals@),
                forall|j: int| 0 <= j < i ==> #[trigger] proposal_wf(m.proposals[j], j),
            decreases proposals.len() - i,
        {
            let p = &proposals[i];
            assert(m.proposals[i as int] == p@);
            if !check_proposal(p, i as u64) {
                assert(m.proposals.len() == proposals@.len());
                assert(!inv(m));
                return None;
            }
            i = i + 1;
        }
        Some(QuorumForge { board, admin, proposals })
    }

    /// The position of proposal `id` in the list, if it exists.
    fn index_of(&self, proposal_id: u64) -> (r: Option<usize>)
        ensures
            match r {
                Some(i) => lookup(self@, proposal_id) == Some(self@.proposals[i as int]) && i
                    == proposal_id - 1 && i < self.proposals@.len(),
                None => lookup(self@, proposal_id) is None,
            },
    {
        if proposal_id == 0 || proposal_id > self.proposals.len() as u64 {
            None
        } else {
            Some((proposal_id - 1) as usize)
        }
    }

    // ── Initialize ────────────────────────────────────────────────────────

    /// One-time setup: stores the board and the admin.
    pub fn initialize(&mut self, admin: Address, members: Vec<Address>, threshold: u32, now: u64) -> (r:
        Result<Effects, Error>)
        requires
            old(self).wf(),
        ensures
            final(self).wf(),
            agrees(old(self)@, final(self)@, r, initialize_step(old(self)@, admin, members@, threshold, now)),
    {
        let ghost m = self@;
        proof {
            crate::laws::lemma_initialize_keeps_inv(m, admin, members@, threshold, now);
        }
        let mut f = self.focus(0);
        let r = f.initialize(admin, members, threshold, now);
        if r.is_ok() {
            self.put_back(f);
        }
        r
    }

    // ── Focus ─────────────────────────────────────────────────────────────

    /// A copy of the part of the state that a call on proposal `id` reads.
    pub fn focus(&self, id: u64) -> (r: ProposalFocus)
        ensures
            r@ == (FocusView {
                board: self@.board,
                admin: self@.admin,
                count: self@.proposals.len(),
                id,
                proposal: lookup(self@, id),
            }),
            fits(self@, r@),
            self.wf() ==> r.wf(),
    {
        let board = match &self.board {
            Some(b) => Some(copy_board(b)),
            None => None,
        };
        let proposal = match self.index_of(id) {
            Some(i) => Some(copy_proposal(&self.proposals[i])),
            None => None,
        };
        let r = ProposalFocus::assemble(board, self.admin, self.proposals.len() as u64, id, proposal);
        proof {
            if self.wf() {
                if 1 <= id <= self@.proposals.len() {
                    assert(proposal_wf(self@.proposals[id - 1], id - 1));
                }
            }
        }
        r
    }

    /// Puts back the board, admin and proposal of a focus taken from this
    /// state.
    fn put_back(&mut self, f: ProposalFocus)
        requires
            f@.proposal is Some ==> 1 <= f@.id <= old(self)@.proposals.len() + 1,
        ensures
            final(self)@ == lift(old(self)@, f@),
    {
        let ghost m = self@;
        let ghost fv = f@;
        let (board, admin, _count, id, proposal) = f.into_parts();
        self.board = board;
        self.admin = admin;
        match proposal {
            Some(p) => {
                let ghost pv = p@;
                if id > self.proposals.len() as u64 {
                    self.proposals.push(p);
                    assert(self@.proposals =~= m.proposals.push(pv));
                } else {
                    let i = (id - 1) as usize;
                    self.proposals.set(i, p);
                    assert(self@.proposals =~= m.proposals.update(id - 1, pv));
                }
            },
            None => {},
        }
    }

    // ── Create Proposal ───────────────────────────────────────────────────

    /// A board member opens a proposal; returns its id, the next one. There
    /// is no minimum time to live: a proposal may expire a minute after it
    /// is opened.
    pub fn create_proposal(
        &mut self,
        proposer: Address,
        proposal_type: ProposalType,
        payload: ProposalPayload,
        description: Vec<u8>,
        ttl_seconds: Option<u64>,
        now: u64,
    ) -> (r: Result<(u64, Effects), Error>)
        requires
            old(self).wf(),
        ensures
            final(self).wf(),
            match r {
                Ok((id, eff)) => create_step(
                    old(self)@,
                    proposer,
                    proposal_type,
                    payload@,
                    description@,
                    ttl_seconds,
                    now,
                ) == Ok::<Accepted, Error>((final(self)@, eff@)) && id == old(self)@.proposals.len()
                    + 1,
                Err(e) => create_step(
                    old(self)@,
                    proposer,
                    proposal_type,
                    payload@,
                    description@,
                    ttl_seconds,
                    now,
                ) == Err::<Accepted, Error>(e) && final(self)@ == old(self)@,
            },
    {
        let ghost m = self@;
        let ghost pay = payload@;
        let ghost desc = description@;
        proof {
            crate::laws::lemma_create_keeps_inv(m, proposer, proposal_type, pay, desc, ttl_seconds, now);
        }
        let mut f = self.focus(0);
        let r = f.create_proposal(proposer, proposal_type, payload, description, ttl_seconds, now);
        if r.is_ok() {
            self.put_back(f);
        }
        r
    }

    // ── Sign Proposal ─────────────────────────────────────────────────────

    /// A board member signs a pending proposal. When the signatures reach the
    /// threshold the proposal is executed in the same call; if it cannot be,
    /// the whole call is refused and the signature is not kept.
    pub fn sign_proposal(&mut self, signer: Address, proposal_id: u64, now: u64) -> (r: Result<
        Effects,
        Error,
    >)
        requires
            old(self).wf(),
        ensures
            final(self).wf(),
            agrees(old(self)@, final(self)@, r, sign_step(old(self)@, signer, proposal_id, now)),
    {
        let ghost m = self@;
        proof {
            crate::laws::lemma_sign_keeps_inv(m, signer, proposal_id, now);
        }
        let mut f = self.focus(proposal_id);
        let r = f.sign_proposal(signer, now);
        if r.is_ok() {
            self.put_back(f);
        }
        r
    }

    // ── Execute Proposal ──────────────────────────────────────────────────

    /// Anyone executes a pending proposal whose signatures already reach the
    /// threshold.
    pub fn execute_proposal(&mut self, proposal_id: u64, now: u64) -> (r: Result<Effects, Error>)
        requires
            old(self).wf(),
        ensures
            final(self).wf(),
            agrees(old(self)@, final(self)@, r, execute_step(old(self)@, proposal_id, now)),
    {
        let ghost m = self@;
        proof {
            crate::laws::lemma_execute_step_keeps_inv(m, proposal_id, now);
        }
        let mut f = self.focus(proposal_id);
        let r = f.execute_proposal(now);
        if r.is_ok() {
            self.put_back(f);
        }
        r
    }

    // ── Cancel Proposal ───────────────────────────────────────────────────

    /// The proposer or the admin cancels a pending proposal.
    pub fn cancel_proposal(&mut self, proposal_id: u64, canceller: Address, now: u64) -> (r: Result<
        Effects,
        Error,
    >)
        requires
            old(self).wf(),
        ensures
            final(self).wf(),
            agrees(old(self)@, final(self)@, r, cancel_step(old(self)@, proposal_id, canceller, now)),
    {
        let ghost m = self@;
        proof {
            crate::laws::lemma_cancel_keeps_inv(m, proposal_id, canceller, now);
        }
        let mut f = self.focus(proposal_id);
        let r = f.cancel_proposal(canceller, now);
        if r.is_ok() {
            self.put_back(f);
        }
        r
    }

    // ── Expire Proposal ───────────────────────────────────────────────────

    /// Anyone marks a pending proposal whose time to live has passed as
    /// expired.
    pub fn expire_proposal(&mut self, proposal_id: u64, now: u64) -> (r: Result<Effects, Error>)
        requires
            old(self).wf(),
        ensures
            final(self).wf(),
            agrees(old(self)@, final(self)@, r, expire_step(old(self)@, proposal_id, now)),
    {
        let ghost m = self@;
        proof {
            crate::laws::lemma_expire_keeps_inv(m, proposal_id, now);
        }
        let mut f = self.focus(proposal_id);
        let r = f.expire_proposal(now);
        if r.is_ok() {
            self.put_back(f);
        }
        r
    }

    // ── Deposit ───────────────────────────────────────────────────────────

    /// Funds the treasury: `amount` of `asset` moves from `from` to the
    /// contract.
    pub fn deposit(from: Address, amount: i128, asset: Address, now: u64) -> (r: Effects)
        ensures
            r@.actions == seq![
                ActionView::Transfer(Transfer::Deposit { asset, from, amount }),
                publish(EventView::DepositReceived { from, amount, asset, timestamp: now }),
            ],
    {
        let mut actions: Vec<Action> = Vec::new();
        actions.push(Action::Transfer(Transfer::Deposit { asset, from, amount }));
        actions.push(Action::Publish(Event::DepositReceived { from, amount, asset, timestamp: now }));
        let r = Effects { actions };
        assert(r@.actions =~= seq![actions@[0]@, actions@[1]@]);
        r
    }

    // ── Queries ───────────────────────────────────────────────────────────

    /// The proposal with the given id.
    pub fn get_proposal(&self, proposal_id: u64) -> (r: Result<&Proposal, Error>)
        ensures
            match r {
                Ok(p) => lookup(self@, proposal_id) == Some(p@),
                Err(e) => lookup(self@, proposal_id) is None && e == Error::ProposalNotFound,
            },
    {
        match self.index_of(proposal_id) {
            Some(i) => Ok(&self.proposals[i]),
            None => Err(Error::ProposalNotFound),
        }
    }

    /// The board.
    pub fn get_board(&self) -> (r: Result<&BoardConfig, Error>)
        ensures
            match r {
                Ok(b) => self@.board == Some(b@),
                Err(e) => self@.board is None && e == Error::NotInitialized,
            },
    {
        match &self.board {
            Some(b) => Ok(b),
            None => Err(Error::NotInitialized),
        }
    }

    /// The admin address set at initialization.
    pub fn get_admin(&self) -> (r: Result<Address, Error>)
        ensures
            match r {
                Ok(a) => self@.admin == Some(a),
                Err(e) => self@.admin is None && e == Error::NotInitialized,
            },
    {
        match self.admin {
            Some(a) => Ok(a),
            None => Err(Error::NotInitialized),
        }
    }

    /// The number of proposals ever created.
    pub fn get_proposal_count(&self) -> (r: u64)
        ensures
            r == self@.proposals.len(),
    {
        self.proposals.len() as u64
    }

    /// Whether `addr` is a board member.
    pub fn is_member(&self, addr: Address) -> (r: Result<bool, Error>)
        ensures
            match r {
                Ok(b) => self@.board matches Some(board) && b == board.members.contains(addr),
                Err(e) => self@.board is None && e == Error::NotInitialized,
            },
    {
        match &self.board {
            Some(b) => Ok(is_member(&b.members, &addr)),
            None => Err(Error::NotInitialized),
        }
    }

    /// Whether `addr` has signed the proposal.
    pub fn has_signed(&self, proposal_id: u64, addr: Address) -> (r: Result<bool, Error>)
        ensures
            match r {
                Ok(b) => lookup(self@, proposal_id) matches Some(p) && b == p.signatures.contains(
                    addr,
                ),
                Err(e) => lookup(self@, proposal_id) is None && e == Error::ProposalNotFound,
            },
    {
        match self.index_of(proposal_id) {
            Some(i) => Ok(is_member(&self.proposals[i].signatures, &addr)),
            None => Err(Error::ProposalNotFound),
        }
    }

    /// The number of board members.
    pub fn get_member_count(&self) -> (r: Result<u32, Error>)
        requires
            self.wf(),
        ensures
            match r {
                Ok(n) => self@.board matches Some(board) && n == board.members.len(),
                Err(e) => self@.board is None && e == Error::NotInitialized,
            },
    {
        match &self.board {
            Some(b) => Ok(b.members.len() as u32),
            None => Err(Error::NotInitialized),
        }
    }

    /// Whether the board and the admin are set.
    pub fn is_initialized(&self) -> (r: bool)
        ensures
            r == (self@.board is Some && self@.admin is Some),
    {
        self.board.is_some() && self.admin.is_some()
    }

    /// The number of signatures a proposal needs.
    pub fn get_threshold(&self) -> (r: Result<u32, Error>)
        ensures
            match r {
                Ok(t) => self@.board matches Some(board) && t == board.threshold,
                Err(e) => self@.board is None && e == Error::NotInitialized,
            },
    {
        match &self.board {
            Some(b) => Ok(b.threshold),
            None => Err(Error::NotInitialized),
        }
    }

    /// Whether a proposal with the given id exists.
    pub fn has_proposal(&self, proposal_id: u64) -> (r: bool)
        ensures
            r == lookup(self@, proposal_id) is Some,
            r == (1 <= proposal_id <= self@.proposals.len()),
    {
        self.index_of(proposal_id).is_some()
    }

    /// The proposals with the given status, in order of id.
    pub fn get_proposals_by_status(&self, status: ProposalStatus) -> (r: Vec<&Proposal>)
        ensures
            borrowed_view(r@) == with_status(self@.proposals, status),
    {
        let ghost all = self@.proposals;
        let mut r: Vec<&Proposal> = Vec::new();
        let mut i: usize = 0;
        while i < self.proposals.len()
            invariant
                i <= self.proposals@.len(),
                all == proposals_view(self.proposals@),
                borrowed_view(r@) == with_status(all.take(i as int), status),
            decreases self.proposals.len() - i,
        {
            let ghost next = all.take(i + 1);
            assert(next.drop_last() =~= all.take(i as int));
            assert(next.last() == self.proposals@[i as int]@);
            assert(with_status(next, status) == if next.last().status == status {
                with_status(all.take(i as int), status).push(next.last())
            } else {
                with_status(all.take(i as int), status)
            }) by {
                reveal(Seq::filter);
            }
            let p = &self.proposals[i];
            let ghost before = r@;
            if p.status == status {
                r.push(p);
                assert(borrowed_view(r@) =~= borrowed_view(before).push(p@));
            }
            i = i + 1;
        }
        assert(all.take(all.len() as int) =~= all);
        r
    }

    /// The proposals that `member` proposed or signed, in order of id.
    pub fn get_proposals_by_member(&self, member: Address) -> (r: Vec<&Proposal>)
        ensures
            borrowed_view(r@) == involving(self@.proposals, member),
    {
        let ghost all = self@.proposals;
        let mut r: Vec<&Proposal> = Vec::new();
        let mut i: usize = 0;
        while i < self.proposals.len()
            invariant
                i <= self.proposals@.len(),
                all == proposals_view(self.proposals@),
                borrowed_view(r@) == involving(all.take(i as int), member),
            decreases self.proposals.len() - i,
        {
            let ghost next = all.take(i + 1);
            assert(next.drop_last() =~= all.take(i as int));
            assert(next.last() == self.proposals@[i as int]@);
            assert(involving(next, member) == if involves(next.last(), member) {
                involving(all.take(i as int), member).push(next.last())
            } else {
                involving(all.take(i as int), member)
            }) by {
                reveal(Seq::filter);
            }
            let p = &self.proposals[i];
            let ghost before = r@;
            if p.proposer.same_as(&member) || is_member(&p.signatures, &member) {
                r.push(p);
                assert(borrowed_view(r@) =~= borrowed_view(before).push(p@));
            }
            i = i + 1;
        }
        assert(all.take(all.len() as int) =~= all);
        r
    }

    /// The proposals that are still pending, in order of id.
    pub fn get_pending_proposals(&self) -> (r: Vec<&Proposal>)
        ensures
            borrowed_view(r@) == with_status(self@.proposals, ProposalStatus::Pending),
    {
        self.get_proposals_by_status(ProposalStatus::Pending)
    }

    /// Counts over all proposals; refused when the number of signatures
    /// overflows a `u64`.
    pub fn get_stats(&self) -> (r: Result<Stats, Error>)
        ensures
            match r {
                Ok(st) => signature_total(self@.proposals) <= u64::MAX && st == stats_of(
                    self@.proposals,
                ),
                Err(e) => signature_total(self@.proposals) > u64::MAX && e == Error::StatsOverflow,
            },
    {
        let ghost all = self@.proposals;
        let mut executed: u64 = 0;
        let mut pending: u64 = 0;
        let mut cancelled: u64 = 0;
        let mut expired: u64 = 0;
        let mut total_signatures: u64 = 0;
        let mut i: usize = 0;
        while i < self.proposals.len()
            invariant
                i <= self.proposals@.len(),
                all == proposals_view(self.proposals@),
                executed == status_count(all.take(i as int), ProposalStatus::Executed),
                pending == status_count(all.take(i as int), ProposalStatus::Pending),
                cancelled == status_count(all.take(i as int), ProposalStatus::Cancelled),
                expired == status_count(all.take(i as int), ProposalStatus::Expired),
                total_signatures == signature_total(all.take(i as int)),
            decreases self.proposals.len() - i,
        {
            let ghost next = all.take(i + 1);
            assert(next.drop_last() =~= all.take(i as int));
            assert(next.last() == self.proposals@[i as int]@);
            proof {
                crate::laws::lemma_status_counts_bounded(all.take(i as int));
            }
            let p = &self.proposals[i];
            let n = p.signatures.len() as u64;
            if total_signatures > u64::MAX - n {
                proof {
                    crate::laws::lemma_signature_total_monotone(all, i + 1);
                }
                return Err(Error::StatsOverflow);
            }
            total_signatures = total_signatures + n;
            match p.status {
                ProposalStatus::Executed => executed = executed + 1,
                ProposalStatus::Pending => pending = pending + 1,
                ProposalStatus::Cancelled => cancelled = cancelled + 1,
                ProposalStatus::Expired => expired = expired + 1,
            }
            i = i + 1;
        }
        assert(all.take(all.len() as int) =~= all);
        Ok(
            Stats {
                total_proposals: self.proposals.len() as u64,
                executed,
                pending,
                cancelled,
                expired,
                total_signatures,
            },
        )
    }

    /// The stored proposals, proposal `i + 1` at index `i`.
    pub fn proposals(&self) -> (r: &Vec<Proposal>)
        ensures
            proposals_view(r@) == self@.proposals,
    {
        &self.proposals
    }
}

} // verus!
