//! Properties of the contract that hold across calls.

use vstd::prelude::*;

use crate::address::Address;
use crate::error::Error;
use crate::events::{ActionView, EventView, Transfer};
use crate::model::{
    cancel_step, create_step, creations, execute, execute_step, executed, execution_error,
    expire_step, initial, initialize_step, inv, involves, involving, lookup, proposal_wf, run,
    sign_step, signature_total, stats_of, status_count, step, with_status, without, Accepted, Call,
    ForgeView,
};
use crate::types::{
    Stats, AddMemberPayload, BoardView, PayloadView, ProposalStatus, ProposalType, ProposalView, MAX_MEMBERS,
};

verus! {

/// Removing an address never lengthens a list, and leaves no occurrence of it.
pub proof fn lemma_without(s: Seq<Address>, a: Address)
    ensures
        without(s, a).len() <= s.len(),
        !without(s, a).contains(a),
        forall|x: Address| x != a ==> (without(s, a).contains(x) <==> s.contains(x)),
    decreases s.len(),
{
    reveal(Seq::filter);
    if s.len() > 0 {
        lemma_without(s.drop_last(), a);
        let rest = without(s.drop_last(), a);
        assert forall|x: Address| x != a implies (without(s, a).contains(x) <==> s.contains(x)) by {
            if s.contains(x) {
                let k = choose|k: int| 0 <= k < s.len() && s[k] == x;
                if k < s.len() - 1 {
                    assert(s.drop_last()[k] == x);
                }
            }
            if s.drop_last().contains(x) {
                let k = choose|k: int| 0 <= k < s.drop_last().len() && s.drop_last()[k] == x;
                assert(s[k] == x);
            }
            if without(s, a).contains(x) && !rest.contains(x) {
                assert(s.last() == x);
            }
        }
        if without(s, a).contains(a) {
            if s.last() != a {
                let k = choose|k: int| 0 <= k < without(s, a).len() && without(s, a)[k] == a;
                if k < rest.len() {
                    assert(rest[k] == a);
                }
            }
        }
    }
}

/// Carrying out a pending proposal on the board keeps the invariant.
pub proof fn lemma_execute_keeps_inv(m: ForgeView, b: BoardView, id: u64, p: ProposalView, now: u64)
    requires
        inv(m),
        m.board == Some(b),
        1 <= id <= m.proposals.len(),
        proposal_wf(p, id - 1),
        p.status == ProposalStatus::Pending,
    ensures
        execute(m, b, id, p, now) matches Ok((m2, _)) ==> inv(m2),
{
    if let Ok((m2, _)) = execute(m, b, id, p, now) {
        let p2 = executed(p, now);
        assert(proposal_wf(p2, id - 1));
        if let PayloadView::RemoveMember(r) = p.payload {
            lemma_without(b.members, r.member);
        }
        assert forall|i: int| 0 <= i < m2.proposals.len() implies #[trigger] proposal_wf(
            m2.proposals[i],
            i,
        ) by {
            if i != id - 1 {
                assert(proposal_wf(m.proposals[i], i));
            }
        }
        assert(m2.board matches Some(b2) && 1 <= b2.threshold && b2.members.len() <= MAX_MEMBERS);
    }
}

/// Signing keeps the invariant.
pub proof fn lemma_sign_keeps_inv(m: ForgeView, signer: Address, id: u64, now: u64)
    requires
        inv(m),
    ensures
        sign_step(m, signer, id, now) matches Ok((m2, _)) ==> inv(m2),
{
    if let Ok((m2, _)) = sign_step(m, signer, id, now) {
        let b = m.board->0;
        let p = m.proposals[id - 1];
        assert(proposal_wf(p, id - 1));
        let signed = ProposalView { signatures: p.signatures.push(signer), ..p };
        assert(proposal_wf(signed, id - 1));
        if signed.signatures.len() as u32 >= b.threshold {
            lemma_execute_keeps_inv(m, b, id, signed, now);
        } else {
            assert forall|i: int| 0 <= i < m2.proposals.len() implies #[trigger] proposal_wf(
                m2.proposals[i],
                i,
            ) by {
                if i != id - 1 {
                    assert(proposal_wf(m.proposals[i], i));
                }
            }
        }
    }
}

/// Executing a proposal through `execute_proposal` keeps the invariant.
pub proof fn lemma_execute_step_keeps_inv(m: ForgeView, id: u64, now: u64)
    requires
        inv(m),
    ensures
        execute_step(m, id, now) matches Ok((m2, _)) ==> inv(m2),
{
    if let Ok((m2, _)) = execute_step(m, id, now) {
        let p = m.proposals[id - 1];
        assert(proposal_wf(p, id - 1));
        lemma_execute_keeps_inv(m, m.board->0, id, p, now);
    }
}

/// Cancelling keeps the invariant.
pub proof fn lemma_cancel_keeps_inv(m: ForgeView, id: u64, canceller: Address, now: u64)
    requires
        inv(m),
    ensures
        cancel_step(m, id, canceller, now) matches Ok((m2, _)) ==> inv(m2),
{
    if let Ok((m2, _)) = cancel_step(m, id, canceller, now) {
        assert(proposal_wf(m.proposals[id - 1], id - 1));
        assert forall|i: int| 0 <= i < m2.proposals.len() implies #[trigger] proposal_wf(
            m2.proposals[i],
            i,
        ) by {
            assert(proposal_wf(m.proposals[i], i));
        }
    }
}

/// Expiring keeps the invariant.
pub proof fn lemma_expire_keeps_inv(m: ForgeView, id: u64, now: u64)
    requires
        inv(m),
    ensures
        expire_step(m, id, now) matches Ok((m2, _)) ==> inv(m2),
{
    if let Ok((m2, _)) = expire_step(m, id, now) {
        assert(proposal_wf(m.proposals[id - 1], id - 1));
        assert forall|i: int| 0 <= i < m2.proposals.len() implies #[trigger] proposal_wf(
            m2.proposals[i],
            i,
        ) by {
            assert(proposal_wf(m.proposals[i], i));
        }
    }
}

/// Each status count of a list is at most its length.
pub proof fn lemma_status_counts_bounded(s: Seq<ProposalView>)
    ensures
        forall|st: ProposalStatus| #[trigger] status_count(s, st) <= s.len(),
    decreases s.len(),
{
    if s.len() > 0 {
        lemma_status_counts_bounded(s.drop_last());
        assert forall|st: ProposalStatus| #[trigger] status_count(s, st) <= s.len() by {
            assert(status_count(s.drop_last(), st) <= s.drop_last().len());
        }
    }
}

/// The signatures of a prefix are at most those of the whole list.
pub proof fn lemma_signature_total_monotone(s: Seq<ProposalView>, n: int)
    requires
        0 <= n <= s.len(),
    ensures
        signature_total(s.take(n)) <= signature_total(s),
    decreases s.len() - n,
{
    if n < s.len() {
        lemma_signature_total_monotone(s, n + 1);
        assert(s.take(n + 1).drop_last() =~= s.take(n));
    } else {
        assert(s.take(n) =~= s);
    }
}

/// Initializing keeps the invariant.
pub proof fn lemma_initialize_keeps_inv(
    m: ForgeView,
    admin: Address,
    members: Seq<Address>,
    threshold: u32,
    now: u64,
)
    requires
        inv(m),
    ensures
        initialize_step(m, admin, members, threshold, now) matches Ok((m2, _)) ==> inv(m2),
{
}

/// Creating a proposal keeps the invariant.
pub proof fn lemma_create_keeps_inv(
    m: ForgeView,
    proposer: Address,
    proposal_type: ProposalType,
    payload: PayloadView,
    description: Seq<u8>,
    ttl_seconds: Option<u64>,
    now: u64,
)
    requires
        inv(m),
    ensures
        create_step(m, proposer, proposal_type, payload, description, ttl_seconds, now) matches Ok(
            (m2, _),
        ) ==> inv(m2),
{
    if let Ok((m2, _)) = create_step(
        m,
        proposer,
        proposal_type,
        payload,
        description,
        ttl_seconds,
        now,
    ) {
        let n = m.proposals.len();
        assert(m2.proposals[n as int].signatures =~= Seq::<Address>::empty());
        assert(proposal_wf(m2.proposals[n as int], n as int));
        assert forall|i: int| 0 <= i < m2.proposals.len() implies #[trigger] proposal_wf(
            m2.proposals[i],
            i,
        ) by {
            if i < n {
                assert(proposal_wf(m.proposals[i], i));
            }
        }
    }
}

/// Every accepted call keeps the invariant: the threshold stays at least one,
/// the board never holds more than `MAX_MEMBERS` members, no address signs a
/// proposal twice, descriptions stay within `MAX_DESCRIPTION_LEN` bytes,
/// proposal ids run from 1 without gaps, no proposal expires before it was
/// created, and a proposal carries an execution time exactly when it was
/// executed and a cancellation time exactly when it was cancelled.
pub proof fn law_calls_keep_invariant(m: ForgeView, c: Call, now: u64)
    requires
        inv(m),
    ensures
        step(m, c, now) matches Ok((m2, _)) ==> inv(m2),
{
    match c {
        Call::Initialize { admin, members, threshold } => lemma_initialize_keeps_inv(
            m,
            admin,
            members,
            threshold,
            now,
        ),
        Call::CreateProposal { proposer, proposal_type, payload, description, ttl_seconds } =>
            lemma_create_keeps_inv(
            m,
            proposer,
            proposal_type,
            payload,
            description,
            ttl_seconds,
            now,
        ),
        Call::SignProposal { signer, proposal_id } => lemma_sign_keeps_inv(
            m,
            signer,
            proposal_id,
            now,
        ),
        Call::ExecuteProposal { proposal_id } => lemma_execute_step_keeps_inv(m, proposal_id, now),
        Call::CancelProposal { proposal_id, canceller } => lemma_cancel_keeps_inv(
            m,
            proposal_id,
            canceller,
            now,
        ),
        Call::ExpireProposal { proposal_id } => lemma_expire_keeps_inv(m, proposal_id, now),
    }
}

/// How a proposal may change from one state to the next: its id, proposer,
/// type, payload, description, creation and expiry times stay as they were,
/// signatures are only ever added at the end, and a proposal that is no longer
/// pending does not change at all.
pub open spec fn proposal_evolves(p: ProposalView, q: ProposalView) -> bool {
    &&& q.proposal_id == p.proposal_id
    &&& q.proposer == p.proposer
    &&& q.proposal_type == p.proposal_type
    &&& q.payload == p.payload
    &&& q.description == p.description
    &&& q.created_at == p.created_at
    &&& q.expires_at == p.expires_at
    &&& p.signatures.len() <= q.signatures.len()
    &&& q.signatures.take(p.signatures.len() as int) == p.signatures
    &&& (p.status != ProposalStatus::Pending ==> q == p)
}

/// Every accepted call keeps every existing proposal (see `proposal_evolves`):
/// proposals are never removed, their fixed fields never change, signatures
/// are never withdrawn, and a proposal that is executed, cancelled or expired
/// stays exactly as it is.
pub proof fn law_proposals_evolve(m: ForgeView, c: Call, now: u64)
    requires
        inv(m),
    ensures
        step(m, c, now) matches Ok((m2, _)) ==> m.proposals.len() <= m2.proposals.len() && forall|
            i: int,
        |
            0 <= i < m.proposals.len() ==> #[trigger] proposal_evolves(
                m.proposals[i],
                m2.proposals[i],
            ),
{
    if let Ok((m2, _)) = step(m, c, now) {
        assert forall|i: int| 0 <= i < m.proposals.len() implies #[trigger] proposal_evolves(
            m.proposals[i],
            m2.proposals[i],
        ) by {
            let p = m.proposals[i];
            assert(p.signatures.take(p.signatures.len() as int) =~= p.signatures);
            match c {
                Call::SignProposal { signer, proposal_id } => {
                    let q = p.signatures.push(signer);
                    assert(q.take(p.signatures.len() as int) =~= p.signatures);
                },
                _ => {},
            }
        }
    }
}

/// A proposal becomes executed only when it holds at least as many
/// signatures as the board's threshold at the time of execution, and every
/// signature that a call adds is that of a board member.
pub proof fn law_execution_needs_quorum(m: ForgeView, c: Call, now: u64)
    requires
        inv(m),
    ensures
        step(m, c, now) matches Ok((m2, _)) ==> forall|i: int|
            0 <= i < m.proposals.len() ==> {
                &&& (m.proposals[i].status != ProposalStatus::Executed
                    && #[trigger] m2.proposals[i].status == ProposalStatus::Executed)
                    ==> m2.proposals[i].signatures.len() >= m.board->0.threshold
                &&& forall|j: int|
                    m.proposals[i].signatures.len() <= j < m2.proposals[i].signatures.len()
                        ==> m.board->0.members.contains(m2.proposals[i].signatures[j])
            },
{
}

/// The admin never changes once set, and neither does the fact that the
/// board is set; only `initialize` sets them, and only once.
pub proof fn law_admin_fixed(m: ForgeView, c: Call, now: u64)
    requires
        inv(m),
    ensures
        step(m, c, now) matches Ok((m2, _)) ==> {
            &&& m.admin is Some ==> m2.admin == m.admin
            &&& m.board is Some ==> m2.board is Some
            &&& (m.board is None && m2.board is Some) ==> c is Initialize
        },
        c is Initialize && m.board is Some ==> step(m, c, now) == Err::<
            Accepted,
            Error,
        >(Error::AlreadyInitialized),
{
}

/// Proposal ids are handed out in order: only creating a proposal adds one,
/// and it gets the next id.
pub proof fn law_ids_in_order(m: ForgeView, c: Call, now: u64)
    requires
        inv(m),
    ensures
        step(m, c, now) matches Ok((m2, _)) ==> m2.proposals.len() == m.proposals.len() + if c
            is CreateProposal {
            1int
        } else {
            0int
        },
{
}

/// An accepted signature comes from a board member who had not signed yet,
/// adds exactly that signature at the end, and executes the proposal exactly
/// when the signatures reach the board's threshold; until then the proposal
/// stays pending.
pub proof fn law_sign_executes_at_quorum(m: ForgeView, signer: Address, id: u64, now: u64)
    requires
        inv(m),
    ensures
        sign_step(m, signer, id, now) matches Ok((m2, _)) ==> {
            &&& m.board->0.members.contains(signer)
            &&& !m.proposals[id - 1].signatures.contains(signer)
            &&& m2.proposals[id - 1].signatures == m.proposals[id - 1].signatures.push(signer)
            &&& (m2.proposals[id - 1].status == ProposalStatus::Executed
                <==> m2.proposals[id - 1].signatures.len() >= m.board->0.threshold)
            &&& (m2.proposals[id - 1].status != ProposalStatus::Executed
                ==> m2.proposals[id - 1].status == ProposalStatus::Pending)
        },
{
}

/// Only the proposer or the admin can cancel a proposal.
pub proof fn law_cancel_authorized(m: ForgeView, id: u64, canceller: Address, now: u64)
    requires
        inv(m),
    ensures
        cancel_step(m, id, canceller, now) is Ok ==> canceller == m.proposals[id - 1].proposer
            || m.admin == Some(canceller),
{
}

/// A proposal takes signatures only until its expiry time, and can be
/// expired only after it.
pub proof fn law_expiry_window(m: ForgeView, signer: Address, id: u64, now: u64)
    requires
        inv(m),
    ensures
        sign_step(m, signer, id, now) is Ok ==> now <= m.proposals[id - 1].expires_at,
        expire_step(m, id, now) is Ok ==> now > m.proposals[id - 1].expires_at,
{
}

/// The board's threshold does not exceed its number of members.
pub open spec fn threshold_within_board(m: ForgeView) -> bool {
    m.board matches Some(b) ==> b.threshold <= b.members.len()
}

/// Whether the call carries out a proposal that removes a member.
pub open spec fn removes_member(m: ForgeView, c: Call) -> bool {
    match c {
        Call::SignProposal { proposal_id, .. } => lookup(m, proposal_id) matches Some(p)
            && p.payload is RemoveMember,
        Call::ExecuteProposal { proposal_id } => lookup(m, proposal_id) matches Some(p)
            && p.payload is RemoveMember,
        _ => false,
    }
}

/// The proposal that a sign or execute call is about.
pub open spec fn call_target(c: Call) -> u64 {
    match c {
        Call::SignProposal { proposal_id, .. } => proposal_id,
        Call::ExecuteProposal { proposal_id } => proposal_id,
        _ => 0,
    }
}

/// The member that a `RemoveMember` payload removes.
pub open spec fn removed_by(p: ProposalView) -> Address {
    match p.payload {
        PayloadView::RemoveMember(q) => q.member,
        _ => arbitrary(),
    }
}

/// The threshold never exceeds the board's size except through carrying out
/// a `RemoveMember` proposal. That removal keeps the threshold as it is and
/// takes every occurrence of the member off the board, so it keeps the
/// threshold within the board exactly when the members that remain are at
/// least as many as the threshold; a signature that does not yet reach the
/// threshold leaves the board as it is.
pub proof fn law_threshold_within_board(m: ForgeView, c: Call, now: u64)
    requires
        inv(m),
        threshold_within_board(m),
    ensures
        step(m, c, now) matches Ok((m2, _)) ==> {
            &&& !removes_member(m, c) ==> threshold_within_board(m2)
            &&& removes_member(m, c) ==> {
                let b = m.board->0;
                let id = call_target(c);
                let remaining = without(b.members, removed_by(m.proposals[id - 1]));
                if m2.proposals[id - 1].status == ProposalStatus::Executed {
                    &&& m2.board == Some(BoardView { members: remaining, ..b })
                    &&& (threshold_within_board(m2) <==> remaining.len() >= b.threshold)
                } else {
                    m2.board == m.board
                }
            }
        },
{
}

/// Every proposal has exactly one status, so the four status counts add up to
/// the number of proposals.
pub proof fn law_stats_partition(s: Seq<ProposalView>)
    ensures
        status_count(s, ProposalStatus::Executed) + status_count(s, ProposalStatus::Pending)
            + status_count(s, ProposalStatus::Cancelled) + status_count(s, ProposalStatus::Expired)
            == s.len(),
    decreases s.len(),
{
    if s.len() > 0 {
        law_stats_partition(s.drop_last());
    }
}

// ── Laws over sequences of calls ────────────────────────────────────────────

/// A freshly deployed contract satisfies the invariant.
pub proof fn law_initial_invariant()
    ensures
        inv(initial()),
{
}

/// Making the calls of `a` and then those of `b` is making the calls of
/// `a + b`.
pub proof fn lemma_run_append(m: ForgeView, a: Seq<(Call, u64)>, b: Seq<(Call, u64)>)
    ensures
        run(m, a + b) == match run(m, a) {
            Some(m1) => run(m1, b),
            None => None,
        },
    decreases b.len(),
{
    if b.len() == 0 {
        assert(a + b =~= a);
    } else {
        assert((a + b).drop_last() =~= a + b.drop_last());
        assert((a + b).last() == b.last());
        lemma_run_append(m, a, b.drop_last());
        if let Some(m1) = run(m, a) {
            if run(m1, b.drop_last()) is None {
                assert(run(m1, b) is None);
            }
        }
    }
}

/// Every state reached by accepted calls satisfies the invariant; in
/// particular every state reached from a fresh deployment does.
pub proof fn law_run_keeps_invariant(m: ForgeView, calls: Seq<(Call, u64)>)
    requires
        inv(m),
    ensures
        run(m, calls) matches Some(m2) ==> inv(m2),
    decreases calls.len(),
{
    if calls.len() > 0 {
        law_run_keeps_invariant(m, calls.drop_last());
        if let Some(m1) = run(m, calls.drop_last()) {
            law_calls_keep_invariant(m1, calls.last().0, calls.last().1);
        }
    }
}

/// Every state reached from a fresh deployment satisfies the invariant.
pub proof fn law_reachable_invariant(calls: Seq<(Call, u64)>)
    ensures
        run(initial(), calls) matches Some(m) ==> inv(m),
{
    law_run_keeps_invariant(initial(), calls);
}

/// `proposal_evolves` is transitive.
pub proof fn lemma_evolves_transitive(p: ProposalView, q: ProposalView, r: ProposalView)
    requires
        proposal_evolves(p, q),
        proposal_evolves(q, r),
    ensures
        proposal_evolves(p, r),
{
    let np = p.signatures.len() as int;
    let nq = q.signatures.len() as int;
    assert(r.signatures.take(np) =~= r.signatures.take(nq).take(np));
    assert(q.signatures.take(np) =~= p.signatures);
}

/// Over any sequence of accepted calls, no proposal is removed, fixed fields
/// never change, signatures are never withdrawn, and a proposal that is
/// executed, cancelled or expired stays exactly as it is.
pub proof fn law_run_proposals_evolve(m: ForgeView, calls: Seq<(Call, u64)>)
    requires
        inv(m),
    ensures
        run(m, calls) matches Some(m2) ==> m.proposals.len() <= m2.proposals.len() && forall|
            i: int,
        |
            0 <= i < m.proposals.len() ==> #[trigger] proposal_evolves(
                m.proposals[i],
                m2.proposals[i],
            ),
    decreases calls.len(),
{
    if calls.len() == 0 {
        if let Some(m2) = run(m, calls) {
            assert forall|i: int| 0 <= i < m.proposals.len() implies #[trigger] proposal_evolves(
                m.proposals[i],
                m2.proposals[i],
            ) by {
                let p = m.proposals[i];
                assert(p.signatures.take(p.signatures.len() as int) =~= p.signatures);
            }
        }
    } else {
        law_run_proposals_evolve(m, calls.drop_last());
        law_run_keeps_invariant(m, calls.drop_last());
        if let Some(m1) = run(m, calls.drop_last()) {
            law_proposals_evolve(m1, calls.last().0, calls.last().1);
            if let Some(m2) = run(m, calls) {
                assert forall|i: int| 0 <= i < m.proposals.len() implies #[trigger] proposal_evolves(
                    m.proposals[i],
                    m2.proposals[i],
                ) by {
                    assert(proposal_evolves(m.proposals[i], m1.proposals[i]));
                    assert(proposal_evolves(m1.proposals[i], m2.proposals[i]));
                    lemma_evolves_transitive(m.proposals[i], m1.proposals[i], m2.proposals[i]);
                }
            }
        }
    }
}

/// Over any sequence of accepted calls the admin never changes once set, the
/// board stays set, and a further `initialize` is refused with
/// `AlreadyInitialized`.
pub proof fn law_run_admin_kept(
    m: ForgeView,
    calls: Seq<(Call, u64)>,
    admin: Address,
    members: Seq<Address>,
    threshold: u32,
    now: u64,
)
    requires
        inv(m),
        m.board is Some,
    ensures
        run(m, calls) matches Some(m2) ==> {
            &&& m2.admin == m.admin
            &&& m2.board is Some
            &&& step(m2, Call::Initialize { admin, members, threshold }, now) == Err::<Accepted, Error>(
                Error::AlreadyInitialized,
            )
        },
    decreases calls.len(),
{
    if calls.len() > 0 {
        law_run_admin_kept(m, calls.drop_last(), admin, members, threshold, now);
        law_run_keeps_invariant(m, calls.drop_last());
        if let Some(m1) = run(m, calls.drop_last()) {
            law_admin_fixed(m1, calls.last().0, calls.last().1);
        }
    }
}

/// Over any sequence of accepted calls the number of proposals grows by the
/// number of calls that create one.
pub proof fn law_run_count(m: ForgeView, calls: Seq<(Call, u64)>)
    requires
        inv(m),
    ensures
        run(m, calls) matches Some(m2) ==> m2.proposals.len() == m.proposals.len() + creations(
            calls,
        ),
    decreases calls.len(),
{
    if calls.len() > 0 {
        law_run_count(m, calls.drop_last());
        law_run_keeps_invariant(m, calls.drop_last());
        if let Some(m1) = run(m, calls.drop_last()) {
            law_ids_in_order(m1, calls.last().0, calls.last().1);
        }
    }
}

/// Proposal ids are handed out in order and never reused: a proposal created
/// by the last of a sequence of accepted calls gets the id one past the
/// number of proposals before the sequence plus the creations in it; from a
/// fresh deployment, the `k`-th proposal created gets id `k`.
pub proof fn law_creation_ids(m: ForgeView, calls: Seq<(Call, u64)>)
    requires
        inv(m),
        calls.len() > 0,
        calls.last().0 is CreateProposal,
    ensures
        run(m, calls) matches Some(m2) ==> m2.proposals.last().proposal_id == m.proposals.len()
            + creations(calls),
{
    law_run_count(m, calls.drop_last());
    law_run_count(m, calls);
    law_run_keeps_invariant(m, calls);
    if let Some(m2) = run(m, calls) {
        assert(proposal_wf(m2.proposals[m2.proposals.len() - 1], m2.proposals.len() - 1));
    }
}

// ── Laws about single calls ─────────────────────────────────────────────────

/// The stored proposals are exactly those with ids `1..=count`, each stored
/// under its own id.
pub proof fn law_lookup_ids(m: ForgeView, id: u64)
    requires
        inv(m),
    ensures
        lookup(m, id) is Some <==> 1 <= id <= m.proposals.len(),
        lookup(m, id) matches Some(p) ==> p.proposal_id == id,
{
    if 1 <= id <= m.proposals.len() {
        assert(proposal_wf(m.proposals[id - 1], id - 1));
    }
}

/// A proposal that is executed, cancelled or expired refuses every further
/// call on it: once the board and membership (or authorization) checks pass,
/// with `NotPending`. So its payload is never carried out twice.
pub proof fn law_finished_refuses(
    m: ForgeView,
    id: u64,
    signer: Address,
    canceller: Address,
    now: u64,
)
    requires
        inv(m),
        lookup(m, id) matches Some(p) && p.status != ProposalStatus::Pending,
    ensures
        sign_step(m, signer, id, now) is Err,
        execute_step(m, id, now) is Err,
        cancel_step(m, id, canceller, now) is Err,
        expire_step(m, id, now) == Err::<Accepted, Error>(Error::NotPending),
        m.board matches Some(b) && b.members.contains(signer) ==> sign_step(m, signer, id, now)
            == Err::<Accepted, Error>(Error::NotPending),
        m.board is Some ==> execute_step(m, id, now) == Err::<Accepted, Error>(Error::NotPending),
        (m.admin == Some(canceller) || canceller == m.proposals[id - 1].proposer) ==> cancel_step(
            m,
            id,
            canceller,
            now,
        ) == Err::<Accepted, Error>(Error::NotPending),
{
}

/// For a pending proposal and a member who has not signed it, at every time
/// exactly one of the two time checks passes: signing passes its expiry
/// check exactly when expiring is refused as not yet expired, and expiring
/// succeeds exactly when signing is refused as expired.
pub proof fn law_expiry_exactly_one(m: ForgeView, signer: Address, id: u64, now: u64)
    requires
        inv(m),
        lookup(m, id) matches Some(p) && p.status == ProposalStatus::Pending
            && !p.signatures.contains(signer) && p.signatures.len() < u32::MAX,
        m.board matches Some(b) && b.members.contains(signer),
    ensures
        expire_step(m, id, now) is Ok <==> sign_step(m, signer, id, now) == Err::<Accepted, Error>(
            Error::ProposalExpired,
        ),
        expire_step(m, id, now) == Err::<Accepted, Error>(Error::NotYetExpired) <==> sign_step(
            m,
            signer,
            id,
            now,
        ) != Err::<Accepted, Error>(Error::ProposalExpired),
{
}

/// When the last needed signature arrives but the payload cannot be carried
/// out (the threshold would be invalid, the member already sits on the board,
/// or the board is full), the whole call is refused with that error; the
/// signature is not kept, since a refused call changes nothing (`agrees` in
/// each call's contract). The same holds of `execute_proposal`.
pub proof fn law_failed_execution_refuses_call(m: ForgeView, signer: Address, id: u64, now: u64)
    requires
        inv(m),
        m.board matches Some(b) && lookup(m, id) matches Some(p) && execution_error(b, p.payload)
            is Some,
    ensures
        ({
            let b = m.board->0;
            let p = m.proposals[id - 1];
            let e = execution_error(b, p.payload)->0;
            &&& (b.members.contains(signer) && p.status == ProposalStatus::Pending && now
                <= p.expires_at && !p.signatures.contains(signer) && p.signatures.len() < u32::MAX
                && p.signatures.len() + 1 >= b.threshold) ==> sign_step(m, signer, id, now)
                == Err::<Accepted, Error>(e)
            &&& (p.status == ProposalStatus::Pending && p.signatures.len() >= b.threshold)
                ==> execute_step(m, id, now) == Err::<Accepted, Error>(e)
        }),
{
    let b = m.board->0;
    let p = m.proposals[id - 1];
    let signed = ProposalView { signatures: p.signatures.push(signer), ..p };
    assert(signed.payload == p.payload);
}

/// Once an `AddMember` proposal has been carried out, the new member sits on
/// the board and can at once open and sign proposals: neither is refused as
/// coming from a non-member.
pub proof fn law_added_member_can_act(
    m: ForgeView,
    b: BoardView,
    id: u64,
    p: ProposalView,
    now: u64,
    new_member: Address,
    proposal_type: ProposalType,
    payload: PayloadView,
    description: Seq<u8>,
    ttl_seconds: Option<u64>,
    id2: u64,
    later: u64,
)
    requires
        p.payload == PayloadView::AddMember(AddMemberPayload { new_member }),
        execute(m, b, id, p, now) is Ok,
    ensures
        execute(m, b, id, p, now) matches Ok((m2, _)) && {
            &&& m2.board->0.members.contains(new_member)
            &&& create_step(m2, new_member, proposal_type, payload, description, ttl_seconds, later)
                != Err::<Accepted, Error>(Error::NotMember)
            &&& sign_step(m2, new_member, id2, later) != Err::<Accepted, Error>(Error::NotMember)
        },
{
    let m2 = execute(m, b, id, p, now)->Ok_0.0;
    assert(m2.board->0.members.last() == new_member);
}

/// Each status count is the number of proposals that the status query
/// returns, and the four add up to the number of proposals; so `get_stats`
/// agrees with `get_proposal_count` and `get_proposals_by_status`.
pub proof fn law_stats_match_queries(s: Seq<ProposalView>)
    ensures
        forall|st: ProposalStatus| #[trigger] status_count(s, st) == with_status(s, st).len(),
        stats_of(s).total_proposals == s.len() as u64,
        status_count(s, ProposalStatus::Executed) + status_count(s, ProposalStatus::Pending)
            + status_count(s, ProposalStatus::Cancelled) + status_count(s, ProposalStatus::Expired)
            == s.len(),
    decreases s.len(),
{
    law_stats_partition(s);
    if s.len() > 0 {
        law_stats_match_queries(s.drop_last());
        assert forall|st: ProposalStatus| #[trigger] status_count(s, st) == with_status(s, st).len() by {
            assert(status_count(s.drop_last(), st) == with_status(s.drop_last(), st).len());
            reveal(Seq::filter);
        }
    } else {
        assert forall|st: ProposalStatus| #[trigger] status_count(s, st) == with_status(s, st).len() by {
            reveal(Seq::filter);
        }
    }
}


// ── What each call does, stated from its inputs ─────────────────────────────

/// The list `s` without any occurrence of `a`, the others kept in order.
pub open spec fn all_but(s: Seq<Address>, a: Address) -> Seq<Address>
    decreases s.len(),
{
    if s.len() == 0 {
        s
    } else if s.last() == a {
        all_but(s.drop_last(), a)
    } else {
        all_but(s.drop_last(), a).push(s.last())
    }
}

/// Removing a member from the board's list keeps every other member, in
/// order, and drops every occurrence of it.
pub proof fn law_without_is_all_but(s: Seq<Address>, a: Address)
    ensures
        without(s, a) == all_but(s, a),
    decreases s.len(),
{
    reveal(Seq::filter);
    if s.len() > 0 {
        law_without_is_all_but(s.drop_last(), a);
    }
}

/// `b2` is the board `b` after carrying out `payload`: adding appends the new
/// member and keeps the threshold; removing drops every occurrence of the
/// member, keeps the others in order and keeps the threshold; updating the
/// threshold sets it to the new value and keeps the members; paying out
/// leaves the board as it is.
pub open spec fn board_changed_by(b: BoardView, payload: PayloadView, b2: BoardView) -> bool {
    &&& b2.created_at == b.created_at
    &&& match payload {
        PayloadView::AddMember(q) => b2.members == b.members.push(q.new_member) && b2.threshold
            == b.threshold,
        PayloadView::RemoveMember(q) => b2.threshold == b.threshold && b2.members == all_but(
            b.members,
            q.member,
        ),
        PayloadView::UpdateThreshold(q) => b2.members == b.members && b2.threshold
            == q.new_threshold,
        _ => b2.members == b.members && b2.threshold == b.threshold,
    }
}

/// Whether `payload` can be carried out on board `b`: a new member must not
/// already sit on a board of fewer than 20, and a new threshold must be
/// between 1 and the number of members.
pub open spec fn can_carry_out(b: BoardView, payload: PayloadView) -> bool {
    match payload {
        PayloadView::AddMember(q) => !b.members.contains(q.new_member) && b.members.len() < 20,
        PayloadView::UpdateThreshold(q) => 1 <= q.new_threshold <= b.members.len(),
        _ => true,
    }
}

/// `actions` are those of carrying out proposal `id` (in its form `p`):
/// a payout proposal first transfers its amount of its asset to its
/// contributor or recipient, nothing else transfers tokens, and the last action
/// publishes the execution.
pub open spec fn execution_actions(actions: Seq<ActionView>, id: u64, p: ProposalView, now: u64) -> bool {
    &&& actions.len() >= 1
    &&& actions.last() == ActionView::Publish(
        EventView::ProposalExecuted { proposal_id: id, proposal_type: p.proposal_type, timestamp: now },
    )
    &&& match p.payload {
        PayloadView::ResolveIssue(q) => actions[0] == ActionView::Transfer(
            Transfer::Payout { asset: q.asset, to: q.contributor, amount: q.amount },
        ) && forall|i: int| 1 <= i < actions.len() ==> #[trigger] actions[i] is Publish,
        PayloadView::TransferFunds(q) => actions[0] == ActionView::Transfer(
            Transfer::Payout { asset: q.asset, to: q.recipient, amount: q.amount },
        ) && forall|i: int| 1 <= i < actions.len() ==> #[trigger] actions[i] is Publish,
        _ => forall|i: int| 0 <= i < actions.len() ==> #[trigger] actions[i] is Publish,
    }
}

/// `m2` is `m` with proposal `id` (in its form `p`, on board `b`) carried
/// out: the board changed by the payload, the proposal executed at `now`,
/// everything else as it was.
pub open spec fn carried_out(
    m: ForgeView,
    m2: ForgeView,
    b: BoardView,
    id: u64,
    p: ProposalView,
    now: u64,
) -> bool {
    &&& m2.admin == m.admin
    &&& m2.board matches Some(b2) && board_changed_by(b, p.payload, b2)
    &&& m2.proposals.len() == m.proposals.len()
    &&& m2.proposals[id - 1] == ProposalView {
        status: ProposalStatus::Executed,
        executed_at: Some(now),
        ..p
    }
    &&& forall|i: int|
        0 <= i < m.proposals.len() && i != id - 1 ==> #[trigger] m2.proposals[i] == m.proposals[i]
}

/// Carrying out a proposal is accepted exactly when `can_carry_out` holds;
/// then the board changes as its payload says and nothing else but the
/// proposal changes; a payout transfers exactly what it names.
pub proof fn law_execute_does(m: ForgeView, b: BoardView, id: u64, p: ProposalView, now: u64)
    requires
        inv(m),
        m.board == Some(b),
        1 <= id <= m.proposals.len(),
    ensures
        execute(m, b, id, p, now) is Ok <==> can_carry_out(b, p.payload),
        execute(m, b, id, p, now) matches Ok((m2, eff)) ==> carried_out(m, m2, b, id, p, now)
            && execution_actions(eff.actions, id, p, now),
{
    if let Ok((m2, eff)) = execute(m, b, id, p, now) {
        assert(m2.board->0.created_at == b.created_at);
        if let PayloadView::RemoveMember(q) = p.payload {
            law_without_is_all_but(b.members, q.member);
        }
        assert(board_changed_by(b, p.payload, m2.board->0));
        assert(carried_out(m, m2, b, id, p, now));
        assert(eff.actions.last() == ActionView::Publish(
            EventView::ProposalExecuted { proposal_id: id, proposal_type: p.proposal_type, timestamp: now },
        ));
        assert(execution_actions(eff.actions, id, p, now));
    }
}

/// Initializing is accepted exactly on a contract without a board, with 1 to
/// 20 members and a threshold between 1 and their number; it stores exactly
/// that board, created now, and that admin, and publishes it.
pub proof fn law_initialize_does(
    m: ForgeView,
    admin: Address,
    members: Seq<Address>,
    threshold: u32,
    now: u64,
)
    requires
        inv(m),
    ensures
        initialize_step(m, admin, members, threshold, now) is Ok <==> (m.board is None && 1
            <= members.len() <= 20 && 1 <= threshold <= members.len()),
        initialize_step(m, admin, members, threshold, now) matches Ok((m2, eff)) ==> {
            &&& m2.board == Some(BoardView { members, threshold, created_at: now })
            &&& m2.admin == Some(admin)
            &&& m2.proposals == m.proposals
            &&& eff.actions == seq![
                ActionView::Publish(EventView::BoardInitialized { members, threshold, timestamp: now }),
            ]
        },
{
}

/// Creating is accepted exactly when the proposer is a member, the time to
/// live is at most 30 days and the description at most 256 bytes (and the
/// expiry time and the count fit); the new proposal gets the next id,
/// expires exactly its time to live after now (7 days when none is given),
/// starts pending and unsigned, and everything else stays as it was.
pub proof fn law_create_does(
    m: ForgeView,
    proposer: Address,
    proposal_type: ProposalType,
    payload: PayloadView,
    description: Seq<u8>,
    ttl_seconds: Option<u64>,
    now: u64,
)
    requires
        inv(m),
    ensures
        ({
            let ttl: int = match ttl_seconds {
                Some(t) => t as int,
                None => 604_800,
            };
            create_step(m, proposer, proposal_type, payload, description, ttl_seconds, now) is Ok
                <==> (m.board is Some && m.board->0.members.contains(proposer) && ttl <= 2_592_000
                && description.len() <= 256 && now + ttl <= u64::MAX && m.proposals.len()
                < u64::MAX)
        }),
        create_step(m, proposer, proposal_type, payload, description, ttl_seconds, now) matches Ok(
            (m2, eff),
        ) ==> {
            let ttl: int = match ttl_seconds {
                Some(t) => t as int,
                None => 604_800,
            };
            let id = (m.proposals.len() + 1) as u64;
            let p = ProposalView {
                proposal_id: id,
                proposer,
                proposal_type,
                payload,
                signatures: Seq::empty(),
                status: ProposalStatus::Pending,
                created_at: now,
                expires_at: (now + ttl) as u64,
                executed_at: None,
                cancelled_at: None,
                description,
            };
            &&& p.expires_at == now + ttl
            &&& m2.board == m.board
            &&& m2.admin == m.admin
            &&& m2.proposals == m.proposals.push(p)
            &&& eff.actions == seq![
                ActionView::Publish(
                    EventView::ProposalCreated {
                        proposal_id: id,
                        proposer,
                        proposal_type,
                        expires_at: p.expires_at,
                    },
                ),
            ]
        },
{
}

/// Signing is accepted exactly when the signer is a member, the proposal
/// exists, is pending, has not expired, does not hold the signer yet (and
/// can take one more signature), and, when this signature reaches the
/// threshold, the payload can be carried out. The signature is appended;
/// below the threshold nothing else changes and only the signature is
/// published; at the threshold the proposal is carried out in the same call,
/// after the signature and quorum events.
pub proof fn law_sign_does(m: ForgeView, signer: Address, id: u64, now: u64)
    requires
        inv(m),
    ensures
        sign_step(m, signer, id, now) is Ok <==> (m.board is Some && lookup(m, id) is Some && {
            let b = m.board->0;
            let p = lookup(m, id)->0;
            &&& b.members.contains(signer)
            &&& p.status == ProposalStatus::Pending
            &&& now <= p.expires_at
            &&& !p.signatures.contains(signer)
            &&& p.signatures.len() < u32::MAX
            &&& (p.signatures.len() + 1 >= b.threshold ==> can_carry_out(b, p.payload))
        }),
        sign_step(m, signer, id, now) matches Ok((m2, eff)) ==> {
            let b = m.board->0;
            let p = m.proposals[id - 1];
            let signed = ProposalView { signatures: p.signatures.push(signer), ..p };
            let count = signed.signatures.len();
            let signed_event = ActionView::Publish(
                EventView::ProposalSigned {
                    proposal_id: id,
                    signer,
                    signatures_count: count as u32,
                    threshold: b.threshold,
                },
            );
            if count >= b.threshold {
                &&& carried_out(m, m2, b, id, signed, now)
                &&& eff.actions.len() >= 2
                &&& eff.actions[0] == signed_event
                &&& eff.actions[1] == ActionView::Publish(
                    EventView::QuorumReached {
                        proposal_id: id,
                        signatures_count: count as u32,
                        threshold: b.threshold,
                        timestamp: now,
                    },
                )
                &&& execution_actions(eff.actions.subrange(2, eff.actions.len() as int), id, signed, now)
            } else {
                &&& m2.board == m.board
                &&& m2.admin == m.admin
                &&& m2.proposals == m.proposals.update(id - 1, signed)
                &&& eff.actions == seq![signed_event]
            }
        },
{
    if let Some(b) = m.board {
        if let Some(p) = lookup(m, id) {
            let signed = ProposalView { signatures: p.signatures.push(signer), ..p };
            law_execute_does(m, b, id, signed, now);
            if let Ok((m2, eff)) = sign_step(m, signer, id, now) {
                if signed.signatures.len() >= b.threshold {
                    let (m3, eff3) = execute(m, b, id, signed, now)->Ok_0;
                    assert(eff.actions.subrange(2, eff.actions.len() as int) =~= eff3.actions);
                }
            }
        }
    }
}

/// Executing is accepted exactly on an existing pending proposal whose
/// signatures reach the threshold and whose payload can be carried out; it
/// then carries it out.
pub proof fn law_execute_proposal_does(m: ForgeView, id: u64, now: u64)
    requires
        inv(m),
    ensures
        execute_step(m, id, now) is Ok <==> (m.board is Some && lookup(m, id) is Some && {
            let b = m.board->0;
            let p = lookup(m, id)->0;
            &&& p.status == ProposalStatus::Pending
            &&& p.signatures.len() >= b.threshold
            &&& can_carry_out(b, p.payload)
        }),
        execute_step(m, id, now) matches Ok((m2, eff)) ==> carried_out(
            m,
            m2,
            m.board->0,
            id,
            m.proposals[id - 1],
            now,
        ) && execution_actions(eff.actions, id, m.proposals[id - 1], now),
{
    if let Some(b) = m.board {
        if 1 <= id <= m.proposals.len() {
            law_execute_does(m, b, id, m.proposals[id - 1], now);
        }
    }
}

/// Cancelling is accepted exactly on an existing pending proposal, by its
/// proposer or the admin; it marks it cancelled at `now` and changes nothing
/// else.
pub proof fn law_cancel_does(m: ForgeView, id: u64, canceller: Address, now: u64)
    requires
        inv(m),
    ensures
        cancel_step(m, id, canceller, now) is Ok <==> (m.admin is Some && lookup(m, id) is Some && {
            let p = lookup(m, id)->0;
            &&& (canceller == p.proposer || canceller == m.admin->0)
            &&& p.status == ProposalStatus::Pending
        }),
        cancel_step(m, id, canceller, now) matches Ok((m2, eff)) ==> {
            &&& m2.board == m.board
            &&& m2.admin == m.admin
            &&& m2.proposals == m.proposals.update(
                id - 1,
                ProposalView {
                    status: ProposalStatus::Cancelled,
                    cancelled_at: Some(now),
                    ..m.proposals[id - 1]
                },
            )
            &&& eff.actions == seq![
                ActionView::Publish(
                    EventView::ProposalCancelled { proposal_id: id, canceller, timestamp: now },
                ),
            ]
        },
{
}

/// Expiring is accepted exactly on an existing pending proposal after its
/// expiry time; it marks it expired and changes nothing else.
pub proof fn law_expire_does(m: ForgeView, id: u64, now: u64)
    requires
        inv(m),
    ensures
        expire_step(m, id, now) is Ok <==> (lookup(m, id) is Some && lookup(m, id)->0.status
            == ProposalStatus::Pending && now > lookup(m, id)->0.expires_at),
        expire_step(m, id, now) matches Ok((m2, eff)) ==> {
            &&& m2.board == m.board
            &&& m2.admin == m.admin
            &&& m2.proposals == m.proposals.update(
                id - 1,
                ProposalView { status: ProposalStatus::Expired, ..m.proposals[id - 1] },
            )
            &&& eff.actions == seq![
                ActionView::Publish(EventView::ProposalExpired { proposal_id: id, timestamp: now }),
            ]
        },
{
}

// ── What the queries count and list ─────────────────────────────────────────

/// The signature total of no proposals is 0, and one more proposal adds its
/// number of signatures, whatever its status.
pub proof fn law_signature_total(s: Seq<ProposalView>, p: ProposalView)
    ensures
        signature_total(Seq::<ProposalView>::empty()) == 0,
        signature_total(s.push(p)) == signature_total(s) + p.signatures.len(),
{
    assert(s.push(p).drop_last() =~= s);
}

/// A status count of no proposals is 0, and one more proposal adds one to the
/// count of its own status only.
pub proof fn law_status_count(s: Seq<ProposalView>, p: ProposalView, st: ProposalStatus)
    ensures
        status_count(Seq::<ProposalView>::empty(), st) == 0,
        status_count(s.push(p), st) == status_count(s, st) + if p.status == st {
            1int
        } else {
            0int
        },
{
    assert(s.push(p).drop_last() =~= s);
}

/// The statistics report the number of proposals, the count of each status,
/// and the signature total, each in its own field.
pub proof fn law_stats_fields(s: Seq<ProposalView>)
    ensures
        stats_of(s) == (Stats {
            total_proposals: s.len() as u64,
            executed: status_count(s, ProposalStatus::Executed) as u64,
            pending: status_count(s, ProposalStatus::Pending) as u64,
            cancelled: status_count(s, ProposalStatus::Cancelled) as u64,
            expired: status_count(s, ProposalStatus::Expired) as u64,
            total_signatures: signature_total(s) as u64,
        }),
{
}

/// The proposals of `s` that `a` proposed or signed (anywhere among the
/// signatures), in order.
pub open spec fn listed_for(s: Seq<ProposalView>, a: Address) -> Seq<ProposalView>
    decreases s.len(),
{
    if s.len() == 0 {
        s
    } else if s.last().proposer == a || s.last().signatures.contains(a) {
        listed_for(s.drop_last(), a).push(s.last())
    } else {
        listed_for(s.drop_last(), a)
    }
}

/// The proposals of `s` with status `st`, in order.
pub open spec fn listed_with(s: Seq<ProposalView>, st: ProposalStatus) -> Seq<ProposalView>
    decreases s.len(),
{
    if s.len() == 0 {
        s
    } else if s.last().status == st {
        listed_with(s.drop_last(), st).push(s.last())
    } else {
        listed_with(s.drop_last(), st)
    }
}

/// A proposal involves a member exactly when the member proposed it or is
/// any of its signers; the member query lists exactly those proposals, in
/// order, and the status query exactly the proposals with that status.
pub proof fn law_queries_list(s: Seq<ProposalView>, p: ProposalView, a: Address, st: ProposalStatus)
    ensures
        involves(p, a) <==> (p.proposer == a || p.signatures.contains(a)),
        involving(s, a) == listed_for(s, a),
        with_status(s, st) == listed_with(s, st),
    decreases s.len(),
{
    reveal(Seq::filter);
    if s.len() > 0 {
        law_queries_list(s.drop_last(), p, a, st);
    }
}


// ── Why a call is refused ───────────────────────────────────────────────────

/// Every refusal names a rule that the call really broke: an unknown
/// proposal is not there, a stranger is not on the board, a finished
/// proposal is not pending, a late signature comes after the expiry time, a
/// second signature repeats a signer, an early execution lacks signatures, a
/// cancel comes from neither the proposer nor the admin, an early expiry
/// comes before the expiry time, and a refused payload cannot be carried out.
pub proof fn law_refusals_explained(m: ForgeView, a: Address, id: u64, now: u64)
    requires
        inv(m),
    ensures
        sign_step(m, a, id, now) matches Err(e) ==> match e {
            Error::NotInitialized => m.board is None,
            Error::NotMember => !m.board->0.members.contains(a),
            Error::ProposalNotFound => lookup(m, id) is None,
            Error::NotPending => lookup(m, id)->0.status != ProposalStatus::Pending,
            Error::ProposalExpired => now > lookup(m, id)->0.expires_at,
            Error::AlreadySigned => lookup(m, id)->0.signatures.contains(a),
            Error::TooManySignatures => lookup(m, id)->0.signatures.len() >= u32::MAX,
            _ => !can_carry_out(m.board->0, lookup(m, id)->0.payload),
        },
        execute_step(m, id, now) matches Err(e) ==> match e {
            Error::NotInitialized => m.board is None,
            Error::ProposalNotFound => lookup(m, id) is None,
            Error::NotPending => lookup(m, id)->0.status != ProposalStatus::Pending,
            Error::ThresholdNotMet => lookup(m, id)->0.signatures.len() < m.board->0.threshold,
            _ => !can_carry_out(m.board->0, lookup(m, id)->0.payload),
        },
        cancel_step(m, id, a, now) matches Err(e) ==> match e {
            Error::NotInitialized => m.admin is None,
            Error::ProposalNotFound => lookup(m, id) is None,
            Error::Unauthorized => a != lookup(m, id)->0.proposer && a != m.admin->0,
            _ => e == Error::NotPending && lookup(m, id)->0.status != ProposalStatus::Pending,
        },
        expire_step(m, id, now) matches Err(e) ==> match e {
            Error::ProposalNotFound => lookup(m, id) is None,
            Error::NotPending => lookup(m, id)->0.status != ProposalStatus::Pending,
            _ => e == Error::NotYetExpired && now <= lookup(m, id)->0.expires_at,
        },
{
}

} // verus!
