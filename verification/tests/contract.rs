//! The contract's behaviour, call by call, as a board and its treasury see it.

use quorumforge_contract::{
    Action, AddMemberPayload, Address, Effects, Error, Event, Proposal, ProposalPayload, ProposalStatus,
    ProposalType, QuorumForge, RemoveMemberPayload, ResolveIssuePayload, Stats, Transfer,
    TransferFundsPayload, UpdateThresholdPayload,
};

// ── Helpers ───────────────────────────────────────────────────────────────────

/// A contract with a 2-of-3 board, a ledger clock and a token treasury.
struct Setup {
    forge: QuorumForge,
    now: u64,
    contract: Address,
    admin: Address,
    alice: Address,
    bob: Address,
    carol: Address,
    asset: Address,
    /// (asset, holder, balance)
    balances: Vec<(Address, Address, i128)>,
    next_key: u8,
}

impl Setup {
    fn generate(&mut self) -> Address {
        self.next_key += 1;
        Address::account([self.next_key; 32])
    }

    fn balance(&self, asset: &Address, holder: &Address) -> i128 {
        self.balances
            .iter()
            .find(|(a, h, _)| a == asset && h == holder)
            .map(|(_, _, b)| *b)
            .unwrap_or(0)
    }

    fn credit(&mut self, asset: Address, holder: Address, amount: i128) {
        match self.balances.iter_mut().find(|(a, h, _)| *a == asset && *h == holder) {
            Some(entry) => entry.2 += amount,
            None => self.balances.push((asset, holder, amount)),
        }
    }

    /// Carries out what an accepted call asks for, or aborts with its message
    /// as the contract does.
    fn run(&mut self, r: Result<Effects, Error>) -> Effects {
        match r {
            Ok(eff) => {
                for t in transfers_of(&eff) {
                    match t {
                        Transfer::Payout { asset, to, amount } => {
                            assert!(self.balance(&asset, &self.contract) >= amount);
                            let contract = self.contract;
                            self.credit(asset, contract, -amount);
                            self.credit(asset, to, amount);
                        }
                        Transfer::Deposit { asset, from, amount } => {
                            let contract = self.contract;
                            self.credit(asset, from, -amount);
                            self.credit(asset, contract, amount);
                        }
                    }
                }
                eff
            }
            Err(e) => panic!("{}", e.message()),
        }
    }

    fn create_proposal(
        &mut self,
        proposer: &Address,
        proposal_type: &ProposalType,
        payload: &ProposalPayload,
        ttl_seconds: &Option<u64>,
    ) -> u64 {
        match self.forge.create_proposal(
            *proposer,
            *proposal_type,
            payload.clone(),
            Vec::new(),
            *ttl_seconds,
            self.now,
        ) {
            Ok((id, eff)) => {
                self.run(Ok(eff));
                id
            }
            Err(e) => panic!("{}", e.message()),
        }
    }

    fn sign_proposal(&mut self, signer: &Address, id: &u64) -> Effects {
        let r = self.forge.sign_proposal(*signer, *id, self.now);
        self.run(r)
    }

    fn execute_proposal(&mut self, id: &u64) -> Effects {
        let r = self.forge.execute_proposal(*id, self.now);
        self.run(r)
    }

    fn cancel_proposal(&mut self, id: &u64, canceller: &Address) -> Effects {
        let r = self.forge.cancel_proposal(*id, *canceller, self.now);
        self.run(r)
    }

    fn expire_proposal(&mut self, id: &u64) -> Effects {
        let r = self.forge.expire_proposal(*id, self.now);
        self.run(r)
    }

    fn get_proposal(&self, id: &u64) -> Proposal {
        self.forge.get_proposal(*id).map(|p| p.clone()).unwrap_or_else(|e| panic!("{}", e.message()))
    }

    fn get_stats(&self) -> Stats {
        self.forge.get_stats().unwrap_or_else(|e| panic!("{}", e.message()))
    }
}

/// The events an accepted call publishes, in order.
fn events_of(eff: &Effects) -> Vec<Event> {
    eff.actions
        .iter()
        .filter_map(|a| match a {
            Action::Publish(e) => Some(e.clone()),
            Action::Transfer(_) => None,
        })
        .collect()
}

/// The token transfers an accepted call makes, in order.
fn transfers_of(eff: &Effects) -> Vec<Transfer> {
    eff.actions
        .iter()
        .filter_map(|a| match a {
            Action::Transfer(t) => Some(*t),
            Action::Publish(_) => None,
        })
        .collect()
}

fn setup_board() -> Setup {
    let contract = Address::contract([200u8; 32]);
    let admin = Address::account([100u8; 32]);
    let alice = Address::account([101u8; 32]);
    let bob = Address::account([102u8; 32]);
    let carol = Address::account([103u8; 32]);
    let asset = Address::contract([201u8; 32]);
    let mut s = Setup {
        forge: QuorumForge::new(),
        now: 0,
        contract,
        admin,
        alice,
        bob,
        carol,
        asset,
        balances: Vec::new(),
        next_key: 0,
    };
    let members = vec![alice, bob, carol];
    let r = s.forge.initialize(admin, members, 2, s.now);
    s.run(r);
    // mint a token for transfer tests
    s.credit(asset, contract, 10_000);
    s
}

fn resolve_payload(s: &Setup) -> ProposalPayload {
    ProposalPayload::ResolveIssue(ResolveIssuePayload {
        issue_number: 42,
        contributor: s.carol,
        amount: 100,
        asset: s.asset,
    })
}

// ── Tests ─────────────────────────────────────────────────────────────────────

/// 2-of-3 happy path: create → sign × 2 → auto-execute
#[test]
fn test_happy_path_auto_execute() {
    let mut s = setup_board();
    let (alice, bob) = (s.alice, s.bob);

    let payload = resolve_payload(&s);
    let id = s.create_proposal(&alice, &ProposalType::ResolveIssue, &payload, &None);
    assert_eq!(id, 1);

    s.sign_proposal(&alice, &id);
    // after first sig, still pending
    let p = s.get_proposal(&id);
    assert_eq!(p.status, ProposalStatus::Pending);
    assert_eq!(p.signatures.len(), 1);

    s.sign_proposal(&bob, &id);
    // second sig hits threshold → executed
    let p = s.get_proposal(&id);
    assert_eq!(p.status, ProposalStatus::Executed);
    assert!(p.executed_at.is_some());
}

/// Signing twice by same member is rejected
#[test]
#[should_panic(expected = "already signed")]
fn test_double_sign_rejected() {
    let mut s = setup_board();
    let alice = s.alice;
    let payload = resolve_payload(&s);
    let id = s.create_proposal(&alice, &ProposalType::ResolveIssue, &payload, &None);
    s.sign_proposal(&alice, &id);
    s.sign_proposal(&alice, &id); // panic
}

/// Non-member cannot create a proposal
#[test]
#[should_panic(expected = "not a board member")]
fn test_non_member_create() {
    let mut s = setup_board();
    let outsider = s.generate();
    let payload = resolve_payload(&s);
    s.create_proposal(&outsider, &ProposalType::ResolveIssue, &payload, &None);
}

/// Non-member cannot sign a proposal
#[test]
#[should_panic(expected = "not a board member")]
fn test_non_member_sign() {
    let mut s = setup_board();
    let alice = s.alice;
    let payload = resolve_payload(&s);
    let id = s.create_proposal(&alice, &ProposalType::ResolveIssue, &payload, &None);
    let outsider = s.generate();
    s.sign_proposal(&outsider, &id);
}

/// Expired proposal cannot be signed
#[test]
#[should_panic(expected = "proposal expired")]
fn test_expired_cannot_sign() {
    let mut s = setup_board();
    let (alice, bob) = (s.alice, s.bob);
    let payload = resolve_payload(&s);
    // 60 second TTL
    let id = s.create_proposal(&alice, &ProposalType::ResolveIssue, &payload, &Some(60u64));
    // advance ledger past TTL
    s.now += 120;
    s.sign_proposal(&bob, &id);
}

/// Cancelled proposal cannot be signed
#[test]
#[should_panic(expected = "proposal not pending")]
fn test_cancelled_cannot_sign() {
    let mut s = setup_board();
    let (alice, bob) = (s.alice, s.bob);
    let payload = resolve_payload(&s);
    let id = s.create_proposal(&alice, &ProposalType::ResolveIssue, &payload, &None);
    s.cancel_proposal(&id, &alice);
    s.sign_proposal(&bob, &id);
}

/// AddMember proposal executes and board updates
#[test]
fn test_add_member() {
    let mut s = setup_board();
    let (alice, bob) = (s.alice, s.bob);
    let newcomer = s.generate();

    let payload = ProposalPayload::AddMember(AddMemberPayload { new_member: newcomer });
    let id = s.create_proposal(&alice, &ProposalType::AddMember, &payload, &None);
    s.sign_proposal(&alice, &id);
    s.sign_proposal(&bob, &id);

    let board = s.forge.get_board().unwrap();
    assert!(board.members.contains(&newcomer));
    assert_eq!(board.members.len(), 4);
}

/// RemoveMember proposal executes and board updates
#[test]
fn test_remove_member() {
    let mut s = setup_board();
    let (alice, bob, carol) = (s.alice, s.bob, s.carol);

    let payload = ProposalPayload::RemoveMember(RemoveMemberPayload { member: carol });
    let id = s.create_proposal(&alice, &ProposalType::RemoveMember, &payload, &None);
    s.sign_proposal(&alice, &id);
    s.sign_proposal(&bob, &id);

    let board = s.forge.get_board().unwrap();
    assert!(!board.members.contains(&carol));
    assert_eq!(board.members.len(), 2);
}

/// UpdateThreshold rejects if new threshold > member count
#[test]
#[should_panic(expected = "invalid threshold")]
fn test_update_threshold_too_high() {
    let mut s = setup_board();
    let (alice, bob) = (s.alice, s.bob);

    let payload = ProposalPayload::UpdateThreshold(UpdateThresholdPayload { new_threshold: 99 });
    let id = s.create_proposal(&alice, &ProposalType::UpdateThreshold, &payload, &None);
    s.sign_proposal(&alice, &id);
    s.sign_proposal(&bob, &id); // executes → panics
}

/// Public execute_proposal works when threshold already met
#[test]
fn test_public_execute_after_threshold() {
    let mut s = setup_board();
    let (alice, bob) = (s.alice, s.bob);

    let payload = resolve_payload(&s);
    let id = s.create_proposal(&alice, &ProposalType::ResolveIssue, &payload, &None);
    s.sign_proposal(&alice, &id);
    s.sign_proposal(&bob, &id);

    // already executed; calling again should panic
    // Instead test that public call works before threshold on a fresh proposal
    let id2 = s.create_proposal(&alice, &ProposalType::ResolveIssue, &payload, &None);
    s.sign_proposal(&alice, &id2);
    s.sign_proposal(&bob, &id2);
    // threshold met internally, proposal already executed
    let p = s.get_proposal(&id2);
    assert_eq!(p.status, ProposalStatus::Executed);
}

/// get_proposals_by_status returns correct filtered list
#[test]
fn test_get_proposals_by_status() {
    let mut s = setup_board();
    let (alice, bob) = (s.alice, s.bob);

    let payload = resolve_payload(&s);
    let id1 = s.create_proposal(&alice, &ProposalType::ResolveIssue, &payload, &None);
    let id2 = s.create_proposal(&bob, &ProposalType::ResolveIssue, &payload, &None);

    // execute id1
    s.sign_proposal(&alice, &id1);
    s.sign_proposal(&bob, &id1);

    // cancel id2
    s.cancel_proposal(&id2, &bob);

    let pending = s.forge.get_proposals_by_status(ProposalStatus::Pending);
    let executed = s.forge.get_proposals_by_status(ProposalStatus::Executed);
    let cancelled = s.forge.get_proposals_by_status(ProposalStatus::Cancelled);

    assert_eq!(pending.len(), 0);
    assert_eq!(executed.len(), 1);
    assert_eq!(cancelled.len(), 1);
}

/// expire_proposal transitions Pending → Expired
#[test]
fn test_expire_proposal() {
    let mut s = setup_board();
    let alice = s.alice;

    let payload = resolve_payload(&s);
    let id = s.create_proposal(&alice, &ProposalType::ResolveIssue, &payload, &Some(60u64));
    s.now += 120;
    s.expire_proposal(&id);
    let p = s.get_proposal(&id);
    assert_eq!(p.status, ProposalStatus::Expired);
}

/// TransferFunds payload moves tokens to recipient
#[test]
fn test_transfer_funds() {
    let mut s = setup_board();
    let (alice, bob, asset) = (s.alice, s.bob, s.asset);
    let recipient = s.generate();

    let payload = ProposalPayload::TransferFunds(TransferFundsPayload {
        recipient,
        amount: 500,
        asset,
        memo: b"bounty".to_vec(),
    });
    let id = s.create_proposal(&alice, &ProposalType::TransferFunds, &payload, &None);
    s.sign_proposal(&alice, &id);
    s.sign_proposal(&bob, &id);

    let balance = s.balance(&asset, &recipient);
    assert_eq!(balance, 500);
}

/// has_signed returns correct result before and after signing
#[test]
fn test_has_signed() {
    let mut s = setup_board();
    let (alice, bob) = (s.alice, s.bob);
    let payload = resolve_payload(&s);
    let id = s.create_proposal(&alice, &ProposalType::ResolveIssue, &payload, &None);

    assert!(!s.forge.has_signed(id, alice).unwrap());
    s.sign_proposal(&alice, &id);
    assert!(s.forge.has_signed(id, alice).unwrap());
    assert!(!s.forge.has_signed(id, bob).unwrap());
}

/// get_pending_proposals returns only pending proposals
#[test]
fn test_get_pending_proposals() {
    let mut s = setup_board();
    let (alice, bob) = (s.alice, s.bob);

    let payload = resolve_payload(&s);
    let id1 = s.create_proposal(&alice, &ProposalType::ResolveIssue, &payload, &None);
    let _id2 = s.create_proposal(&bob, &ProposalType::ResolveIssue, &payload, &None);

    // execute id1
    s.sign_proposal(&alice, &id1);
    s.sign_proposal(&bob, &id1);

    let pending = s.forge.get_pending_proposals();
    assert_eq!(pending.len(), 1);
}

/// get_stats returns correct aggregated counts
#[test]
fn test_get_stats() {
    let mut s = setup_board();
    let (alice, bob) = (s.alice, s.bob);

    let payload = resolve_payload(&s);
    let id1 = s.create_proposal(&alice, &ProposalType::ResolveIssue, &payload, &None);
    // execute id1 with 2 signatures
    s.sign_proposal(&alice, &id1);
    s.sign_proposal(&bob, &id1);

    let stats = s.get_stats();
    assert_eq!(stats.total_proposals, 1);
    assert_eq!(stats.executed, 1);
    assert_eq!(stats.pending, 0);
    assert_eq!(stats.total_signatures, 2);
}

/// cancelled_at is populated when a proposal is cancelled
#[test]
fn test_cancelled_at_is_set() {
    let mut s = setup_board();
    let alice = s.alice;
    let payload = resolve_payload(&s);
    let id = s.create_proposal(&alice, &ProposalType::ResolveIssue, &payload, &None);
    s.cancel_proposal(&id, &alice);
    let p = s.get_proposal(&id);
    assert_eq!(p.status, ProposalStatus::Cancelled);
    assert!(p.cancelled_at.is_some());
}

// ── Further behaviour ─────────────────────────────────────────────────────────

#[test]
fn resolve_issue_pays_the_contributor() {
    let mut s = setup_board();
    let (alice, bob, carol, asset, contract) = (s.alice, s.bob, s.carol, s.asset, s.contract);
    let payload = resolve_payload(&s);
    let id = s.create_proposal(&alice, &ProposalType::ResolveIssue, &payload, &None);
    s.sign_proposal(&alice, &id);
    let eff = s.sign_proposal(&bob, &id);
    assert_eq!(transfers_of(&eff), vec![Transfer::Payout { asset, to: carol, amount: 100 }]);
    assert_eq!(s.balance(&asset, &carol), 100);
    assert_eq!(s.balance(&asset, &contract), 9_900);
}

#[test]
fn signing_at_quorum_publishes_in_order() {
    let mut s = setup_board();
    let (alice, bob, carol) = (s.alice, s.bob, s.carol);
    let payload = ProposalPayload::RemoveMember(RemoveMemberPayload { member: carol });
    let id = s.create_proposal(&alice, &ProposalType::RemoveMember, &payload, &None);
    s.now = 50;
    let first = s.sign_proposal(&alice, &id);
    assert_eq!(
        events_of(&first),
        vec![Event::ProposalSigned { proposal_id: 1, signer: alice, signatures_count: 1, threshold: 2 }]
    );
    let second = s.sign_proposal(&bob, &id);
    assert_eq!(
        events_of(&second),
        vec![
            Event::ProposalSigned { proposal_id: 1, signer: bob, signatures_count: 2, threshold: 2 },
            Event::QuorumReached { proposal_id: 1, signatures_count: 2, threshold: 2, timestamp: 50 },
            Event::MemberRemoved { member: carol, members_count: 2, timestamp: 50 },
            Event::BoardUpdated { members_count: 2, threshold: 2, timestamp: 50 },
            Event::ProposalExecuted {
                proposal_id: 1,
                proposal_type: ProposalType::RemoveMember,
                timestamp: 50
            },
        ]
    );
    assert_eq!(s.get_proposal(&id).executed_at, Some(50));
}

#[test]
fn failed_execution_keeps_nothing() {
    let mut s = setup_board();
    let (alice, bob) = (s.alice, s.bob);
    let payload = ProposalPayload::UpdateThreshold(UpdateThresholdPayload { new_threshold: 0 });
    let id = s.create_proposal(&alice, &ProposalType::UpdateThreshold, &payload, &None);
    s.sign_proposal(&alice, &id);
    assert_eq!(s.forge.sign_proposal(bob, id, s.now), Err(Error::InvalidThreshold));
    let p = s.get_proposal(&id);
    assert_eq!(p.signatures, vec![alice]);
    assert_eq!(p.status, ProposalStatus::Pending);
    assert_eq!(s.forge.get_threshold(), Ok(2));
}

#[test]
fn update_threshold_lowers_the_bar() {
    let mut s = setup_board();
    let (alice, bob, carol) = (s.alice, s.bob, s.carol);
    let payload = ProposalPayload::UpdateThreshold(UpdateThresholdPayload { new_threshold: 1 });
    let id = s.create_proposal(&alice, &ProposalType::UpdateThreshold, &payload, &None);
    s.sign_proposal(&alice, &id);
    let eff = s.sign_proposal(&bob, &id);
    assert!(events_of(&eff).contains(&Event::ThresholdUpdated { old_threshold: 2, new_threshold: 1, timestamp: 0 }));
    assert_eq!(s.forge.get_threshold(), Ok(1));
    // now one signature is enough
    let payload = resolve_payload(&s);
    let id2 = s.create_proposal(&carol, &ProposalType::ResolveIssue, &payload, &None);
    s.sign_proposal(&carol, &id2);
    assert_eq!(s.get_proposal(&id2).status, ProposalStatus::Executed);
}

#[test]
fn execute_proposal_after_threshold_is_lowered() {
    let mut s = setup_board();
    let (alice, bob) = (s.alice, s.bob);
    let payload = resolve_payload(&s);
    let pending = s.create_proposal(&alice, &ProposalType::ResolveIssue, &payload, &None);
    s.sign_proposal(&alice, &pending);
    assert_eq!(s.forge.execute_proposal(pending, s.now), Err(Error::ThresholdNotMet));

    let lower = ProposalPayload::UpdateThreshold(UpdateThresholdPayload { new_threshold: 1 });
    let id = s.create_proposal(&alice, &ProposalType::UpdateThreshold, &lower, &None);
    s.sign_proposal(&alice, &id);
    s.sign_proposal(&bob, &id);

    s.execute_proposal(&pending);
    assert_eq!(s.get_proposal(&pending).status, ProposalStatus::Executed);
    assert_eq!(s.forge.execute_proposal(pending, s.now), Err(Error::NotPending));
}

#[test]
fn remove_member_may_leave_threshold_above_board_size() {
    let mut s = setup_board();
    let (alice, bob, carol) = (s.alice, s.bob, s.carol);
    for member in [carol, bob] {
        let payload = ProposalPayload::RemoveMember(RemoveMemberPayload { member });
        let id = s.create_proposal(&alice, &ProposalType::RemoveMember, &payload, &None);
        s.sign_proposal(&alice, &id);
        s.sign_proposal(&bob, &id);
    }
    assert_eq!(s.forge.get_member_count(), Ok(1));
    assert_eq!(s.forge.get_threshold(), Ok(2));
}

#[test]
fn add_existing_member_is_refused() {
    let mut s = setup_board();
    let (alice, bob, carol) = (s.alice, s.bob, s.carol);
    let payload = ProposalPayload::AddMember(AddMemberPayload { new_member: carol });
    let id = s.create_proposal(&alice, &ProposalType::AddMember, &payload, &None);
    s.sign_proposal(&alice, &id);
    assert_eq!(s.forge.sign_proposal(bob, id, s.now), Err(Error::MemberAlreadyExists));
}

#[test]
fn board_cannot_grow_past_capacity() {
    let mut forge = QuorumForge::new();
    let admin = Address::account([0u8; 32]);
    let members: Vec<Address> = (1..=20u8).map(|k| Address::account([k; 32])).collect();
    forge.initialize(admin, members.clone(), 1, 0).unwrap();
    let newcomer = Address::account([99u8; 32]);
    let payload = ProposalPayload::AddMember(AddMemberPayload { new_member: newcomer });
    let (id, _) = forge
        .create_proposal(members[0], ProposalType::AddMember, payload, Vec::new(), None, 0)
        .unwrap();
    assert_eq!(forge.sign_proposal(members[0], id, 0), Err(Error::BoardFull));
    assert_eq!(Error::BoardFull.message(), "board is at maximum capacity");
}

#[test]
fn initialize_checks_its_arguments() {
    let admin = Address::account([0u8; 32]);
    let a = Address::account([1u8; 32]);
    let mut forge = QuorumForge::new();
    assert!(!forge.is_initialized());
    assert_eq!(forge.initialize(admin, vec![], 1, 0), Err(Error::MembersEmpty));
    let many: Vec<Address> = (1..=21u8).map(|k| Address::account([k; 32])).collect();
    assert_eq!(forge.initialize(admin, many, 1, 0), Err(Error::TooManyMembers));
    assert_eq!(forge.initialize(admin, vec![a], 0, 0), Err(Error::InvalidThreshold));
    assert_eq!(forge.initialize(admin, vec![a], 2, 0), Err(Error::InvalidThreshold));
    let eff = forge.initialize(admin, vec![a], 1, 7).unwrap();
    assert_eq!(events_of(&eff), vec![Event::BoardInitialized { members: vec![a], threshold: 1, timestamp: 7 }]);
    assert!(forge.is_initialized());
    assert_eq!(forge.get_admin(), Ok(admin));
    assert_eq!(forge.get_board().unwrap().created_at, 7);
    assert_eq!(forge.initialize(admin, vec![a], 1, 0), Err(Error::AlreadyInitialized));
}

#[test]
fn calls_before_initialize_are_refused() {
    let mut forge = QuorumForge::new();
    let a = Address::account([1u8; 32]);
    let payload = ProposalPayload::AddMember(AddMemberPayload { new_member: a });
    assert_eq!(
        forge.create_proposal(a, ProposalType::AddMember, payload, Vec::new(), None, 0).unwrap_err(),
        Error::NotInitialized
    );
    assert_eq!(forge.sign_proposal(a, 1, 0), Err(Error::NotInitialized));
    assert_eq!(forge.execute_proposal(1, 0), Err(Error::NotInitialized));
    assert_eq!(forge.cancel_proposal(1, a, 0), Err(Error::NotInitialized));
    assert_eq!(forge.expire_proposal(1, 0), Err(Error::ProposalNotFound));
    assert_eq!(forge.is_member(a), Err(Error::NotInitialized));
    assert_eq!(forge.get_member_count(), Err(Error::NotInitialized));
    assert_eq!(forge.get_admin(), Err(Error::NotInitialized));
    assert_eq!(forge.get_proposal_count(), 0);
}

#[test]
fn create_checks_ttl_and_description() {
    let mut s = setup_board();
    let alice = s.alice;
    let payload = resolve_payload(&s);
    let too_long = 30 * 24 * 60 * 60 + 1;
    assert_eq!(
        s.forge
            .create_proposal(alice, ProposalType::ResolveIssue, payload.clone(), Vec::new(), Some(too_long), 0)
            .unwrap_err(),
        Error::TtlTooLong
    );
    assert_eq!(
        s.forge
            .create_proposal(alice, ProposalType::ResolveIssue, payload.clone(), vec![b'x'; 257], None, 0)
            .unwrap_err(),
        Error::DescriptionTooLong
    );
    assert_eq!(
        s.forge
            .create_proposal(alice, ProposalType::ResolveIssue, payload.clone(), Vec::new(), None, u64::MAX)
            .unwrap_err(),
        Error::ExpiryOverflow
    );
    let (id, eff) = s
        .forge
        .create_proposal(alice, ProposalType::ResolveIssue, payload, vec![b'x'; 256], None, 1_000)
        .unwrap();
    assert_eq!(id, 1);
    let expires_at = 1_000 + 7 * 24 * 60 * 60;
    assert_eq!(
        events_of(&eff),
        vec![Event::ProposalCreated {
            proposal_id: 1,
            proposer: alice,
            proposal_type: ProposalType::ResolveIssue,
            expires_at
        }]
    );
    let p = s.get_proposal(&id);
    assert_eq!(p.expires_at, expires_at);
    assert_eq!(p.created_at, 1_000);
    assert_eq!(p.description.len(), 256);
    assert!(p.signatures.is_empty());
    assert_eq!(p.executed_at, None);
    assert_eq!(p.cancelled_at, None);
}

#[test]
fn only_proposer_or_admin_cancels() {
    let mut s = setup_board();
    let (alice, bob, admin) = (s.alice, s.bob, s.admin);
    let payload = resolve_payload(&s);
    let id = s.create_proposal(&alice, &ProposalType::ResolveIssue, &payload, &None);
    assert_eq!(s.forge.cancel_proposal(id, bob, 0), Err(Error::Unauthorized));
    s.now = 33;
    let eff = s.cancel_proposal(&id, &admin);
    assert_eq!(events_of(&eff), vec![Event::ProposalCancelled { proposal_id: 1, canceller: admin, timestamp: 33 }]);
    assert_eq!(s.get_proposal(&id).cancelled_at, Some(33));
    assert_eq!(s.forge.cancel_proposal(id, alice, 0), Err(Error::NotPending));
    assert_eq!(s.forge.cancel_proposal(9, alice, 0), Err(Error::ProposalNotFound));
}

#[test]
fn expiry_waits_for_the_deadline() {
    let mut s = setup_board();
    let (alice, bob) = (s.alice, s.bob);
    let payload = resolve_payload(&s);
    let id = s.create_proposal(&alice, &ProposalType::ResolveIssue, &payload, &Some(60u64));
    s.now = 60;
    assert_eq!(s.forge.expire_proposal(id, s.now), Err(Error::NotYetExpired));
    // signing is still allowed at the expiry time itself
    s.sign_proposal(&bob, &id);
    s.now = 61;
    let eff = s.expire_proposal(&id);
    assert_eq!(events_of(&eff), vec![Event::ProposalExpired { proposal_id: 1, timestamp: 61 }]);
    assert_eq!(s.forge.expire_proposal(id, s.now), Err(Error::NotPending));
    assert_eq!(s.forge.sign_proposal(alice, id, s.now), Err(Error::NotPending));
}

#[test]
fn proposals_by_member_cover_proposer_and_signers() {
    let mut s = setup_board();
    let (alice, bob, carol) = (s.alice, s.bob, s.carol);
    let payload = resolve_payload(&s);
    let id1 = s.create_proposal(&alice, &ProposalType::ResolveIssue, &payload, &None);
    let id2 = s.create_proposal(&bob, &ProposalType::ResolveIssue, &payload, &None);
    s.sign_proposal(&carol, &id2);
    let _id3 = s.create_proposal(&bob, &ProposalType::ResolveIssue, &payload, &None);
    let ids = |v: Vec<&Proposal>| v.iter().map(|p| p.proposal_id).collect::<Vec<u64>>();
    assert_eq!(ids(s.forge.get_proposals_by_member(alice)), vec![id1]);
    assert_eq!(ids(s.forge.get_proposals_by_member(carol)), vec![id2]);
    assert_eq!(ids(s.forge.get_proposals_by_member(bob)), vec![2, 3]);
}

#[test]
fn queries_answer_from_state() {
    let mut s = setup_board();
    let (alice, bob) = (s.alice, s.bob);
    let outsider = s.generate();
    assert_eq!(s.forge.is_member(alice), Ok(true));
    assert_eq!(s.forge.is_member(outsider), Ok(false));
    assert_eq!(s.forge.get_member_count(), Ok(3));
    assert_eq!(s.forge.get_threshold(), Ok(2));
    assert!(!s.forge.has_proposal(1));
    let payload = resolve_payload(&s);
    let id = s.create_proposal(&alice, &ProposalType::ResolveIssue, &payload, &None);
    assert!(s.forge.has_proposal(id));
    assert!(!s.forge.has_proposal(0));
    assert!(!s.forge.has_proposal(2));
    assert_eq!(s.forge.get_proposal_count(), 1);
    assert_eq!(s.forge.has_signed(5, bob), Err(Error::ProposalNotFound));
    assert!(s.forge.get_proposal(2).is_err());
}

#[test]
fn stats_add_up() {
    let mut s = setup_board();
    let (alice, bob, carol) = (s.alice, s.bob, s.carol);
    let payload = resolve_payload(&s);
    let a = s.create_proposal(&alice, &ProposalType::ResolveIssue, &payload, &Some(10));
    let b = s.create_proposal(&alice, &ProposalType::ResolveIssue, &payload, &None);
    let c = s.create_proposal(&alice, &ProposalType::ResolveIssue, &payload, &None);
    let _d = s.create_proposal(&alice, &ProposalType::ResolveIssue, &payload, &None);
    s.sign_proposal(&bob, &b);
    s.sign_proposal(&carol, &b);
    s.sign_proposal(&carol, &c);
    s.cancel_proposal(&c, &alice);
    s.now = 11;
    s.expire_proposal(&a);
    let st = s.get_stats();
    assert_eq!(
        st,
        Stats { total_proposals: 4, executed: 1, pending: 1, cancelled: 1, expired: 1, total_signatures: 3 }
    );
    assert_eq!(st.executed + st.pending + st.cancelled + st.expired, st.total_proposals);
}

#[test]
fn deposit_moves_funds_into_the_treasury() {
    let mut s = setup_board();
    let (asset, contract) = (s.asset, s.contract);
    let donor = s.generate();
    s.credit(asset, donor, 1_000);
    let eff = s.run(Ok(QuorumForge::deposit(donor, 400, asset, 9)));
    assert_eq!(transfers_of(&eff), vec![Transfer::Deposit { asset, from: donor, amount: 400 }]);
    assert_eq!(events_of(&eff), vec![Event::DepositReceived { from: donor, amount: 400, asset, timestamp: 9 }]);
    assert_eq!(s.balance(&asset, &donor), 600);
    assert_eq!(s.balance(&asset, &contract), 10_400);
}

#[test]
fn payout_comes_between_quorum_and_execution_events() {
    let mut s = setup_board();
    let (alice, bob, asset) = (s.alice, s.bob, s.asset);
    let recipient = s.generate();
    let payload = ProposalPayload::TransferFunds(TransferFundsPayload {
        recipient,
        amount: 250,
        asset,
        memo: b"grant".to_vec(),
    });
    let id = s.create_proposal(&alice, &ProposalType::TransferFunds, &payload, &None);
    s.sign_proposal(&alice, &id);
    s.now = 5;
    let eff = s.sign_proposal(&bob, &id);
    assert_eq!(
        eff.actions,
        vec![
            Action::Publish(Event::ProposalSigned { proposal_id: 1, signer: bob, signatures_count: 2, threshold: 2 }),
            Action::Publish(Event::QuorumReached { proposal_id: 1, signatures_count: 2, threshold: 2, timestamp: 5 }),
            Action::Transfer(Transfer::Payout { asset, to: recipient, amount: 250 }),
            Action::Publish(Event::WithdrawalRequested { proposal_id: 1, recipient, amount: 250, timestamp: 5 }),
            Action::Publish(Event::ProposalExecuted {
                proposal_id: 1,
                proposal_type: ProposalType::TransferFunds,
                timestamp: 5
            }),
        ]
    );
    assert_eq!(s.balance(&asset, &recipient), 250);
}
