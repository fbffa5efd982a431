//! Addresses as bytes, and the contract's state as it is stored and loaded.

use quorumforge_contract::{
    Action, Error, Event, ProposalFocus, Address, AddressKind, BoardConfig, Proposal, ProposalPayload, ProposalStatus, ProposalType,
    QuorumForge, UpdateThresholdPayload,
};

#[test]
fn account_address_xdr_roundtrip() {
    let a = Address::account([7u8; 32]);
    let bytes = a.to_xdr();
    assert_eq!(bytes.len(), 44);
    assert_eq!(&bytes[..12], &[0, 0, 0, 18, 0, 0, 0, 0, 0, 0, 0, 0]);
    assert_eq!(Address::from_xdr(&bytes), Some(a));
}

#[test]
fn contract_address_xdr_roundtrip() {
    let mut key = [0u8; 32];
    for (i, k) in key.iter_mut().enumerate() {
        *k = i as u8;
    }
    let c = Address::contract(key);
    let bytes = c.to_xdr();
    assert_eq!(bytes.len(), 40);
    assert_eq!(&bytes[..8], &[0, 0, 0, 18, 0, 0, 0, 1]);
    assert_eq!(&bytes[8..], &key[..]);
    let back = Address::from_xdr(&bytes).unwrap();
    assert_eq!(back.kind, AddressKind::Contract);
    assert_eq!(back, c);
}

#[test]
fn malformed_address_bytes_are_refused() {
    let a = Address::account([7u8; 32]).to_xdr();
    assert_eq!(Address::from_xdr(&a[..43]), None);
    let mut wrong_tag = a.clone();
    wrong_tag[3] = 17;
    assert_eq!(Address::from_xdr(&wrong_tag), None);
    let mut wrong_kind = a.clone();
    wrong_kind[7] = 2;
    assert_eq!(Address::from_xdr(&wrong_kind), None);
    let mut wrong_key_type = a;
    wrong_key_type[11] = 1;
    assert_eq!(Address::from_xdr(&wrong_key_type), None);
    assert_eq!(Address::from_xdr(&[]), None);
}

#[test]
fn same_as_compares_kind_and_key() {
    let a = Address::account([1u8; 32]);
    let c = Address::contract([1u8; 32]);
    let mut key = [1u8; 32];
    key[31] = 2;
    let b = Address::account(key);
    assert!(a.same_as(&a));
    assert!(!a.same_as(&c));
    assert!(!a.same_as(&b));
}

fn proposal(id: u64, signatures: Vec<Address>, status: ProposalStatus) -> Proposal {
    Proposal {
        proposal_id: id,
        proposer: Address::account([1u8; 32]),
        proposal_type: ProposalType::UpdateThreshold,
        payload: ProposalPayload::UpdateThreshold(UpdateThresholdPayload { new_threshold: 1 }),
        signatures,
        status,
        created_at: 0,
        expires_at: 100,
        executed_at: None,
        cancelled_at: None,
        description: Vec::new(),
    }
}

fn board() -> BoardConfig {
    BoardConfig { members: vec![Address::account([1u8; 32]), Address::account([2u8; 32])], threshold: 2, created_at: 0 }
}

#[test]
fn stored_state_loads_back() {
    let admin = Some(Address::account([9u8; 32]));
    let a = Address::account([1u8; 32]);
    let forge = QuorumForge::from_parts(
        Some(board()),
        admin,
        vec![proposal(1, vec![a], ProposalStatus::Pending), proposal(2, vec![], ProposalStatus::Pending)],
    )
    .unwrap();
    assert_eq!(forge.get_proposal_count(), 2);
    assert_eq!(forge.proposals().len(), 2);
    assert_eq!(forge.has_signed(1, a), Ok(true));
    assert_eq!(forge.get_threshold(), Ok(2));
}

#[test]
fn inconsistent_stored_state_is_refused() {
    let admin = Some(Address::account([9u8; 32]));
    let a = Address::account([1u8; 32]);
    // board without admin
    assert!(QuorumForge::from_parts(Some(board()), None, vec![]).is_none());
    // proposals without a board
    assert!(QuorumForge::from_parts(None, None, vec![proposal(1, vec![], ProposalStatus::Pending)]).is_none());
    // ids out of order
    assert!(QuorumForge::from_parts(Some(board()), admin, vec![proposal(2, vec![], ProposalStatus::Pending)]).is_none());
    // a signature twice
    assert!(QuorumForge::from_parts(Some(board()), admin, vec![proposal(1, vec![a, a], ProposalStatus::Pending)]).is_none());
    // executed without an execution time
    assert!(QuorumForge::from_parts(Some(board()), admin, vec![proposal(1, vec![], ProposalStatus::Executed)]).is_none());
    // zero threshold
    let mut zero = board();
    zero.threshold = 0;
    assert!(QuorumForge::from_parts(Some(zero), admin, vec![]).is_none());
    // an empty, uninitialized contract is fine
    assert!(QuorumForge::from_parts(None, None, vec![]).is_some());
}

#[test]
fn focus_does_what_the_whole_state_does() {
    let admin = Address::account([9u8; 32]);
    let (a, b) = (Address::account([1u8; 32]), Address::account([2u8; 32]));
    let mut whole = QuorumForge::from_parts(
        Some(board()),
        Some(admin),
        vec![proposal(1, vec![], ProposalStatus::Pending), proposal(2, vec![a], ProposalStatus::Pending)],
    )
    .unwrap();
    let mut focus = whole.focus(2);
    assert_eq!(focus.id(), 2);
    assert_eq!(focus.count(), 2);
    let by_focus = focus.sign_proposal(b, 50).unwrap();
    let by_whole = whole.sign_proposal(b, 2, 50).unwrap();
    assert_eq!(by_focus, by_whole);
    assert_eq!(focus.proposal().unwrap(), whole.get_proposal(2).unwrap());
    assert_eq!(focus.proposal().unwrap().status, ProposalStatus::Executed);
    assert_eq!(focus.board().unwrap(), whole.get_board().unwrap());
    assert_eq!(focus.board().unwrap().threshold, 1);
    assert_eq!(
        by_focus.actions.last(),
        Some(&Action::Publish(Event::ProposalExecuted {
            proposal_id: 2,
            proposal_type: ProposalType::UpdateThreshold,
            timestamp: 50
        }))
    );
}

#[test]
fn focus_creates_the_next_proposal() {
    let admin = Address::account([9u8; 32]);
    let a = Address::account([1u8; 32]);
    let mut focus = ProposalFocus::from_parts(Some(board()), Some(admin), 3, 0, None).unwrap();
    let payload = ProposalPayload::UpdateThreshold(UpdateThresholdPayload { new_threshold: 1 });
    let (id, _) = focus.create_proposal(a, ProposalType::UpdateThreshold, payload, Vec::new(), Some(60), 10).unwrap();
    assert_eq!(id, 4);
    assert_eq!(focus.id(), 4);
    assert_eq!(focus.count(), 4);
    assert_eq!(focus.proposal().unwrap().expires_at, 70);
    assert_eq!(focus.has_signed(a), Ok(false));
    assert_eq!(focus.is_member(a), Ok(true));
}

#[test]
fn focus_refusals_change_nothing() {
    let admin = Address::account([9u8; 32]);
    let outsider = Address::account([7u8; 32]);
    let mut focus = ProposalFocus::from_parts(
        Some(board()),
        Some(admin),
        1,
        1,
        Some(proposal(1, vec![], ProposalStatus::Pending)),
    )
    .unwrap();
    assert_eq!(focus.sign_proposal(outsider, 0), Err(Error::NotMember));
    assert_eq!(focus.expire_proposal(100), Err(Error::NotYetExpired));
    assert_eq!(focus.cancel_proposal(outsider, 0), Err(Error::Unauthorized));
    assert_eq!(focus.execute_proposal(0), Err(Error::ThresholdNotMet));
    assert_eq!(focus.proposal().unwrap().status, ProposalStatus::Pending);
    assert!(focus.expire_proposal(101).is_ok());
    assert_eq!(focus.proposal().unwrap().status, ProposalStatus::Expired);
}

#[test]
fn inconsistent_focus_is_refused() {
    let admin = Some(Address::account([9u8; 32]));
    // a proposal in range must be given
    assert!(ProposalFocus::from_parts(Some(board()), admin, 2, 1, None).is_none());
    // a proposal out of range must not be
    assert!(ProposalFocus::from_parts(Some(board()), admin, 0, 1, Some(proposal(1, vec![], ProposalStatus::Pending))).is_none());
    // the proposal's id must be the one in focus
    assert!(ProposalFocus::from_parts(Some(board()), admin, 2, 1, Some(proposal(2, vec![], ProposalStatus::Pending))).is_none());
    // proposals need a board
    assert!(ProposalFocus::from_parts(None, None, 1, 0, None).is_none());
    assert!(ProposalFocus::from_parts(None, None, 0, 0, None).is_some());
}
