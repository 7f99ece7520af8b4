use candid::Principal;
use multisig::engine::{Expiry, ProposalLogic};
use multisig::error::ErrorKind;
use multisig::models::{AirdropContent, Content, Status, TransferArg, TransferContent, VoteKind};
use multisig::tally::{tally, TallyResult};

fn p(n: u8) -> Principal {
    Principal::from_slice(&[n])
}

fn transfer(amount: u128) -> Content {
    Content::Transfer(TransferContent {
        canister_id: p(100),
        args: TransferArg { to: p(101), amount },
    })
}

fn engine(whitelisted: u8) -> ProposalLogic {
    let whitelist = (1..=whitelisted).map(p).collect();
    ProposalLogic::new(whitelist, 86_400_000_000_000)
}

fn message(e: &multisig::error::Error) -> String {
    e.message.clone().unwrap_or_default()
}

#[test]
fn tally_two_of_three_approves() {
    assert_eq!(tally(2, 0, 3), TallyResult::Approve);
}

#[test]
fn tally_even_split_is_deadlock() {
    assert_eq!(tally(2, 2, 4), TallyResult::Deadlock);
}

#[test]
fn tally_one_each_of_four_not_reached() {
    assert_eq!(tally(1, 1, 4), TallyResult::NotReached);
}

#[test]
fn tally_rejection_majority() {
    assert_eq!(tally(0, 2, 3), TallyResult::Reject);
    assert_eq!(tally(1, 2, 3), TallyResult::Reject);
}

#[test]
fn tally_half_approvals_alone_not_reached() {
    assert_eq!(tally(2, 1, 4), TallyResult::NotReached);
    assert_eq!(tally(0, 0, 1), TallyResult::NotReached);
    assert_eq!(tally(1, 0, 1), TallyResult::Approve);
}

#[test]
fn end_to_end_approve_then_execute_once() {
    let mut e = engine(2);
    let (id, proposal) = e.propose(p(1), transfer(5), 10, Ok(())).unwrap();
    assert_eq!(id, 0);
    assert_eq!(proposal.status, Status::Pending);
    assert_eq!(proposal.sent_at, None);
    let (_, votes) = e.get_votes(id, None, 11).unwrap();
    assert_eq!(votes.0.len(), 1);
    assert_eq!(votes.0[0].principal, p(1));
    assert_eq!(votes.0[0].kind, VoteKind::Approve);

    let (_, after) = e.vote(p(2), id, VoteKind::Approve, 12).unwrap();
    assert_eq!(after.status, Status::Approved);

    let (_, sent) = e.execute(id, 13).unwrap();
    assert_eq!(sent.sent_at, Some(13));
    assert_eq!(sent.content, transfer(5));

    let err = e.execute(id, 14).unwrap_err();
    assert!(matches!(err.error_type, ErrorKind::BadRequest));
    assert_eq!(message(&err), "Proposal already executed");
    assert_eq!(err.timestamp, 14);
    assert_eq!(e.get_proposal(id, 15).unwrap().1.sent_at, Some(13));
}

#[test]
fn end_to_end_deadlock() {
    let mut e = engine(3);
    let owner = p(9);
    let (id, _) = e.propose(p(1), transfer(5), 10, Ok(())).unwrap();
    let (_, a) = e.vote(p(2), id, VoteKind::Approve, 11).unwrap();
    assert_eq!(a.status, Status::Pending);
    let (_, b) = e.vote(p(3), id, VoteKind::Reject, 12).unwrap();
    assert_eq!(b.status, Status::Pending);
    let (_, c) = e.vote(owner, id, VoteKind::Reject, 13).unwrap();
    assert_eq!(c.status, Status::Deadlock);
}

#[test]
fn second_vote_by_same_principal_fails() {
    let mut e = engine(4);
    let (id, _) = e.propose(p(1), transfer(5), 10, Ok(())).unwrap();
    let err = e.vote(p(1), id, VoteKind::Reject, 11).unwrap_err();
    assert!(matches!(err.error_type, ErrorKind::BadRequest));
    assert_eq!(message(&err), "Vote already cast");
    e.vote(p(2), id, VoteKind::Reject, 12).unwrap();
    let err = e.vote(p(2), id, VoteKind::Approve, 13).unwrap_err();
    assert_eq!(message(&err), "Vote already cast");
    assert_eq!(e.get_votes(id, None, 14).unwrap().1 .0.len(), 2);
}

#[test]
fn vote_on_decided_proposal_fails() {
    let mut e = engine(2);
    let (id, _) = e.propose(p(1), transfer(5), 10, Ok(())).unwrap();
    let (_, a) = e.vote(p(2), id, VoteKind::Reject, 11).unwrap();
    assert_eq!(a.status, Status::Pending);
    let (_, r) = e.vote(p(9), id, VoteKind::Reject, 12).unwrap();
    assert_eq!(r.status, Status::Rejected);
    let err = e.vote(p(3), id, VoteKind::Approve, 13).unwrap_err();
    assert!(matches!(err.error_type, ErrorKind::BadRequest));
    assert_eq!(message(&err), "Proposal is not pending");
    assert_eq!(e.get_proposal(id, 14).unwrap().1.status, Status::Rejected);
    let err = e.execute(id, 15).unwrap_err();
    assert_eq!(message(&err), "Proposal is not approved");
}

#[test]
fn unknown_proposal_is_not_found() {
    let mut e = engine(2);
    let err = e.vote(p(1), 3, VoteKind::Approve, 7).unwrap_err();
    assert!(matches!(err.error_type, ErrorKind::NotFound));
    assert_eq!(err.timestamp, 7);
    assert!(matches!(e.execute(0, 7).unwrap_err().error_type, ErrorKind::NotFound));
    assert!(matches!(e.get_votes(0, None, 7).unwrap_err().error_type, ErrorKind::NotFound));
    assert!(matches!(e.get_proposal(0, 7).unwrap_err().error_type, ErrorKind::NotFound));
}

#[test]
fn failed_feasibility_creates_nothing() {
    let mut e = engine(2);
    let check = Err(multisig::error::Error::unexpected(5).add_message("Insufficient balance"));
    let err = e.propose(p(1), transfer(5), 10, check).unwrap_err();
    assert!(matches!(err.error_type, ErrorKind::Unexpected));
    assert_eq!(message(&err), "Insufficient balance");
    assert!(e.get_proposals(None).is_empty());
    assert!(e.take_scheduled().is_empty());
    assert!(matches!(e.get_proposal(0, 11).unwrap_err().error_type, ErrorKind::NotFound));
    assert!(matches!(e.get_votes(0, None, 11).unwrap_err().error_type, ErrorKind::NotFound));
}

#[test]
fn propose_arms_expiry_with_current_period() {
    let mut e = engine(2);
    e.propose(p(1), transfer(5), 10, Ok(())).unwrap();
    assert_eq!(e.set_voting_period(5_000_000_000), 5_000_000_000);
    e.propose(p(2), transfer(6), 11, Ok(())).unwrap();
    let armed = e.take_scheduled();
    assert_eq!(
        armed,
        vec![
            Expiry { id: 0, after_nanos: 86_400_000_000_000 },
            Expiry { id: 1, after_nanos: 5_000_000_000 },
        ]
    );
    assert!(e.take_scheduled().is_empty());
}

#[test]
fn expiry_of_pending_proposal() {
    let mut e = engine(2);
    let (id, _) = e.propose(p(1), transfer(5), 10, Ok(())).unwrap();
    e.expire(id);
    assert_eq!(e.get_proposal(id, 11).unwrap().1.status, Status::Expired);
    let err = e.vote(p(2), id, VoteKind::Approve, 12).unwrap_err();
    assert_eq!(message(&err), "Proposal is not pending");
}

#[test]
fn expiry_of_decided_proposal_is_noop() {
    let mut e = engine(2);
    let (id, _) = e.propose(p(1), transfer(5), 10, Ok(())).unwrap();
    e.vote(p(2), id, VoteKind::Approve, 11).unwrap();
    e.expire(id);
    assert_eq!(e.get_proposal(id, 12).unwrap().1.status, Status::Approved);
    e.execute(id, 13).unwrap();
    e.expire(id);
    let (_, after) = e.get_proposal(id, 14).unwrap();
    assert_eq!(after.status, Status::Approved);
    assert_eq!(after.sent_at, Some(13));
    e.expire(42);
}

#[test]
fn listing_by_status_in_id_order() {
    let mut e = engine(2);
    e.propose(p(1), transfer(1), 10, Ok(())).unwrap();
    e.propose(p(1), transfer(2), 11, Ok(())).unwrap();
    e.propose(p(2), transfer(3), 12, Ok(())).unwrap();
    e.vote(p(2), 1, VoteKind::Approve, 13).unwrap();
    let all: Vec<u64> = e.get_proposals(None).iter().map(|x| x.0).collect();
    assert_eq!(all, vec![0, 1, 2]);
    let pending: Vec<u64> = e.get_proposals(Some(Status::Pending)).iter().map(|x| x.0).collect();
    assert_eq!(pending, vec![0, 2]);
    let approved = e.get_proposals(Some(Status::Approved));
    assert_eq!(approved.len(), 1);
    assert_eq!(approved[0].0, 1);
    assert_eq!(approved[0].1.content, transfer(2));
    assert!(e.get_proposals(Some(Status::Expired)).is_empty());
}

#[test]
fn votes_filtered_by_kind() {
    let mut e = engine(4);
    let (id, _) = e.propose(p(1), transfer(5), 10, Ok(())).unwrap();
    e.vote(p(2), id, VoteKind::Reject, 11).unwrap();
    e.vote(p(3), id, VoteKind::Approve, 12).unwrap();
    let (_, approvals) = e.get_votes(id, Some(VoteKind::Approve), 13).unwrap();
    let who: Vec<Principal> = approvals.0.iter().map(|v| v.principal).collect();
    assert_eq!(who, vec![p(1), p(3)]);
    assert_eq!(approvals.approvals(), 2);
    let (_, rejections) = e.get_votes(id, Some(VoteKind::Reject), 13).unwrap();
    assert_eq!(rejections.0.len(), 1);
    assert_eq!(rejections.0[0].principal, p(2));
    let (_, all) = e.get_votes(id, None, 13).unwrap();
    assert_eq!(all.approvals(), 2);
    assert_eq!(all.rejections(), 1);
    assert!(all.voted(&p(3)));
    assert!(!all.voted(&p(4)));
}

#[test]
fn membership_read_at_each_tally() {
    let mut e = engine(4);
    let (id, _) = e.propose(p(1), transfer(5), 10, Ok(())).unwrap();
    let (_, a) = e.vote(p(2), id, VoteKind::Approve, 11).unwrap();
    assert_eq!(a.status, Status::Pending);
    e.set_whitelist(vec![p(1), p(2), p(3)]);
    let (_, b) = e.vote(p(3), id, VoteKind::Approve, 12).unwrap();
    assert_eq!(b.status, Status::Approved);
}

#[test]
fn membership_query() {
    let e = engine(2);
    assert!(e.is_member(&p(1)));
    assert!(e.is_member(&p(2)));
    assert!(!e.is_member(&p(3)));
}

#[test]
fn voting_period_in_seconds() {
    let mut e = engine(1);
    assert_eq!(e.get_voting_period(), 86_400);
    e.set_voting_period(2_999_999_999);
    assert_eq!(e.get_voting_period(), 2);
}

#[test]
fn airdrop_content_kept() {
    let mut e = engine(1);
    let content = Content::Airdrop(AirdropContent {
        canister_id: p(100),
        args: vec![TransferArg { to: p(5), amount: 1 }, TransferArg { to: p(6), amount: 2 }],
    });
    let (id, _) = e.propose(p(1), content.clone(), 10, Ok(())).unwrap();
    e.vote(p(9), id, VoteKind::Approve, 11).unwrap();
    let (_, sent) = e.execute(id, 12).unwrap();
    assert_eq!(sent.content, content);
}
