use candid::Principal;
use multisig::models::Status;
use multisig::requests::{Dip20TransferArgs, Icrc1TransferArgs, TransferRequestType, VoteType, Votes};
use multisig::store::{Store, TransactionVote, DAY_IN_NANOS};

fn p(n: u8) -> Principal {
    Principal::from_slice(&[n])
}

fn dip20(value: u64) -> TransferRequestType {
    TransferRequestType::DIP20(Dip20TransferArgs { to: p(50), value })
}

fn icrc(amount: u128) -> TransferRequestType {
    TransferRequestType::ICRC1(Icrc1TransferArgs { to: p(50), amount })
}

fn store_with(members: &[u8]) -> Store {
    let mut s = Store::default();
    s.init(p(1));
    for m in members {
        s.whitelist.push(p(*m));
    }
    s
}

#[test]
fn default_store_is_empty() {
    let s = Store::default();
    assert_eq!(s.owner, Principal::anonymous());
    assert!(s.whitelist.is_empty());
    assert_eq!(s.transaction_request_id, 0);
    assert!(s.transaction_requests.is_empty());
    assert_eq!(s.transaction_request_expiry, DAY_IN_NANOS);
    assert_eq!(s.whitelist_request_expiry, 86_400_000_000_000);
}

#[test]
fn init_whitelists_owner() {
    let s = store_with(&[]);
    assert_eq!(s.owner, p(1));
    assert_eq!(s.whitelist, vec![p(1)]);
    assert!(s.is_whitelisted(&p(1)).is_ok());
    assert_eq!(s.is_whitelisted(&p(2)), Err("Caller is not whitelisted".to_string()));
}

#[test]
fn duplicate_votes_detected() {
    let votes = Votes { approvals: vec![p(1)], rejections: vec![p(2)] };
    assert_eq!(Store::check_duplicate_vote(&p(1), &votes), Err("Approval vote already cast".to_string()));
    assert_eq!(Store::check_duplicate_vote(&p(2), &votes), Err("Rejection vote already cast".to_string()));
    assert_eq!(Store::check_duplicate_vote(&p(3), &votes), Ok(()));
}

#[test]
fn single_member_request_is_approved_at_once() {
    let mut s = store_with(&[]);
    let (id, outcome) = s.transaction_request(p(1), p(40), dip20(7), 100, Ok(())).unwrap();
    assert_eq!(id, 0);
    match outcome {
        Ok(TransactionVote::Transfer(t)) => {
            assert_eq!(t.data.status, Status::Approved);
            assert_eq!(t.data.votes.approvals, vec![p(1)]);
            assert_eq!(t.canister_id, p(40));
        }
        _ => panic!("expected a transfer"),
    }
    assert_eq!(s.transaction_request_id, 1);
}

#[test]
fn majority_of_three_members() {
    let mut s = store_with(&[2, 3]);
    let (id, outcome) = s.transaction_request(p(1), p(40), icrc(7), 100, Ok(())).unwrap();
    assert!(matches!(outcome, Ok(TransactionVote::Pending)));
    assert_eq!(s.transaction_requests[0].data.status, Status::Pending);
    match s.vote_on_transaction_request(p(2), id, VoteType::Approve) {
        Ok(TransactionVote::Transfer(t)) => assert_eq!(t.data.votes.approvals, vec![p(1), p(2)]),
        _ => panic!("expected a transfer"),
    }
    assert!(matches!(
        s.vote_on_transaction_request(p(3), id, VoteType::Reject),
        Err(ref m) if m == "Transaction request is not pending"
    ));
}

#[test]
fn even_split_deadlocks() {
    let mut s = store_with(&[2]);
    let (id, outcome) = s.transaction_request(p(1), p(40), dip20(7), 100, Ok(())).unwrap();
    assert!(matches!(outcome, Ok(TransactionVote::Pending)));
    match s.vote_on_transaction_request(p(2), id, VoteType::Reject) {
        Ok(TransactionVote::Settled(m)) => assert_eq!(m, "Transaction request deadlocked"),
        _ => panic!("expected a deadlock"),
    }
    assert_eq!(s.transaction_requests[0].data.status, Status::Deadlock);
}

#[test]
fn rejection_majority_rejects() {
    let mut s = store_with(&[2, 3]);
    let (id, _) = s.transaction_request(p(1), p(40), dip20(7), 100, Ok(())).unwrap();
    assert!(matches!(s.vote_on_transaction_request(p(2), id, VoteType::Reject), Ok(TransactionVote::Pending)));
    assert_eq!(s.transaction_requests[0].data.status, Status::Pending);
    assert_eq!(s.transaction_requests[0].data.votes.rejections, vec![p(2)]);
    match s.vote_on_transaction_request(p(3), id, VoteType::Reject) {
        Ok(TransactionVote::Settled(m)) => assert_eq!(m, "Transaction request rejected"),
        _ => panic!("expected a rejection"),
    }
    assert_eq!(s.transaction_requests[0].data.status, Status::Rejected);
}

#[test]
fn vote_errors() {
    let mut s = store_with(&[2, 3]);
    let (id, _) = s.transaction_request(p(1), p(40), dip20(7), 100, Ok(())).unwrap();
    assert!(matches!(s.vote_on_transaction_request(p(9), id, VoteType::Approve), Err(ref m) if m == "Caller is not whitelisted"));
    assert!(matches!(s.vote_on_transaction_request(p(2), 5, VoteType::Approve), Err(ref m) if m == "Transaction request not found"));
    assert!(matches!(s.vote_on_transaction_request(p(1), id, VoteType::Reject), Err(ref m) if m == "Approval vote already cast"));
    assert_eq!(s.transaction_requests[0].data.votes.approvals.len(), 1);
    assert!(s.transaction_requests[0].data.votes.rejections.is_empty());
}

#[test]
fn request_refused_creates_nothing() {
    let mut s = store_with(&[2]);
    assert_eq!(s.transaction_request(p(9), p(40), dip20(7), 100, Ok(())).unwrap_err(), "Caller is not whitelisted");
    let failed = Err("Insufficient DIP20 balance".to_string());
    assert_eq!(s.transaction_request(p(2), p(40), dip20(7), 100, failed).unwrap_err(), "Insufficient DIP20 balance");
    assert!(s.transaction_requests.is_empty());
    assert_eq!(s.transaction_request_id, 0);
}

#[test]
fn listing_and_expiry() {
    let mut s = store_with(&[2, 3]);
    s.transaction_request(p(1), p(40), dip20(1), 100, Ok(())).unwrap();
    s.transaction_request(p(2), p(40), dip20(2), 200, Ok(())).unwrap();
    s.transaction_request(p(3), p(40), dip20(3), 300, Ok(())).unwrap();
    s.vote_on_transaction_request(p(1), 1, VoteType::Approve).unwrap();
    s.expire_transaction_requests(&0);
    s.expire_transaction_requests(&1);
    s.expire_transaction_requests(&7);
    let all: Vec<u64> = s.get_transaction_requests(None).iter().map(|t| t.data.created_at).collect();
    assert_eq!(all, vec![100, 200, 300]);
    let pending = s.get_transaction_requests(Some(Status::Pending));
    assert_eq!(pending.len(), 1);
    assert_eq!(pending[0].data.id, 2);
    let expired = s.get_transaction_requests(Some(Status::Expired));
    assert_eq!(expired.len(), 1);
    assert_eq!(expired[0].data.id, 0);
    assert_eq!(s.get_transaction_requests(Some(Status::Approved))[0].data.id, 1);
}

#[test]
fn balance_checks() {
    assert_eq!(Store::check_balance(7, &dip20(7)), Ok(()));
    assert_eq!(Store::check_balance(6, &dip20(7)), Err("Insufficient DIP20 balance".to_string()));
    assert_eq!(Store::check_balance(u128::MAX, &icrc(u128::MAX)), Ok(()));
    assert_eq!(Store::check_balance(0, &icrc(1)), Err("Insufficient ICRC balance".to_string()));
}

#[test]
fn transfer_reports() {
    assert_eq!(Store::transfer_outcome(&dip20(1), true), Ok("DIP20 transaction send request approved".to_string()));
    assert_eq!(Store::transfer_outcome(&dip20(1), false), Err("DIP20 transaction send request failed".to_string()));
    assert_eq!(Store::transfer_outcome(&icrc(1), true), Ok("ICRC transaction send request approved".to_string()));
    assert_eq!(Store::transfer_outcome(&icrc(1), false), Err("ICRC transaction send request failed".to_string()));
}

#[test]
fn listing_sorted_by_creation_time() {
    let mut s = store_with(&[2, 3]);
    s.transaction_request(p(1), p(40), dip20(1), 300, Ok(())).unwrap();
    s.transaction_request(p(2), p(40), dip20(2), 100, Ok(())).unwrap();
    s.transaction_request(p(3), p(40), dip20(3), 300, Ok(())).unwrap();
    s.transaction_request(p(1), p(40), dip20(4), 200, Ok(())).unwrap();
    let ids: Vec<u32> = s.get_transaction_requests(None).iter().map(|t| t.data.id).collect();
    assert_eq!(ids, vec![1, 3, 0, 2]);
    s.expire_transaction_requests(&2);
    let ids: Vec<u32> = s.get_transaction_requests(Some(Status::Pending)).iter().map(|t| t.data.id).collect();
    assert_eq!(ids, vec![1, 3, 0]);
}
