use vstd::prelude::*;
use candid::Principal;
use crate::engine::{EngineView, engine_wf, execute_spec, expire_spec, known, vote_spec};
use crate::error::ErrorKind;
use crate::models::{Status, VoteKind, unique_voters};

verus! {

/// A decided proposal: voting on it is over for good.
pub open spec fn decided(st: Status) -> bool {
    st == Status::Approved || st == Status::Rejected || st == Status::Deadlock
}

/// Executing a proposal twice, one call after the other, commits it once:
/// whenever the first call succeeds, the second fails as a bad request
/// because the proposal was already executed.
pub proof fn law_execute_once(s: EngineView, id: u64, first: u64, second: u64)
    requires
        engine_wf(s),
        execute_spec(s, id, first) is Ok,
    ensures
        execute_spec(execute_spec(s, id, first)->Ok_0, id, second)
            == Err::<EngineView, (ErrorKind, Seq<char>)>((ErrorKind::BadRequest, "Proposal already executed"@)),
{
}

/// Neither a vote nor an expiry ever clears the mark that a proposal was
/// executed, so nothing reopens a proposal for a second execution.
pub proof fn law_sent_at_kept(s: EngineView, caller: Principal, id: u64, kind: VoteKind, target: u64)
    requires
        engine_wf(s),
        known(s, target),
        s.proposals[target as int].sent_at is Some,
    ensures
        expire_spec(s, id).proposals[target as int].sent_at == s.proposals[target as int].sent_at,
        vote_spec(s, caller, id, kind) is Ok ==> vote_spec(s, caller, id, kind)->Ok_0.proposals[target as int].sent_at
            == s.proposals[target as int].sent_at,
{
}

/// A principal appears at most once in a proposal's votes: a successful vote
/// keeps the voters distinct, and a second vote by the same principal on
/// the same proposal fails as a bad request.
pub proof fn law_vote_unique(s: EngineView, caller: Principal, id: u64, kind: VoteKind, again: VoteKind)
    requires
        engine_wf(s),
        vote_spec(s, caller, id, kind) is Ok,
    ensures
        engine_wf(vote_spec(s, caller, id, kind)->Ok_0),
        vote_spec(vote_spec(s, caller, id, kind)->Ok_0, caller, id, again) is Err,
        vote_spec(vote_spec(s, caller, id, kind)->Ok_0, caller, id, again)->Err_0.0 == ErrorKind::BadRequest,
{
    let s2 = vote_spec(s, caller, id, kind)->Ok_0;
    let old_votes = s.votes[id as int];
    let votes = s2.votes[id as int];
    assert(votes =~= old_votes.push(crate::models::Vote { principal: caller, kind }));
    assert forall|a: int, b: int|
        0 <= a < votes.len() && 0 <= b < votes.len() && a != b implies
        (#[trigger] votes[a]).principal != (#[trigger] votes[b]).principal by {
        assert(unique_voters(old_votes));
        if a < old_votes.len() && b < old_votes.len() {
            assert(old_votes[a] == votes[a] && old_votes[b] == votes[b]);
        } else if a < old_votes.len() {
            assert(old_votes[a] == votes[a]);
        } else {
            assert(old_votes[b] == votes[b]);
        }
    }
    assert forall|i: int| 0 <= i < s2.votes.len() implies unique_voters(#[trigger] s2.votes[i]) by {
        if i != id as int {
            assert(s2.votes[i] == s.votes[i]);
        }
    }
    if s2.proposals[id as int].status == Status::Pending {
        let last = votes.len() - 1;
        assert(votes[last].principal == caller);
    }
}

/// Once a proposal is approved, rejected or deadlocked, no vote changes
/// anything (it fails as a bad request) and its expiry is a no-op.
pub proof fn law_decided_is_final(s: EngineView, caller: Principal, id: u64, kind: VoteKind)
    requires
        known(s, id),
        decided(s.proposals[id as int].status),
    ensures
        vote_spec(s, caller, id, kind) is Err,
        vote_spec(s, caller, id, kind)->Err_0.0 == ErrorKind::BadRequest,
        expire_spec(s, id) == s,
{
}

/// Firing the expiry of a decided proposal changes nothing; firing it on a
/// pending proposal sets that proposal, and nothing else, to expired.
pub proof fn law_expiry(s: EngineView, id: u64)
    requires
        known(s, id),
    ensures
        decided(s.proposals[id as int].status) ==> expire_spec(s, id) == s,
        s.proposals[id as int].status == Status::Pending ==> {
            let e = expire_spec(s, id);
            &&& e.proposals[id as int].status == Status::Expired
            &&& e.proposals[id as int].sent_at == s.proposals[id as int].sent_at
            &&& e.proposals.len() == s.proposals.len()
            &&& forall|j: int| 0 <= j < s.proposals.len() && j != id ==> e.proposals[j] == s.proposals[j]
            &&& e.votes == s.votes
        },
{
}

} // verus!
