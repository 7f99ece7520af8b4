use vstd::prelude::*;

verus! {

/// The verdict of a tally over the votes cast on one proposal.
#[derive(Clone, Copy, Debug, PartialEq, Eq, Structural)]
pub enum TallyResult {
    Approve,
    Reject,
    Deadlock,
    NotReached,
}

/// The majority rule, with percentages of the whole quorum compared by
/// cross-multiplication: `approvals / quorum * 100 > 50` is `2 * approvals > quorum`.
pub open spec fn tally_spec(approvals: int, rejections: int, quorum: int) -> TallyResult {
    if 2 * approvals > quorum {
        TallyResult::Approve
    } else if 2 * rejections > quorum {
        TallyResult::Reject
    } else if 2 * approvals == quorum && 2 * rejections == quorum {
        TallyResult::Deadlock
    } else {
        TallyResult::NotReached
    }
}

/// The verdict for `approvals` and `rejections` out of a quorum of `quorum` seats.
pub fn tally(approvals: u64, rejections: u64, quorum: u64) -> (r: TallyResult)
    requires
        quorum >= 1,
    ensures
        r == tally_spec(approvals as int, rejections as int, quorum as int),
{
    let a: u128 = approvals as u128;
    let rj: u128 = rejections as u128;
    let q: u128 = quorum as u128;
    if 2 * a > q {
        TallyResult::Approve
    } else if 2 * rj > q {
        TallyResult::Reject
    } else if 2 * a == q && 2 * rj == q {
        TallyResult::Deadlock
    } else {
        TallyResult::NotReached
    }
}

} // verus!
