use vstd::prelude::*;
use candid::Principal;
use crate::principal::same_principal;

verus! {

/// A single ballot.
#[derive(Clone, Copy, Debug, PartialEq, Eq, Structural)]
pub enum VoteKind {
    Approve,
    Reject,
}

/// Where a proposal stands in its lifecycle.
#[derive(Clone, Copy, Debug, PartialEq, Eq, Structural)]
pub enum Status {
    Pending,
    Approved,
    Rejected,
    Expired,
    Deadlock,
}

/// One principal's ballot on one proposal.
#[derive(Clone, Copy, Debug, PartialEq, Eq)]
pub struct Vote {
    pub principal: Principal,
    pub kind: VoteKind,
}

impl Vote {
    pub fn new(principal: Principal, kind: VoteKind) -> (r: Self)
        ensures
            r == (Vote { principal, kind }),
    {
        Vote { principal, kind }
    }
}

/// How many ballots of `kind` a sequence of votes holds.
pub open spec fn count_kind(s: Seq<Vote>, kind: VoteKind) -> nat
    decreases s.len(),
{
    if s.len() == 0 {
        0
    } else {
        count_kind(s.drop_last(), kind) + if s.last().kind == kind { 1nat } else { 0nat }
    }
}

/// `p` has cast a ballot in `s`.
pub open spec fn has_voted(s: Seq<Vote>, p: Principal) -> bool {
    exists|i: int| 0 <= i < s.len() && (#[trigger] s[i]).principal == p
}

/// No principal appears twice in `s`.
pub open spec fn unique_voters(s: Seq<Vote>) -> bool {
    forall|i: int, j: int|
        0 <= i < s.len() && 0 <= j < s.len() && i != j ==> (#[trigger] s[i]).principal
            != (#[trigger] s[j]).principal
}

/// The votes cast on one proposal, in the order they were cast.
#[derive(Clone, Debug)]
pub struct Votes(pub Vec<Vote>);

impl View for Votes {
    type V = Seq<Vote>;

    open spec fn view(&self) -> Seq<Vote> {
        self.0@
    }
}

impl Votes {
    /// Whether `caller` has already cast a ballot.
    pub fn voted(&self, caller: &Principal) -> (r: bool)
        ensures
            r == has_voted(self@, *caller),
    {
        let mut i: usize = 0;
        while i < self.0.len()
            invariant
                0 <= i <= self@.len(),
                forall|k: int| 0 <= k < i ==> (#[trigger] self@[k]).principal != *caller,
            decreases self@.len() - i,
        {
            if same_principal(&self.0[i].principal, caller) {
                return true;
            }
            i = i + 1;
        }
        false
    }

    /// Appends a ballot.
    pub fn add(&mut self, vote: Vote)
        ensures
            final(self)@ == old(self)@.push(vote),
    {
        self.0.push(vote);
    }

    /// The number of ballots of `kind`.
    pub fn count(&self, kind: VoteKind) -> (r: u64)
        ensures
            r == count_kind(self@, kind),
    {
        let mut n: u64 = 0;
        let mut i: usize = 0;
        while i < self.0.len()
            invariant
                0 <= i <= self@.len(),
                n == count_kind(self@.subrange(0, i as int), kind),
                n <= i,
            decreases self@.len() - i,
        {
            proof {
                assert(self@.subrange(0, i as int + 1).drop_last() =~= self@.subrange(0, i as int));
            }
            if self.0[i].kind == kind {
                n = n + 1;
            }
            i = i + 1;
        }
        proof {
            assert(self@.subrange(0, i as int) =~= self@);
        }
        n
    }

    /// The number of approvals.
    pub fn approvals(&self) -> (r: u64)
        ensures
            r == count_kind(self@, VoteKind::Approve),
    {
        self.count(VoteKind::Approve)
    }

    /// The number of rejections.
    pub fn rejections(&self) -> (r: u64)
        ensures
            r == count_kind(self@, VoteKind::Reject),
    {
        self.count(VoteKind::Reject)
    }

    /// A copy of all the ballots.
    pub fn of_kind_all(&self) -> (r: Votes)
        ensures
            r@ == self@,
    {
        let mut out: Vec<Vote> = Vec::new();
        let mut i: usize = 0;
        while i < self.0.len()
            invariant
                0 <= i <= self@.len(),
                out@ == self@.subrange(0, i as int),
            decreases self@.len() - i,
        {
            out.push(self.0[i]);
            proof {
                assert(out@ =~= self@.subrange(0, i as int + 1));
            }
            i = i + 1;
        }
        proof {
            assert(out@ =~= self@);
        }
        Votes(out)
    }

    /// The ballots of one kind, in the order they were cast.
    pub fn of_kind(&self, kind: VoteKind) -> (r: Votes)
        ensures
            r@ == self@.filter(|v: Vote| v.kind == kind),
    {
        let mut out: Vec<Vote> = Vec::new();
        let mut i: usize = 0;
        while i < self.0.len()
            invariant
                0 <= i <= self@.len(),
                out@ == self@.subrange(0, i as int).filter(|v: Vote| v.kind == kind),
            decreases self@.len() - i,
        {
            proof {
                reveal(Seq::filter);
                assert(self@.subrange(0, i as int + 1).drop_last() =~= self@.subrange(0, i as int));
            }
            let v = self.0[i];
            if v.kind == kind {
                out.push(v);
            }
            i = i + 1;
        }
        proof {
            assert(self@.subrange(0, i as int) =~= self@);
        }
        Votes(out)
    }
}

/// One transfer: the recipient and the amount in the token's smallest unit.
#[derive(Clone, Copy, Debug, PartialEq, Eq)]
pub struct TransferArg {
    pub to: Principal,
    pub amount: u128,
}

/// A single transfer on the token ledger `canister_id`.
#[derive(Clone, Copy, Debug, PartialEq, Eq)]
pub struct TransferContent {
    pub canister_id: Principal,
    pub args: TransferArg,
}

/// A batch of transfers on the token ledger `canister_id`.
#[derive(Clone, Debug, PartialEq, Eq)]
pub struct AirdropContent {
    pub canister_id: Principal,
    pub args: Vec<TransferArg>,
}

/// What an approved proposal does when it is executed.
#[derive(Clone, Debug, PartialEq, Eq)]
pub enum Content {
    Transfer(TransferContent),
    Airdrop(AirdropContent),
}

/// Copies a list of transfers.
fn copy_transfers(v: &Vec<TransferArg>) -> (r: Vec<TransferArg>)
    ensures
        r@ == v@,
{
    let mut out: Vec<TransferArg> = Vec::new();
    let mut i: usize = 0;
    while i < v.len()
        invariant
            0 <= i <= v@.len(),
            out@ == v@.subrange(0, i as int),
        decreases v@.len() - i,
    {
        out.push(v[i]);
        proof {
            assert(out@ =~= v@.subrange(0, i as int + 1));
        }
        i = i + 1;
    }
    proof {
        assert(out@ =~= v@);
    }
    out
}

/// The mathematical value of a proposal's content.
pub enum ContentView {
    Transfer(TransferContent),
    Airdrop(Principal, Seq<TransferArg>),
}

impl View for Content {
    type V = ContentView;

    open spec fn view(&self) -> ContentView {
        match self {
            Content::Transfer(t) => ContentView::Transfer(*t),
            Content::Airdrop(a) => ContentView::Airdrop(a.canister_id, a.args@),
        }
    }
}

impl Content {
    /// A copy of this content.
    pub fn copy(&self) -> (r: Content)
        ensures
            r@ == self@,
    {
        match self {
            Content::Transfer(t) => Content::Transfer(*t),
            Content::Airdrop(a) => Content::Airdrop(
                AirdropContent { canister_id: a.canister_id, args: copy_transfers(&a.args) },
            ),
        }
    }
}

/// A request for a governed action, with its lifecycle state.
#[derive(Clone, Debug, PartialEq, Eq)]
pub struct Proposal {
    pub proposer: Principal,
    pub content: Content,
    pub status: Status,
    pub created_at: u64,
    pub sent_at: Option<u64>,
}

/// The mathematical value of a proposal.
pub struct ProposalView {
    pub proposer: Principal,
    pub content: ContentView,
    pub status: Status,
    pub created_at: u64,
    pub sent_at: Option<u64>,
}

impl View for Proposal {
    type V = ProposalView;

    open spec fn view(&self) -> ProposalView {
        ProposalView {
            proposer: self.proposer,
            content: self.content@,
            status: self.status,
            created_at: self.created_at,
            sent_at: self.sent_at,
        }
    }
}

/// A pending proposal of `content` by `proposer`, never executed.
pub open spec fn fresh_proposal(proposer: Principal, content: ContentView, created_at: u64) -> ProposalView {
    ProposalView { proposer, content, status: Status::Pending, created_at, sent_at: None }
}

impl Proposal {
    /// A pending proposal that has never been executed.
    pub fn new(proposer: Principal, content: Content, created_at: u64) -> (r: Self)
        ensures
            r@ == fresh_proposal(proposer, content@, created_at),
    {
        Proposal { proposer, content, status: Status::Pending, created_at, sent_at: None }
    }

    /// A copy of this proposal.
    pub fn copy(&self) -> (r: Proposal)
        ensures
            r@ == self@,
    {
        Proposal {
            proposer: self.proposer,
            content: self.content.copy(),
            status: self.status,
            created_at: self.created_at,
            sent_at: self.sent_at,
        }
    }
}

/// A proposal with its identifier.
pub type ProposalEntry = (u64, Proposal);

/// The votes on a proposal with the proposal's identifier.
pub type VotesEntry = (u64, Votes);

} // verus!
