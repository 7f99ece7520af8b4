use vstd::prelude::*;
use candid::Principal;
use crate::models::Status;
use crate::principal::same_principal;

verus! {

/// A ballot on a request.
#[derive(Clone, Copy, Debug, PartialEq, Eq, Structural)]
pub enum VoteType {
    Approve,
    Reject,
}

/// A decisive verdict on a request.
#[derive(Clone, Copy, Debug, PartialEq, Eq, Structural)]
pub enum VoteResponse {
    Approve,
    Reject,
    Deadlock,
}

/// A change to the whitelist.
#[derive(Clone, Copy, Debug, PartialEq, Eq)]
pub enum WhitelistRequestType {
    Add(Principal),
    Remove(Principal),
}

/// A DIP20 transfer: recipient and value.
#[derive(Clone, Copy, Debug, PartialEq, Eq)]
pub struct Dip20TransferArgs {
    pub to: Principal,
    pub value: u64,
}

/// An ICRC-1 transfer to the default account of `to`.
#[derive(Clone, Copy, Debug, PartialEq, Eq)]
pub struct Icrc1TransferArgs {
    pub to: Principal,
    pub amount: u128,
}

/// A transfer in one of the supported token standards.
#[derive(Clone, Copy, Debug, PartialEq, Eq)]
pub enum TransferRequestType {
    DIP20(Dip20TransferArgs),
    ICRC1(Icrc1TransferArgs),
}

/// The principals that approved and rejected a request, in the order cast.
#[derive(Clone, Debug, PartialEq, Eq)]
pub struct Votes {
    pub approvals: Vec<Principal>,
    pub rejections: Vec<Principal>,
}

/// The mathematical value of [`Votes`].
pub struct VotesView {
    pub approvals: Seq<Principal>,
    pub rejections: Seq<Principal>,
}

impl View for Votes {
    type V = VotesView;

    open spec fn view(&self) -> VotesView {
        VotesView { approvals: self.approvals@, rejections: self.rejections@ }
    }
}

/// What every request carries: identity, status, votes, author and time.
#[derive(Clone, Debug, PartialEq, Eq)]
pub struct SharedData {
    pub id: u32,
    pub status: Status,
    pub votes: Votes,
    pub requested_by: Principal,
    pub created_at: u64,
}

/// The mathematical value of [`SharedData`].
pub struct SharedView {
    pub id: u32,
    pub status: Status,
    pub votes: VotesView,
    pub requested_by: Principal,
    pub created_at: u64,
}

impl View for SharedData {
    type V = SharedView;

    open spec fn view(&self) -> SharedView {
        SharedView {
            id: self.id,
            status: self.status,
            votes: self.votes@,
            requested_by: self.requested_by,
            created_at: self.created_at,
        }
    }
}

/// A request to transfer tokens of the ledger `canister_id`.
#[derive(Clone, Debug, PartialEq, Eq)]
pub struct TransactionRequestData {
    pub args: TransferRequestType,
    pub canister_id: Principal,
    pub data: SharedData,
}

/// The mathematical value of [`TransactionRequestData`].
pub struct TransactionView {
    pub args: TransferRequestType,
    pub canister_id: Principal,
    pub data: SharedView,
}

impl View for TransactionRequestData {
    type V = TransactionView;

    open spec fn view(&self) -> TransactionView {
        TransactionView { args: self.args, canister_id: self.canister_id, data: self.data@ }
    }
}

/// A request to change the whitelist.
#[derive(Clone, Debug, PartialEq, Eq)]
pub struct WhitelistRequestData {
    pub request_type: WhitelistRequestType,
    pub data: SharedData,
}

/// The mathematical value of [`WhitelistRequestData`].
pub struct WhitelistRequestView {
    pub request_type: WhitelistRequestType,
    pub data: SharedView,
}

impl View for WhitelistRequestData {
    type V = WhitelistRequestView;

    open spec fn view(&self) -> WhitelistRequestView {
        WhitelistRequestView { request_type: self.request_type, data: self.data@ }
    }
}

/// Whether `p` is in `v`.
pub fn contains_principal(v: &Vec<Principal>, p: &Principal) -> (r: bool)
    ensures
        r == v@.contains(*p),
{
    let mut i: usize = 0;
    while i < v.len()
        invariant
            0 <= i <= v@.len(),
            forall|k: int| 0 <= k < i ==> v@[k] != *p,
        decreases v@.len() - i,
    {
        if same_principal(&v[i], p) {
            return true;
        }
        i = i + 1;
    }
    false
}

/// A copy of a list of principals.
pub fn copy_principals(v: &Vec<Principal>) -> (r: Vec<Principal>)
    ensures
        r@ == v@,
{
    let mut out: Vec<Principal> = Vec::new();
    let mut i: usize = 0;
    while i < v.len()
        invariant
            0 <= i <= v@.len(),
            out@ == v@.subrange(0, i as int),
        decreases v@.len() - i,
    {
        out.push(v[i]);
        proof {
            assert(out@ =~= v@.subrange(0, i as int + 1));
        }
        i = i + 1;
    }
    proof {
        assert(out@ =~= v@);
    }
    out
}

impl Votes {
    /// A copy of these votes.
    pub fn copy(&self) -> (r: Votes)
        ensures
            r@ == self@,
    {
        Votes { approvals: copy_principals(&self.approvals), rejections: copy_principals(&self.rejections) }
    }
}

impl TransactionRequestData {
    /// A copy of this request.
    pub fn copy(&self) -> (r: TransactionRequestData)
        ensures
            r@ == self@,
    {
        TransactionRequestData {
            args: self.args,
            canister_id: self.canister_id,
            data: SharedData {
                id: self.data.id,
                status: self.data.status,
                votes: self.data.votes.copy(),
                requested_by: self.data.requested_by,
                created_at: self.data.created_at,
            },
        }
    }
}

} // verus!
