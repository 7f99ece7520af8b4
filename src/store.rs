use vstd::prelude::*;
use candid::Principal;
use crate::engine::status_matches;
use crate::models::Status;
use crate::requests::{
    TransactionRequestData, TransactionView, TransferRequestType, VoteResponse, VoteType, Votes,
    VotesView, WhitelistRequestData, WhitelistRequestView, SharedData, contains_principal,
};
use crate::tally::{TallyResult, tally, tally_spec};

verus! {

/// One day, in nanoseconds: the default lifetime of a request.
pub const DAY_IN_NANOS: u64 = 86_400_000_000_000;

/// The whitelist of a multisignature wallet and its requests. Transaction
/// request `i` has identifier `i`.
pub struct Store {
    pub owner: Principal,
    pub whitelist: Vec<Principal>,
    pub transaction_request_id: u32,
    pub transaction_requests: Vec<TransactionRequestData>,
    pub transaction_request_expiry: u64,
    pub whitelist_request_id: u32,
    pub whitelist_requests: Vec<WhitelistRequestData>,
    pub whitelist_request_expiry: u64,
}

/// The mathematical value of a [`Store`].
pub struct StoreView {
    pub owner: Principal,
    pub whitelist: Seq<Principal>,
    pub transaction_request_id: u32,
    pub transactions: Seq<TransactionView>,
    pub transaction_request_expiry: u64,
    pub whitelist_request_id: u32,
    pub whitelist_requests: Seq<WhitelistRequestView>,
    pub whitelist_request_expiry: u64,
}

impl View for Store {
    type V = StoreView;

    open spec fn view(&self) -> StoreView {
        StoreView {
            owner: self.owner,
            whitelist: self.whitelist@,
            transaction_request_id: self.transaction_request_id,
            transactions: self.transaction_requests@.map_values(|t: TransactionRequestData| t@),
            transaction_request_expiry: self.transaction_request_expiry,
            whitelist_request_id: self.whitelist_request_id,
            whitelist_requests: self.whitelist_requests@.map_values(|w: WhitelistRequestData| w@),
            whitelist_request_expiry: self.whitelist_request_expiry,
        }
    }
}

/// The store's invariant: request `i` has identifier `i`, and the next
/// identifier is the number of requests.
pub open spec fn store_wf(s: StoreView) -> bool {
    &&& s.transaction_request_id == s.transactions.len()
    &&& forall|i: int| 0 <= i < s.transactions.len() ==> (#[trigger] s.transactions[i]).data.id == i
}

/// `s` is in order of creation time.
pub open spec fn by_creation(s: Seq<TransactionView>) -> bool {
    forall|i: int, j: int|
        0 <= i <= j < s.len() ==> (#[trigger] s[i]).data.created_at <= (#[trigger] s[j]).data.created_at
}

/// `x` placed into `s` after every request created no later than it.
pub open spec fn insert_by_creation(s: Seq<TransactionView>, x: TransactionView) -> Seq<TransactionView>
    decreases s.len(),
{
    if s.len() == 0 {
        seq![x]
    } else if s.last().data.created_at <= x.data.created_at {
        s.push(x)
    } else {
        insert_by_creation(s.drop_last(), x).push(s.last())
    }
}

/// `s` sorted by creation time, requests created at the same time kept in
/// their order in `s`.
pub open spec fn sort_by_creation(s: Seq<TransactionView>) -> Seq<TransactionView>
    decreases s.len(),
{
    if s.len() == 0 {
        Seq::empty()
    } else {
        insert_by_creation(sort_by_creation(s.drop_last()), s.last())
    }
}

/// Where the requests from `k` on are the ones created after `x`, placing
/// `x` is inserting it at `k`, and keeps a sorted sequence sorted.
proof fn lemma_insert_at(s: Seq<TransactionView>, x: TransactionView, k: int)
    requires
        0 <= k <= s.len(),
        forall|j: int| k <= j < s.len() ==> (#[trigger] s[j]).data.created_at > x.data.created_at,
        k > 0 ==> s[k - 1].data.created_at <= x.data.created_at,
    ensures
        insert_by_creation(s, x) == s.insert(k, x),
        by_creation(s) ==> by_creation(s.insert(k, x)),
    decreases s.len(),
{
    if s.len() == 0 {
        assert(s.insert(0, x) =~= seq![x]);
    } else if k == s.len() {
        assert(s.insert(k, x) =~= s.push(x));
    } else {
        let d = s.drop_last();
        lemma_insert_at(d, x, k);
        assert(d.insert(k, x).push(s.last()) =~= s.insert(k, x));
    }
    if by_creation(s) {
        let t = s.insert(k, x);
        assert forall|i: int, j: int| 0 <= i <= j < t.len() implies (#[trigger] t[i]).data.created_at
            <= (#[trigger] t[j]).data.created_at by {
            if i < k && j > k {
                assert(t[i] == s[i] && t[j] == s[j - 1]);
            } else if i < k && j == k {
                assert(t[i] == s[i] && s[i].data.created_at <= s[k - 1].data.created_at);
            } else if i < k {
                assert(t[i] == s[i] && t[j] == s[j]);
            } else if i == k && j > k {
                assert(t[j] == s[j - 1]);
            } else if i > k {
                assert(t[i] == s[i - 1] && t[j] == s[j - 1]);
            }
        }
    }
}

/// Whether `caller` may act: whitelisted or the owner.
pub open spec fn may_act(s: StoreView, caller: Principal) -> bool {
    s.whitelist.contains(caller) || caller == s.owner
}

/// Why `caller` may not vote again on a request with votes `v`, if so.
pub open spec fn duplicate_vote(caller: Principal, v: VotesView) -> Option<Seq<char>> {
    if v.approvals.contains(caller) {
        Some("Approval vote already cast"@)
    } else if v.rejections.contains(caller) {
        Some("Rejection vote already cast"@)
    } else {
        None
    }
}

/// The requests of `s` listed under `filter`, oldest first.
pub open spec fn transactions_listed(s: StoreView, filter: Option<Status>) -> Seq<TransactionView> {
    s.transactions.filter(|t: TransactionView| status_matches(filter, t.data.status))
}

/// The state after adding a new pending request with no votes.
pub open spec fn request_spec(
    s: StoreView,
    caller: Principal,
    canister_id: Principal,
    args: TransferRequestType,
    now: u64,
) -> StoreView {
    let data = crate::requests::SharedView {
        id: s.transaction_request_id,
        status: Status::Pending,
        votes: VotesView { approvals: Seq::empty(), rejections: Seq::empty() },
        requested_by: caller,
        created_at: now,
    };
    StoreView {
        transaction_request_id: (s.transaction_request_id + 1) as u32,
        transactions: s.transactions.push(TransactionView { args, canister_id, data }),
        ..s
    }
}

/// The outcome of recording `caller`'s ballot on request `id`, before any
/// tally.
pub open spec fn record_spec(s: StoreView, caller: Principal, id: u32, vote: VoteType) -> Result<StoreView, Seq<char>> {
    if !s.whitelist.contains(caller) {
        Err("Caller is not whitelisted"@)
    } else if id >= s.transactions.len() {
        Err("Transaction request not found"@)
    } else if s.transactions[id as int].data.status != Status::Pending {
        Err("Transaction request is not pending"@)
    } else if duplicate_vote(caller, s.transactions[id as int].data.votes) is Some {
        Err(duplicate_vote(caller, s.transactions[id as int].data.votes)->Some_0)
    } else {
        let t = s.transactions[id as int];
        let v = t.data.votes;
        let votes = match vote {
            VoteType::Approve => VotesView { approvals: v.approvals.push(caller), ..v },
            VoteType::Reject => VotesView { rejections: v.rejections.push(caller), ..v },
        };
        Ok(with_transaction(s, id, TransactionView { data: crate::requests::SharedView { votes, ..t.data }, ..t }))
    }
}

/// `s` with request `id` replaced by `t`.
pub open spec fn with_transaction(s: StoreView, id: u32, t: TransactionView) -> StoreView {
    StoreView { transactions: s.transactions.update(id as int, t), ..s }
}

/// `s` with request `id` set to status `st`.
pub open spec fn with_status(s: StoreView, id: u32, st: Status) -> StoreView {
    let t = s.transactions[id as int];
    with_transaction(s, id, TransactionView { data: crate::requests::SharedView { status: st, ..t.data }, ..t })
}

/// The verdict on request `id` against the whole whitelist.
pub open spec fn majority_spec(s: StoreView, id: u32) -> TallyResult {
    let v = s.transactions[id as int].data.votes;
    tally_spec(v.approvals.len() as int, v.rejections.len() as int, s.whitelist.len() as int)
}

/// What a vote leads to once it is recorded.
#[derive(Debug)]
pub enum TransactionVote {
    /// The request was approved: its transfer is to be carried out.
    Transfer(TransactionRequestData),
    /// The request was settled without a transfer, with this message.
    Settled(String),
    /// The ballot was recorded and the request is still pending.
    Pending,
}

/// The message that reports a transfer of an approved request.
pub open spec fn transfer_message(args: TransferRequestType, sent: bool) -> Result<Seq<char>, Seq<char>> {
    match (args, sent) {
        (TransferRequestType::DIP20(_), true) => Ok("DIP20 transaction send request approved"@),
        (TransferRequestType::DIP20(_), false) => Err("DIP20 transaction send request failed"@),
        (TransferRequestType::ICRC1(_), true) => Ok("ICRC transaction send request approved"@),
        (TransferRequestType::ICRC1(_), false) => Err("ICRC transaction send request failed"@),
    }
}

/// The balance a transfer needs, in the token's smallest unit.
pub open spec fn amount_of(args: TransferRequestType) -> int {
    match args {
        TransferRequestType::DIP20(a) => a.value as int,
        TransferRequestType::ICRC1(a) => a.amount as int,
    }
}

/// The message for a balance too small for a transfer.
pub open spec fn insufficient_message(args: TransferRequestType) -> Seq<char> {
    match args {
        TransferRequestType::DIP20(_) => "Insufficient DIP20 balance"@,
        TransferRequestType::ICRC1(_) => "Insufficient ICRC balance"@,
    }
}

impl Default for Store {
    /// An empty store, owned by the anonymous principal, whose requests
    /// last one day.
    fn default() -> (r: Self)
        ensures
            r.well_formed(),
            r@.whitelist.len() == 0,
            r@.transactions.len() == 0,
            r@.transaction_request_id == 0,
            r@.transaction_request_expiry == DAY_IN_NANOS,
            r@.whitelist_request_id == 0,
            r@.whitelist_requests.len() == 0,
            r@.whitelist_request_expiry == DAY_IN_NANOS,
    {
        Store {
            owner: Principal::anonymous(),
            whitelist: Vec::new(),
            transaction_request_id: 0,
            transaction_requests: Vec::new(),
            transaction_request_expiry: DAY_IN_NANOS,
            whitelist_request_id: 0,
            whitelist_requests: Vec::new(),
            whitelist_request_expiry: DAY_IN_NANOS,
        }
    }
}

/// What a vote on request `id` by `caller` does: a ballot that cannot be
/// recorded changes nothing; a recorded one settles the request where the
/// whole whitelist gives a majority or a tie, and otherwise leaves it
/// pending, which is no failure.
pub open spec fn vote_post(
    s: StoreView,
    caller: Principal,
    id: u32,
    vote: VoteType,
    after: StoreView,
    r: Result<TransactionVote, String>,
) -> bool {
    match record_spec(s, caller, id, vote) {
        Err(msg) => after == s && r is Err && r->Err_0@ == msg,
        Ok(s1) => match majority_spec(s1, id) {
            TallyResult::Approve => {
                &&& after == with_status(s1, id, Status::Approved)
                &&& r is Ok && r->Ok_0 is Transfer
                &&& r->Ok_0->Transfer_0@ == after.transactions[id as int]
            },
            TallyResult::Reject => {
                &&& after == with_status(s1, id, Status::Rejected)
                &&& r is Ok && r->Ok_0 is Settled
                &&& r->Ok_0->Settled_0@ == "Transaction request rejected"@
            },
            TallyResult::Deadlock => {
                &&& after == with_status(s1, id, Status::Deadlock)
                &&& r is Ok && r->Ok_0 is Settled
                &&& r->Ok_0->Settled_0@ == "Transaction request deadlocked"@
            },
            TallyResult::NotReached => after == s1 && r == Ok::<TransactionVote, String>(TransactionVote::Pending),
        },
    }
}

impl Store {
    /// The store's invariant holds.
    pub open spec fn well_formed(&self) -> bool {
        store_wf(self@)
    }

    /// Makes `owner` the owner and adds it to the whitelist.
    pub fn init(&mut self, owner: Principal)
        requires
            old(self).well_formed(),
        ensures
            final(self).well_formed(),
            final(self)@ == (StoreView { owner, whitelist: old(self)@.whitelist.push(owner), ..old(self)@ }),
    {
        self.owner = owner;
        self.whitelist.push(owner);
    }

    /// `Ok` exactly when `caller` is whitelisted or is the owner.
    pub fn is_whitelisted(&self, caller: &Principal) -> (r: Result<(), String>)
        ensures
            r is Ok <==> may_act(self@, *caller),
            r is Err ==> r->Err_0@ == "Caller is not whitelisted"@,
    {
        if contains_principal(&self.whitelist, caller) || crate::principal::same_principal(caller, &self.owner) {
            Ok(())
        } else {
            Err("Caller is not whitelisted".to_string())
        }
    }

    /// `Ok` exactly when `caller` has not voted in `votes`.
    pub fn check_duplicate_vote(caller: &Principal, votes: &Votes) -> (r: Result<(), String>)
        ensures
            r is Ok <==> duplicate_vote(*caller, votes@) is None,
            r is Err ==> r->Err_0@ == duplicate_vote(*caller, votes@)->Some_0,
    {
        if contains_principal(&votes.approvals, caller) {
            Err("Approval vote already cast".to_string())
        } else if contains_principal(&votes.rejections, caller) {
            Err("Rejection vote already cast".to_string())
        } else {
            Ok(())
        }
    }

    /// Transaction requests of status `status` (of any status where it is
    /// `None`), oldest first.
    pub fn get_transaction_requests(&self, status: Option<Status>) -> (r: Vec<TransactionRequestData>)
        requires
            self.well_formed(),
        ensures
            r@.map_values(|t: TransactionRequestData| t@) == sort_by_creation(transactions_listed(self@, status)),
            by_creation(r@.map_values(|t: TransactionRequestData| t@)),
    {
        let ghost all = self@.transactions;
        let ghost keep = |t: TransactionView| status_matches(status, t.data.status);
        let mut out: Vec<TransactionRequestData> = Vec::new();
        let mut i: usize = 0;
        while i < self.transaction_requests.len()
            invariant
                self.well_formed(),
                all == self@.transactions,
                keep == (|t: TransactionView| status_matches(status, t.data.status)),
                0 <= i <= all.len(),
                out@.map_values(|t: TransactionRequestData| t@) == all.subrange(0, i as int).filter(keep),
            decreases all.len() - i,
        {
            let ghost before = out@;
            proof {
                reveal(Seq::filter);
                assert(all.subrange(0, i as int + 1).drop_last() =~= all.subrange(0, i as int));
                assert(all[i as int] == self.transaction_requests@[i as int]@);
            }
            let keep_it = match status {
                Some(st) => self.transaction_requests[i].data.status == st,
                None => true,
            };
            if keep_it {
                out.push(self.transaction_requests[i].copy());
                proof {
                    assert(out@.map_values(|t: TransactionRequestData| t@) =~= before.map_values(
                        |t: TransactionRequestData| t@,
                    ).push(all[i as int]));
                }
            }
            i = i + 1;
        }
        proof {
            assert(all.subrange(0, i as int) =~= all);
        }
        Self::sorted_by_creation(&out)
    }

    /// The requests of `v` sorted by creation time, stably.
    fn sorted_by_creation(v: &Vec<TransactionRequestData>) -> (r: Vec<TransactionRequestData>)
        ensures
            r@.map_values(|t: TransactionRequestData| t@) == sort_by_creation(v@.map_values(|t: TransactionRequestData| t@)),
            by_creation(r@.map_values(|t: TransactionRequestData| t@)),
    {
        let ghost src = v@.map_values(|t: TransactionRequestData| t@);
        let mut sorted: Vec<TransactionRequestData> = Vec::new();
        let mut i: usize = 0;
        while i < v.len()
            invariant
                0 <= i <= v@.len(),
                src == v@.map_values(|t: TransactionRequestData| t@),
                sorted@.map_values(|t: TransactionRequestData| t@) == sort_by_creation(src.subrange(0, i as int)),
                by_creation(sorted@.map_values(|t: TransactionRequestData| t@)),
            decreases v@.len() - i,
        {
            let ghost before = sorted@.map_values(|t: TransactionRequestData| t@);
            let x = v[i].copy();
            let mut k: usize = sorted.len();
            while k > 0 && sorted[k - 1].data.created_at > x.data.created_at
                invariant
                    0 <= k <= sorted@.len(),
                    before == sorted@.map_values(|t: TransactionRequestData| t@),
                    forall|j: int| k <= j < before.len() ==> (#[trigger] before[j]).data.created_at > x@.data.created_at,
                decreases k,
            {
                k = k - 1;
            }
            proof {
                lemma_insert_at(before, x@, k as int);
                assert(src.subrange(0, i as int + 1).drop_last() =~= src.subrange(0, i as int));
                assert(src.subrange(0, i as int + 1).last() == src[i as int]);
            }
            sorted.insert(k, x);
            proof {
                assert(sorted@.map_values(|t: TransactionRequestData| t@) =~= before.insert(k as int, x@));
            }
            i = i + 1;
        }
        proof {
            assert(src.subrange(0, i as int) =~= src);
        }
        sorted
    }

    /// Adds a pending request from `caller` at time `now`, given the outcome
    /// of the balance check, then casts the caller's approval on it. Returns
    /// the new identifier with the outcome of that vote.
    pub fn transaction_request(
        &mut self,
        caller: Principal,
        canister_id: Principal,
        args: TransferRequestType,
        now: u64,
        balance: Result<(), String>,
    ) -> (r: Result<(u32, Result<TransactionVote, String>), String>)
        requires
            old(self).well_formed(),
            old(self)@.transaction_request_id < u32::MAX,
        ensures
            final(self).well_formed(),
            !may_act(old(self)@, caller) ==> final(self)@ == old(self)@ && r is Err
                && r->Err_0@ == "Caller is not whitelisted"@,
            may_act(old(self)@, caller) && balance is Err ==> final(self)@ == old(self)@ && r is Err
                && r->Err_0 == balance->Err_0,
            may_act(old(self)@, caller) && balance is Ok ==> {
                let created = request_spec(old(self)@, caller, canister_id, args, now);
                let id = old(self)@.transaction_request_id;
                &&& r is Ok
                &&& r->Ok_0.0 == id
                &&& vote_post(created, caller, id, VoteType::Approve, final(self)@, r->Ok_0.1)
            },
    {
        if let Err(e) = self.is_whitelisted(&caller) {
            return Err(e);
        }
        if let Err(e) = balance {
            return Err(e);
        }
        let id = self.transaction_request_id;
        let data = TransactionRequestData {
            args,
            canister_id,
            data: SharedData {
                id,
                status: Status::Pending,
                votes: Votes { approvals: Vec::new(), rejections: Vec::new() },
                requested_by: caller,
                created_at: now,
            },
        };
        self.transaction_request_id = id + 1;
        self.transaction_requests.push(data);
        proof {
            let created = request_spec(old(self)@, caller, canister_id, args, now);
            assert(self@.transactions[id as int].data.votes.approvals =~= Seq::<Principal>::empty());
            assert(self@.transactions[id as int].data.votes.rejections =~= Seq::<Principal>::empty());
            assert(self@.transactions =~= created.transactions);
        }
        let outcome = self.vote_on_transaction_request(caller, id, VoteType::Approve);
        Ok((id, outcome))
    }

    /// Records `caller`'s ballot on request `request_id`, then settles the
    /// request where the whole whitelist gives a majority or a tie.
    pub fn vote_on_transaction_request(
        &mut self,
        caller: Principal,
        request_id: u32,
        vote: VoteType,
    ) -> (r: Result<TransactionVote, String>)
        requires
            old(self).well_formed(),
        ensures
            final(self).well_formed(),
            vote_post(old(self)@, caller, request_id, vote, final(self)@, r),
    {
        if !contains_principal(&self.whitelist, &caller) {
            return Err("Caller is not whitelisted".to_string());
        }
        if request_id as usize >= self.transaction_requests.len() {
            return Err("Transaction request not found".to_string());
        }
        let i = request_id as usize;
        if self.transaction_requests[i].data.status != Status::Pending {
            return Err("Transaction request is not pending".to_string());
        }
        if let Err(e) = Self::check_duplicate_vote(&caller, &self.transaction_requests[i].data.votes) {
            return Err(e);
        }
        let ghost s1 = record_spec(old(self)@, caller, request_id, vote)->Ok_0;
        let mut t = self.transaction_requests[i].copy();
        match vote {
            VoteType::Approve => t.data.votes.approvals.push(caller),
            VoteType::Reject => t.data.votes.rejections.push(caller),
        }
        self.transaction_requests.set(i, t);
        proof {
            assert(self@.transactions =~= s1.transactions);
        }
        match self.get_transaction_request_majority(request_id) {
            Ok(VoteResponse::Approve) => match self.approve_transaction_request(request_id) {
                Ok(t) => Ok(TransactionVote::Transfer(t)),
                Err(e) => Err(e),
            },
            Ok(VoteResponse::Reject) => match self.reject_transaction_request(request_id, false) {
                Ok(m) => Ok(TransactionVote::Settled(m)),
                Err(e) => Err(e),
            },
            Ok(VoteResponse::Deadlock) => match self.reject_transaction_request(request_id, true) {
                Ok(m) => Ok(TransactionVote::Settled(m)),
                Err(e) => Err(e),
            },
            Err(_) => Ok(TransactionVote::Pending),
        }
    }

    /// The verdict of the whole whitelist on request `request_id`; no
    /// majority and no tie is an error.
    fn get_transaction_request_majority(&self, request_id: u32) -> (r: Result<VoteResponse, String>)
        requires
            self.well_formed(),
            self@.whitelist.len() > 0,
        ensures
            request_id >= self@.transactions.len() ==> r is Err && r->Err_0@ == "Transaction request not found"@,
            request_id < self@.transactions.len() && majority_spec(self@, request_id) == TallyResult::Approve ==> r == Ok::<VoteResponse, String>(VoteResponse::Approve),
            request_id < self@.transactions.len() && majority_spec(self@, request_id) == TallyResult::Reject ==> r == Ok::<VoteResponse, String>(VoteResponse::Reject),
            request_id < self@.transactions.len() && majority_spec(self@, request_id) == TallyResult::Deadlock ==> r == Ok::<VoteResponse, String>(VoteResponse::Deadlock),
            request_id < self@.transactions.len() && majority_spec(self@, request_id) == TallyResult::NotReached ==> r is Err && r->Err_0@ == "No majority reached"@,
    {
        if request_id as usize >= self.transaction_requests.len() {
            return Err("Transaction request not found".to_string());
        }
        let votes = &self.transaction_requests[request_id as usize].data.votes;
        match tally(votes.approvals.len() as u64, votes.rejections.len() as u64, self.whitelist.len() as u64) {
            TallyResult::Approve => Ok(VoteResponse::Approve),
            TallyResult::Reject => Ok(VoteResponse::Reject),
            TallyResult::Deadlock => Ok(VoteResponse::Deadlock),
            TallyResult::NotReached => Err("No majority reached".to_string()),
        }
    }

    /// Marks request `request_id` approved and returns it, to be transferred.
    fn approve_transaction_request(&mut self, request_id: u32) -> (r: Result<TransactionRequestData, String>)
        requires
            old(self).well_formed(),
        ensures
            final(self).well_formed(),
            request_id >= old(self)@.transactions.len() ==> final(self)@ == old(self)@ && r is Err
                && r->Err_0@ == "Transaction request not found"@,
            request_id < old(self)@.transactions.len() ==> final(self)@ == with_status(old(self)@, request_id, Status::Approved)
                && r is Ok && r->Ok_0@ == final(self)@.transactions[request_id as int],
    {
        if request_id as usize >= self.transaction_requests.len() {
            return Err("Transaction request not found".to_string());
        }
        let i = request_id as usize;
        self.transaction_requests[i].data.status = Status::Approved;
        proof {
            assert(self@.transactions =~= with_status(old(self)@, request_id, Status::Approved).transactions);
        }
        Ok(self.transaction_requests[i].copy())
    }

    /// Marks request `request_id` deadlocked or rejected.
    fn reject_transaction_request(&mut self, request_id: u32, deadlock: bool) -> (r: Result<String, String>)
        requires
            old(self).well_formed(),
        ensures
            final(self).well_formed(),
            request_id >= old(self)@.transactions.len() ==> final(self)@ == old(self)@ && r is Err
                && r->Err_0@ == "Transaction request not found"@,
            request_id < old(self)@.transactions.len() && deadlock ==> final(self)@ == with_status(old(self)@, request_id, Status::Deadlock)
                && r is Ok && r->Ok_0@ == "Transaction request deadlocked"@,
            request_id < old(self)@.transactions.len() && !deadlock ==> final(self)@ == with_status(old(self)@, request_id, Status::Rejected)
                && r is Ok && r->Ok_0@ == "Transaction request rejected"@,
    {
        if request_id as usize >= self.transaction_requests.len() {
            return Err("Transaction request not found".to_string());
        }
        let i = request_id as usize;
        if deadlock {
            self.transaction_requests[i].data.status = Status::Deadlock;
            proof {
                assert(self@.transactions =~= with_status(old(self)@, request_id, Status::Deadlock).transactions);
            }
            Ok("Transaction request deadlocked".to_string())
        } else {
            self.transaction_requests[i].data.status = Status::Rejected;
            proof {
                assert(self@.transactions =~= with_status(old(self)@, request_id, Status::Rejected).transactions);
            }
            Ok("Transaction request rejected".to_string())
        }
    }

    /// Expires request `request_id` if it is still pending; otherwise, or
    /// where there is no such request, nothing changes.
    pub fn expire_transaction_requests(&mut self, request_id: &u32)
        requires
            old(self).well_formed(),
        ensures
            final(self).well_formed(),
            (*request_id < old(self)@.transactions.len()
                && old(self)@.transactions[*request_id as int].data.status == Status::Pending)
                ==> final(self)@ == with_status(old(self)@, *request_id, Status::Expired),
            !(*request_id < old(self)@.transactions.len()
                && old(self)@.transactions[*request_id as int].data.status == Status::Pending)
                ==> final(self)@ == old(self)@,
    {
        let id = *request_id;
        if (id as usize) < self.transaction_requests.len() {
            let i = id as usize;
            if self.transaction_requests[i].data.status == Status::Pending {
                self.transaction_requests[i].data.status = Status::Expired;
                proof {
                    assert(self@.transactions =~= with_status(old(self)@, id, Status::Expired).transactions);
                }
            }
        }
    }

    /// `Ok` exactly when `balance` covers the transfer `args`.
    pub fn check_balance(balance: u128, args: &TransferRequestType) -> (r: Result<(), String>)
        ensures
            r is Ok <==> balance >= amount_of(*args),
            r is Err ==> r->Err_0@ == insufficient_message(*args),
    {
        match args {
            TransferRequestType::DIP20(a) => {
                if balance < a.value as u128 {
                    return Err("Insufficient DIP20 balance".to_string());
                }
            },
            TransferRequestType::ICRC1(a) => {
                if balance < a.amount {
                    return Err("Insufficient ICRC balance".to_string());
                }
            },
        }
        Ok(())
    }

    /// The report on the transfer of an approved request, by whether the
    /// ledger accepted it.
    pub fn transfer_outcome(args: &TransferRequestType, sent: bool) -> (r: Result<String, String>)
        ensures
            transfer_message(*args, sent) is Ok ==> r is Ok && r->Ok_0@ == transfer_message(*args, sent)->Ok_0,
            transfer_message(*args, sent) is Err ==> r is Err && r->Err_0@ == transfer_message(*args, sent)->Err_0,
    {
        match (args, sent) {
            (TransferRequestType::DIP20(_), true) => Ok("DIP20 transaction send request approved".to_string()),
            (TransferRequestType::DIP20(_), false) => Err("DIP20 transaction send request failed".to_string()),
            (TransferRequestType::ICRC1(_), true) => Ok("ICRC transaction send request approved".to_string()),
            (TransferRequestType::ICRC1(_), false) => Err("ICRC transaction send request failed".to_string()),
        }
    }
}

} // verus!
