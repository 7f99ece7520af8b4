use vstd::prelude::*;
use candid::Principal;
use crate::error::{Error, ErrorKind, has_message};
use crate::models::{
    Content, ContentView, Proposal, ProposalEntry, ProposalView, Status, Vote, VoteKind, Votes,
    VotesEntry, count_kind, fresh_proposal, has_voted, unique_voters,
};
use crate::laws::law_vote_unique;
use crate::tally::{TallyResult, tally, tally_spec};

verus! {

/// Nanoseconds in one second.
pub const NANOS_PER_SEC: u64 = 1_000_000_000;

/// A one-shot expiry armed at creation: after `after_nanos` nanoseconds,
/// proposal `id` expires if it is still pending.
#[derive(Clone, Copy, Debug, PartialEq, Eq, Structural)]
pub struct Expiry {
    pub id: u64,
    pub after_nanos: u64,
}

/// A listed proposal with its identifier.
pub type ProposalResponse = ProposalEntry;

/// The proposal and voting engine. Proposal `i` has identifier `i`;
/// identifiers are assigned in order and never reused.
pub struct ProposalLogic {
    proposals: Vec<Proposal>,
    votes: Vec<Votes>,
    whitelist: Vec<Principal>,
    voting_period: u64,
    scheduled: Vec<Expiry>,
}

/// The mathematical state of the engine.
pub struct EngineView {
    /// Proposal `i` is the one with identifier `i`.
    pub proposals: Seq<ProposalView>,
    /// `votes[i]` are the ballots on proposal `i`, in the order cast.
    pub votes: Seq<Seq<Vote>>,
    /// The whitelisted principals; the owner holds one more, implicit seat.
    pub whitelist: Seq<Principal>,
    /// The voting period, in nanoseconds, for proposals created from now on.
    pub voting_period: u64,
    /// Expiries armed and not yet handed to the scheduler.
    pub scheduled: Seq<Expiry>,
}

impl View for ProposalLogic {
    type V = EngineView;

    closed spec fn view(&self) -> EngineView {
        EngineView {
            proposals: self.proposals@.map_values(|p: Proposal| p@),
            votes: self.votes@.map_values(|v: Votes| v@),
            whitelist: self.whitelist@,
            voting_period: self.voting_period,
            scheduled: self.scheduled@,
        }
    }
}

/// The engine's invariant: one vote record per proposal, no principal twice
/// in a vote record, and only an approved proposal ever executed.
pub open spec fn engine_wf(s: EngineView) -> bool {
    &&& s.proposals.len() == s.votes.len()
    &&& s.proposals.len() <= u64::MAX
    &&& s.whitelist.len() < u64::MAX
    &&& forall|i: int| 0 <= i < s.votes.len() ==> unique_voters(#[trigger] s.votes[i])
    &&& forall|i: int|
        0 <= i < s.proposals.len() && (#[trigger] s.proposals[i]).sent_at is Some
            ==> s.proposals[i].status == Status::Approved
}

/// The number of seats: the whitelist plus the owner.
pub open spec fn quorum(s: EngineView) -> int {
    s.whitelist.len() + 1int
}

/// The status that a verdict leads a pending proposal to.
pub open spec fn status_after(verdict: TallyResult) -> Status {
    match verdict {
        TallyResult::Approve => Status::Approved,
        TallyResult::Reject => Status::Rejected,
        TallyResult::Deadlock => Status::Deadlock,
        TallyResult::NotReached => Status::Pending,
    }
}

/// The verdict on a sequence of votes in state `s`.
pub open spec fn verdict_of(s: EngineView, votes: Seq<Vote>) -> TallyResult {
    tally_spec(
        count_kind(votes, VoteKind::Approve) as int,
        count_kind(votes, VoteKind::Reject) as int,
        quorum(s),
    )
}

/// A failed operation: the error's kind and message.
pub type Failure = (ErrorKind, Seq<char>);

/// Whether `id` names a proposal of `s`.
pub open spec fn known(s: EngineView, id: u64) -> bool {
    id < s.proposals.len()
}

/// The state after creating a proposal, once its feasibility check passed.
pub open spec fn propose_spec(s: EngineView, caller: Principal, content: ContentView, now: u64) -> EngineView {
    EngineView {
        proposals: s.proposals.push(fresh_proposal(caller, content, now)),
        votes: s.votes.push(seq![Vote { principal: caller, kind: VoteKind::Approve }]),
        scheduled: s.scheduled.push(Expiry { id: s.proposals.len() as u64, after_nanos: s.voting_period }),
        ..s
    }
}

/// The outcome of `caller` casting `kind` on proposal `id`.
pub open spec fn vote_spec(s: EngineView, caller: Principal, id: u64, kind: VoteKind) -> Result<EngineView, Failure> {
    if !known(s, id) {
        Err((ErrorKind::NotFound, "Proposal not found"@))
    } else if s.proposals[id as int].status != Status::Pending {
        Err((ErrorKind::BadRequest, "Proposal is not pending"@))
    } else if has_voted(s.votes[id as int], caller) {
        Err((ErrorKind::BadRequest, "Vote already cast"@))
    } else {
        let votes = s.votes[id as int].push(Vote { principal: caller, kind });
        let p = s.proposals[id as int];
        Ok(EngineView {
            proposals: s.proposals.update(id as int, ProposalView { status: status_after(verdict_of(s, votes)), ..p }),
            votes: s.votes.update(id as int, votes),
            ..s
        })
    }
}

/// The outcome of committing the execution of proposal `id` at time `now`.
pub open spec fn execute_spec(s: EngineView, id: u64, now: u64) -> Result<EngineView, Failure> {
    if !known(s, id) {
        Err((ErrorKind::NotFound, "Proposal not found"@))
    } else if s.proposals[id as int].status != Status::Approved {
        Err((ErrorKind::BadRequest, "Proposal is not approved"@))
    } else if s.proposals[id as int].sent_at is Some {
        Err((ErrorKind::BadRequest, "Proposal already executed"@))
    } else {
        let p = s.proposals[id as int];
        Ok(EngineView { proposals: s.proposals.update(id as int, ProposalView { sent_at: Some(now), ..p }), ..s })
    }
}

/// The state after the expiry of proposal `id` fires.
pub open spec fn expire_spec(s: EngineView, id: u64) -> EngineView {
    if known(s, id) && s.proposals[id as int].status == Status::Pending {
        let p = s.proposals[id as int];
        EngineView { proposals: s.proposals.update(id as int, ProposalView { status: Status::Expired, ..p }), ..s }
    } else {
        s
    }
}

/// Whether a proposal of status `st` is listed under `filter`.
pub open spec fn status_matches(filter: Option<Status>, st: Status) -> bool {
    match filter {
        Some(f) => f == st,
        None => true,
    }
}

/// The proposals of `ps` listed under `filter`, with their identifiers, in
/// order of identifier.
pub open spec fn listing(ps: Seq<ProposalView>, filter: Option<Status>) -> Seq<(u64, ProposalView)>
    decreases ps.len(),
{
    if ps.len() == 0 {
        Seq::empty()
    } else {
        let rest = listing(ps.drop_last(), filter);
        if status_matches(filter, ps.last().status) {
            rest.push(((ps.len() - 1) as u64, ps.last()))
        } else {
            rest
        }
    }
}

/// The mathematical value of a list of entries.
pub open spec fn entries_view(v: Seq<(u64, Proposal)>) -> Seq<(u64, ProposalView)> {
    v.map_values(|e: (u64, Proposal)| (e.0, e.1@))
}

/// The ballots of `votes` that a kind filter keeps.
pub open spec fn votes_of(votes: Seq<Vote>, kind: Option<VoteKind>) -> Seq<Vote> {
    match kind {
        Some(k) => votes.filter(|v: Vote| v.kind == k),
        None => votes,
    }
}

/// `r` is an error of kind `f.0` with message `f.1`, raised at `now`.
pub open spec fn fails_with<T>(r: Result<T, Error>, f: Failure, now: u64) -> bool {
    &&& r is Err
    &&& has_message(r->Err_0, f.0, f.1)
    &&& r->Err_0.timestamp == now
}

impl ProposalLogic {
    /// The engine's invariant holds.
    pub open spec fn well_formed(&self) -> bool {
        engine_wf(self@)
    }

    /// An engine with no proposals.
    pub fn new(whitelist: Vec<Principal>, voting_period: u64) -> (r: Self)
        requires
            whitelist@.len() < u64::MAX,
        ensures
            r.well_formed(),
            r@.proposals.len() == 0,
            r@.whitelist == whitelist@,
            r@.voting_period == voting_period,
            r@.scheduled.len() == 0,
    {
        let r = ProposalLogic {
            proposals: Vec::new(),
            votes: Vec::new(),
            whitelist,
            voting_period,
            scheduled: Vec::new(),
        };
        proof {
            assert(r@.proposals =~= Seq::empty());
            assert(r@.votes =~= Seq::empty());
        }
        r
    }

    /// The number of proposals created so far.
    pub fn proposal_count(&self) -> (r: u64)
        requires
            self.well_formed(),
        ensures
            r == self@.proposals.len(),
    {
        self.proposals.len() as u64
    }

    /// Whether `p` is on the whitelist.
    pub fn is_member(&self, p: &Principal) -> (r: bool)
        ensures
            r == self@.whitelist.contains(*p),
    {
        crate::requests::contains_principal(&self.whitelist, p)
    }

    /// Replaces the whitelist; later tallies count its new size.
    pub fn set_whitelist(&mut self, whitelist: Vec<Principal>)
        requires
            old(self).well_formed(),
            whitelist@.len() < u64::MAX,
        ensures
            final(self).well_formed(),
            final(self)@ == (EngineView { whitelist: whitelist@, ..old(self)@ }),
    {
        self.whitelist = whitelist;
    }

    /// The voting period, in whole seconds.
    pub fn get_voting_period(&self) -> (r: u64)
        ensures
            r == self@.voting_period / NANOS_PER_SEC,
    {
        self.voting_period / NANOS_PER_SEC
    }

    /// Sets the voting period, in nanoseconds, of proposals created from now
    /// on, and returns it.
    pub fn set_voting_period(&mut self, nanos_period: u64) -> (r: u64)
        requires
            old(self).well_formed(),
        ensures
            final(self).well_formed(),
            final(self)@ == (EngineView { voting_period: nanos_period, ..old(self)@ }),
            r == nanos_period,
    {
        self.voting_period = nanos_period;
        nanos_period
    }

    /// The verdict on `votes` against the current membership.
    fn get_tally_result(&self, votes: &Votes) -> (r: TallyResult)
        requires
            self.well_formed(),
        ensures
            r == verdict_of(self@, votes@),
    {
        let quorum: u64 = self.whitelist.len() as u64 + 1;
        tally(votes.approvals(), votes.rejections(), quorum)
    }

    /// Proposal `id`.
    pub fn get_proposal(&self, id: u64, now: u64) -> (r: Result<ProposalEntry, Error>)
        requires
            self.well_formed(),
        ensures
            known(self@, id) ==> r is Ok && r->Ok_0.0 == id && r->Ok_0.1@ == self@.proposals[id as int],
            !known(self@, id) ==> fails_with(r, (ErrorKind::NotFound, "Proposal not found"@), now),
    {
        if id >= self.proposals.len() as u64 {
            return Err(Error::not_found(now).add_message("Proposal not found"));
        }
        Ok((id, self.proposals[id as usize].copy()))
    }

    /// The proposals of status `status` (of any status where it is `None`),
    /// in order of identifier.
    pub fn get_proposals(&self, status: Option<Status>) -> (r: Vec<ProposalResponse>)
        requires
            self.well_formed(),
        ensures
            entries_view(r@) == listing(self@.proposals, status),
    {
        let mut out: Vec<ProposalResponse> = Vec::new();
        let mut i: usize = 0;
        while i < self.proposals.len()
            invariant
                self.well_formed(),
                0 <= i <= self.proposals@.len(),
                entries_view(out@) == listing(self@.proposals.subrange(0, i as int), status),
            decreases self.proposals@.len() - i,
        {
            let ghost before = out@;
            proof {
                assert(self@.proposals.subrange(0, i as int + 1).drop_last() =~= self@.proposals.subrange(0, i as int));
            }
            let keep = match status {
                Some(st) => self.proposals[i].status == st,
                None => true,
            };
            if keep {
                out.push((i as u64, self.proposals[i].copy()));
                proof {
                    assert(entries_view(out@) =~= entries_view(before).push((i as u64, self@.proposals[i as int])));
                }
            }
            i = i + 1;
        }
        proof {
            assert(self@.proposals.subrange(0, i as int) =~= self@.proposals);
        }
        out
    }

    /// The ballots on proposal `id`, all of them or those of one kind.
    pub fn get_votes(&self, id: u64, kind: Option<VoteKind>, now: u64) -> (r: Result<VotesEntry, Error>)
        requires
            self.well_formed(),
        ensures
            known(self@, id) ==> r is Ok && r->Ok_0.0 == id
                && r->Ok_0.1@ == votes_of(self@.votes[id as int], kind),
            !known(self@, id) ==> fails_with(r, (ErrorKind::NotFound, "Proposal not found"@), now),
    {
        if id >= self.votes.len() as u64 {
            return Err(Error::not_found(now).add_message("Proposal not found"));
        }
        let votes = &self.votes[id as usize];
        let kept = match kind {
            Some(k) => votes.of_kind(k),
            None => votes.of_kind_all(),
        };
        Ok((id, kept))
    }

    /// Creates a proposal of `content` by `caller` at time `now`, given the
    /// outcome of the content's feasibility check. On success the proposal
    /// is pending, holds the proposer's approval and has its expiry armed.
    /// A failed check is returned as it came, and nothing is created.
    pub fn propose(
        &mut self,
        caller: Principal,
        content: Content,
        now: u64,
        feasibility: Result<(), Error>,
    ) -> (r: Result<ProposalEntry, Error>)
        requires
            old(self).well_formed(),
            old(self)@.proposals.len() < u64::MAX,
        ensures
            final(self).well_formed(),
            feasibility is Err ==> final(self)@ == old(self)@ && r is Err && r->Err_0 == feasibility->Err_0,
            feasibility is Ok ==> final(self)@ == propose_spec(old(self)@, caller, content@, now) && r is Ok
                && r->Ok_0.0 == old(self)@.proposals.len()
                && r->Ok_0.1@ == fresh_proposal(caller, content@, now),
    {
        if let Err(e) = feasibility {
            return Err(e);
        }
        let id: u64 = self.proposals.len() as u64;
        let proposal = Proposal::new(caller, content, now);
        let entry = (id, proposal.copy());
        self.proposals.push(proposal);
        self.votes.push(Votes(vec![Vote::new(caller, VoteKind::Approve)]));
        self.scheduled.push(Expiry { id, after_nanos: self.voting_period });
        proof {
            let s = propose_spec(old(self)@, caller, content@, now);
            assert(self@.proposals =~= s.proposals);
            assert(self@.votes[id as int] =~= seq![Vote { principal: caller, kind: VoteKind::Approve }]);
            assert(self@.votes =~= s.votes);
        }
        Ok(entry)
    }

    /// `caller` casts `vote` on proposal `id` at time `now`. The ballot is
    /// recorded and the proposal moves to the status that the tally gives.
    pub fn vote(&mut self, caller: Principal, id: u64, vote: VoteKind, now: u64) -> (r: Result<ProposalEntry, Error>)
        requires
            old(self).well_formed(),
        ensures
            final(self).well_formed(),
            vote_spec(old(self)@, caller, id, vote) is Ok ==> {
                let s = vote_spec(old(self)@, caller, id, vote)->Ok_0;
                &&& final(self)@ == s
                &&& r is Ok
                &&& r->Ok_0.0 == id
                &&& r->Ok_0.1@ == s.proposals[id as int]
            },
            vote_spec(old(self)@, caller, id, vote) is Err ==> final(self)@ == old(self)@
                && fails_with(r, vote_spec(old(self)@, caller, id, vote)->Err_0, now),
    {
        if id >= self.proposals.len() as u64 {
            return Err(Error::not_found(now).add_message("Proposal not found"));
        }
        let i = id as usize;
        if self.proposals[i].status != Status::Pending {
            return Err(Error::bad_request(now).add_message("Proposal is not pending"));
        }
        if self.votes[i].voted(&caller) {
            return Err(Error::bad_request(now).add_message("Vote already cast"));
        }
        let mut votes = self.votes[i].of_kind_all();
        votes.add(Vote::new(caller, vote));
        let verdict = self.get_tally_result(&votes);
        let status = match verdict {
            TallyResult::Approve => Status::Approved,
            TallyResult::Reject => Status::Rejected,
            TallyResult::Deadlock => Status::Deadlock,
            TallyResult::NotReached => Status::Pending,
        };
        let ghost s = vote_spec(old(self)@, caller, id, vote)->Ok_0;
        self.votes.set(i, votes);
        self.proposals[i].status = status;
        proof {
            assert(self@.proposals =~= s.proposals);
            assert(self@.votes =~= s.votes);
            law_vote_unique(old(self)@, caller, id, vote, vote);
        }
        Ok((id, self.proposals[i].copy()))
    }

    /// Commits the execution of proposal `id` at time `now`: the proposal is
    /// marked as sent before its content is handed back to be carried out,
    /// so a second call fails whatever becomes of the first.
    pub fn execute(&mut self, id: u64, now: u64) -> (r: Result<ProposalEntry, Error>)
        requires
            old(self).well_formed(),
        ensures
            final(self).well_formed(),
            execute_spec(old(self)@, id, now) is Ok ==> {
                let s = execute_spec(old(self)@, id, now)->Ok_0;
                &&& final(self)@ == s
                &&& r is Ok
                &&& r->Ok_0.0 == id
                &&& r->Ok_0.1@ == s.proposals[id as int]
            },
            execute_spec(old(self)@, id, now) is Err ==> final(self)@ == old(self)@
                && fails_with(r, execute_spec(old(self)@, id, now)->Err_0, now),
    {
        if id >= self.proposals.len() as u64 {
            return Err(Error::not_found(now).add_message("Proposal not found"));
        }
        let i = id as usize;
        if self.proposals[i].status != Status::Approved {
            return Err(Error::bad_request(now).add_message("Proposal is not approved"));
        }
        if self.proposals[i].sent_at.is_some() {
            return Err(Error::bad_request(now).add_message("Proposal already executed"));
        }
        self.proposals[i].sent_at = Some(now);
        proof {
            assert(self@.proposals =~= execute_spec(old(self)@, id, now)->Ok_0.proposals);
        }
        Ok((id, self.proposals[i].copy()))
    }

    /// Fires the expiry of proposal `id`: a pending proposal expires, any
    /// other is left as it is.
    pub fn expire(&mut self, id: u64)
        requires
            old(self).well_formed(),
        ensures
            final(self).well_formed(),
            final(self)@ == expire_spec(old(self)@, id),
    {
        if id < self.proposals.len() as u64 {
            let i = id as usize;
            if self.proposals[i].status == Status::Pending {
                self.proposals[i].status = Status::Expired;
                proof {
                    assert(self@.proposals =~= expire_spec(old(self)@, id).proposals);
                }
            }
        }
    }

    /// Hands over the expiries armed since the last call, oldest first.
    pub fn take_scheduled(&mut self) -> (r: Vec<Expiry>)
        requires
            old(self).well_formed(),
        ensures
            final(self).well_formed(),
            r@ == old(self)@.scheduled,
            final(self)@ == (EngineView { scheduled: Seq::empty(), ..old(self)@ }),
    {
        let mut taken: Vec<Expiry> = Vec::new();
        std::mem::swap(&mut taken, &mut self.scheduled);
        proof {
            assert(self@ == (EngineView { scheduled: Seq::empty(), ..old(self)@ }));
        }
        taken
    }
}

} // verus!
