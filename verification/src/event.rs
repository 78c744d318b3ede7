use vstd::prelude::*;

verus! {

/// Mathematical model of a single event record: every field of [`Event`]
/// as a plain mathematical value.
#[verifier::ext_equal]
pub struct EventView {
    pub id: int,
    pub creator: Seq<char>,
    pub created_at: int,
    pub title: Seq<char>,
    pub estimated_budget: int,
    pub total_votes: int,
    pub description: Seq<char>,
    pub votes: Seq<Seq<char>>,
}

impl EventView {
    /// A record is well formed when its vote counter agrees with the vote
    /// list and its identifier is non-negative.
    pub open spec fn wf(&self) -> bool {
        &&& self.total_votes == self.votes.len()
        &&& 0 <= self.id
    }

    /// The record after one vote by `voter`: the identity is appended to the
    /// vote list and the counter grows by one; every other field is kept.
    pub open spec fn voted(self, voter: Seq<char>) -> EventView {
        EventView { total_votes: self.total_votes + 1, votes: self.votes.push(voter), ..self }
    }
}

/// A recorded proposal: immutable descriptive fields plus the mutable vote
/// tally. Vote state only changes through [`Event::record_vote`].
#[derive(Debug, PartialEq)]
pub struct Event {
    /// Identifier, assigned by the registry as the insertion position.
    pub id: i32,
    /// Identity of the account that requested creation.
    pub creator: String,
    /// Timestamp supplied by the hosting environment at creation.
    pub created_at: u64,
    /// Title of the proposal.
    pub title: String,
    /// Estimated budget; no currency handling is done here.
    pub estimated_budget: u128,
    /// Number of votes received; always equal to the length of `votes`.
    pub total_votes: i64,
    /// Free-form description of the proposal.
    pub description: String,
    /// Identities of the voters, in voting order, one entry per vote.
    pub votes: Vec<String>,
}

impl View for Event {
    type V = EventView;

    open spec fn view(&self) -> EventView {
        EventView {
            id: self.id as int,
            creator: self.creator@,
            created_at: self.created_at as int,
            title: self.title@,
            estimated_budget: self.estimated_budget as int,
            total_votes: self.total_votes as int,
            description: self.description@,
            votes: self.votes.deep_view(),
        }
    }
}

impl DeepView for Event {
    type V = EventView;

    open spec fn deep_view(&self) -> EventView {
        self.view()
    }
}

impl Event {
    /// Well-formedness of the executable record, stated over its model.
    pub open spec fn wf(&self) -> bool {
        self@.wf()
    }

    /// Builds a fresh record with no votes.
    pub fn new(
        id: i32,
        title: String,
        estimated_budget: u128,
        description: String,
        creator: String,
        created_at: u64,
    ) -> (e: Event)
        requires
            0 <= id,
        ensures
            e@ == (EventView {
                id: id as int,
                creator: creator@,
                created_at: created_at as int,
                title: title@,
                estimated_budget: estimated_budget as int,
                total_votes: 0,
                description: description@,
                votes: Seq::empty(),
            }),
            e.wf(),
    {
        let e = Event {
            id,
            creator,
            created_at,
            title,
            estimated_budget,
            total_votes: 0,
            description,
            votes: Vec::new(),
        };
        proof {
            assert(e.votes.deep_view() =~= Seq::<Seq<char>>::empty());
        }
        e
    }

    /// Applies one vote by `voter`: appends the identity to the vote list and
    /// increments the counter, as a single step. Both effects happen
    /// together, so the counter stays equal to the list length.
    pub fn record_vote(&mut self, voter: String)
        requires
            old(self).wf(),
            old(self).total_votes < i64::MAX,
        ensures
            final(self).wf(),
            final(self)@ == old(self)@.voted(voter@),
    {
        self.votes.push(voter);
        self.total_votes = self.total_votes + 1;
        proof {
            assert(self.votes.deep_view() =~= old(self).votes.deep_view().push(voter@));
        }
    }
}

impl Clone for Event {
    /// The copy carries the same model as the original.
    fn clone(&self) -> (r: Self)
        ensures
            r@ == self@,
    {
        let r = Event {
            id: self.id,
            creator: self.creator.clone(),
            created_at: self.created_at,
            title: self.title.clone(),
            estimated_budget: self.estimated_budget,
            total_votes: self.total_votes,
            description: self.description.clone(),
            votes: self.votes.clone(),
        };
        proof {
            assert(r.votes.deep_view() =~= self.votes.deep_view());
        }
        r
    }
}

} // verus!
