use vstd::prelude::*;

use crate::event::Event;
use crate::event::EventView;

verus! {

/// The ways a registry operation can fail.
#[derive(Clone, Copy, Debug, PartialEq, Eq, Structural)]
pub enum RegistryError {
    /// The given identifier is not a valid current index into the registry.
    NotFound,
    /// The vote counter of the addressed event cannot grow any further.
    Overflow,
}

/// Mathematical model of the registry: the owner identity and the ordered
/// sequence of recorded events.
#[verifier::ext_equal]
pub struct ContractView {
    pub owner: Seq<char>,
    pub events: Seq<EventView>,
}

impl ContractView {
    /// Every stored record is well formed and carries its own position as its
    /// identifier.
    pub open spec fn wf(&self) -> bool {
        forall|i: int|
            0 <= i < self.events.len() ==> (#[trigger] self.events[i]).wf()
                && self.events[i].id == i
    }
}

/// The event registry: owns all recorded events and provides creation,
/// enumeration, counting, and voting.
///
/// Identifiers are dense and zero-based: the event at position `i` has
/// `id == i`, because ids are assigned as the current length at insertion and
/// events are never removed or reordered. The event count therefore never
/// decreases over the registry's lifetime: `add_event` grows it by one and no
/// other operation changes it.
pub struct Contract {
    /// Identity given at construction; stored, but no operation is
    /// restricted to the owner.
    pub owner: String,
    /// The recorded events, in insertion order.
    pub events: Vec<Event>,
}

impl View for Contract {
    type V = ContractView;

    open spec fn view(&self) -> ContractView {
        ContractView { owner: self.owner@, events: self.events.deep_view() }
    }
}

impl Contract {
    /// Well-formedness of the registry, stated over its model.
    pub open spec fn wf(&self) -> bool {
        self@.wf()
    }

    /// Builds an empty registry owned by `owner`.
    pub fn new(owner: String) -> (c: Contract)
        ensures
            c@.owner == owner@,
            c@.events == Seq::<EventView>::empty(),
            c.wf(),
    {
        let events: Vec<Event> = Vec::new();
        let c = Contract { owner, events };
        proof {
            assert(c.events.deep_view() =~= Seq::<EventView>::empty());
        }
        c
    }

    /// Records a new event. Its identifier is the number of events stored so
    /// far, `creator` and `created_at` are captured unchanged, and the vote
    /// state starts empty.
    pub fn add_event(
        &mut self,
        title: String,
        estimated_budget: u128,
        description: String,
        creator: String,
        created_at: u64,
    )
        requires
            old(self).wf(),
            old(self)@.events.len() <= i32::MAX,
        ensures
            final(self).wf(),
            final(self)@.owner == old(self)@.owner,
            final(self)@.events == old(self)@.events.push(EventView {
                id: old(self)@.events.len() as int,
                creator: creator@,
                created_at: created_at as int,
                title: title@,
                estimated_budget: estimated_budget as int,
                total_votes: 0,
                description: description@,
                votes: Seq::empty(),
            }),
            final(self)@.events.len() == old(self)@.events.len() + 1,
            final(self)@.events.len() >= old(self)@.events.len(),
    {
        let id = self.events.len() as i32;
        let e = Event::new(id, title, estimated_budget, description, creator, created_at);
        self.events.push(e);
        proof {
            assert(self.events.deep_view() =~= old(self).events.deep_view().push(e@));
        }
    }

    /// Returns a snapshot copy of all stored events, in insertion order.
    ///
    /// Read-only: the result is a function of the stored state alone, so two
    /// calls with no mutation in between return equal snapshots.
    pub fn list_events(&self) -> (r: Vec<Event>)
        ensures
            r.deep_view() == self@.events,
    {
        let mut out: Vec<Event> = Vec::new();
        let n = self.events.len();
        let mut i: usize = 0;
        while i < n
            invariant
                n == self.events.len(),
                i <= n,
                out@.len() == i,
                out.deep_view() =~= self@.events.subrange(0, i as int),
            decreases n - i,
        {
            let ghost prev = out@;
            let ghost prev_dv = out.deep_view();
            out.push(self.events[i].clone());
            proof {
                assert forall|j: int| 0 <= j < out@.len() implies (#[trigger] out.deep_view()[j])
                    == self@.events.subrange(0, i + 1)[j] by {
                    assert(out.deep_view()[j] == out@[j].deep_view());
                    if j < i {
                        assert(out@[j] == prev[j]);
                        assert(prev_dv[j] == prev[j].deep_view());
                        assert(prev_dv[j] == self@.events.subrange(0, i as int)[j]);
                    }
                }
                assert(out.deep_view() =~= self@.events.subrange(0, i + 1));
            }
            i = i + 1;
        }
        proof {
            assert(out.deep_view() =~= self@.events);
        }
        out
    }

    /// Returns the current number of stored events.
    ///
    /// Read-only: the count is a function of the stored state alone, so two
    /// calls with no mutation in between return the same number.
    pub fn event_count(&self) -> (n: usize)
        ensures
            n == self@.events.len(),
    {
        self.events.len()
    }

    /// Casts one vote by `voter` on the event with identifier `id`: its vote
    /// list gains `voter` and its counter grows by one. Fails with
    /// `NotFound`, leaving the registry unchanged, exactly when `id` is not a
    /// valid current index; fails with `Overflow`, also without effect,
    /// exactly when the addressed counter is at its representable maximum.
    ///
    /// There is deliberately no duplicate-vote detection: an identity may
    /// vote on the same event any number of times, and each call counts.
    pub fn add_vote(&mut self, id: usize, voter: String) -> (r: Result<(), RegistryError>)
        requires
            old(self).wf(),
        ensures
            final(self).wf(),
            final(self)@.owner == old(self)@.owner,
            final(self)@.events.len() == old(self)@.events.len(),
            final(self)@.events.len() >= old(self)@.events.len(),
            r is Ok <==> id < old(self)@.events.len()
                && old(self)@.events[id as int].total_votes < i64::MAX,
            r is Ok ==> final(self)@.events == old(self)@.events.update(
                id as int,
                old(self)@.events[id as int].voted(voter@),
            ),
            r == Err::<(), RegistryError>(RegistryError::NotFound) <==> id >= old(
                self,
            )@.events.len(),
            r == Err::<(), RegistryError>(RegistryError::Overflow) <==> id < old(
                self,
            )@.events.len() && old(self)@.events[id as int].total_votes == i64::MAX,
            r is Err ==> *final(self) == *old(self),
    {
        if id >= self.events.len() {
            return Err(RegistryError::NotFound);
        }
        if self.events[id].total_votes == i64::MAX {
            return Err(RegistryError::Overflow);
        }
        proof {
            assert(self@.events[id as int].wf());
            assert(self.events@[id as int]@ == self@.events[id as int]);
        }
        let e = &mut self.events[id];
        e.record_vote(voter);
        proof {
            assert(self.events.deep_view() =~= old(self).events.deep_view().update(
                id as int,
                old(self)@.events[id as int].voted(voter@),
            ));
        }
        Ok(())
    }

    /// Returns the vote total of the event with identifier `id`, or
    /// `NotFound`, exactly when `id` is not a valid current index.
    pub fn get_total_votes(&self, id: usize) -> (r: Result<u64, RegistryError>)
        requires
            self.wf(),
        ensures
            match r {
                Ok(v) => id < self@.events.len() && v == self@.events[id as int].total_votes,
                Err(e) => id >= self@.events.len() && e == RegistryError::NotFound,
            },
    {
        if id < self.events.len() {
            let e = &self.events[id];
            proof {
                assert(self@.events[id as int].wf());
            }
            Ok(e.total_votes as u64)
        } else {
            Err(RegistryError::NotFound)
        }
    }
}

} // verus!
