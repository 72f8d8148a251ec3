//! Layers: state that changes only through commands and the events that
//! they decide on.

pub mod geometry;

use vstd::prelude::*;

verus! {

/// A change of the state of a layer.
pub trait Event<S>: Sized {
    /// Whether the event takes the state `before` to the state `after`.
    spec fn evolves(&self, before: &S, after: &S) -> bool;

    /// Applies the event to the state.
    fn evolve(&self, state: &mut S)
        ensures
            self.evolves(old(state), final(state)),
    ;
}

/// A request to a layer, which decides on the events that carry it out.
pub trait Command<S>: Sized {
    /// What the command gives back to its caller
    type Result;

    /// The kind of event that the command decides on
    type Event: Event<S>;

    /// The events that the command decides on in the state `state`.
    spec fn decided(self, state: &S) -> Seq<Self::Event>;

    /// What the command gives back in the state `state`.
    spec fn outcome(self, state: &S) -> Self::Result;

    /// Decides which events carry out the command in the state `state`, and
    /// adds them to `events`. The state itself is left alone.
    fn decide(self, state: &S, events: &mut Vec<Self::Event>) -> (r: Self::Result)
        ensures
            final(events)@ == old(events)@ + self.decided(state),
            r == self.outcome(state),
    ;
}

/// Whether the events, applied one after the other, take the state `before`
/// to the state `after`.
pub open spec fn evolve_all<S, E: Event<S>>(events: Seq<E>, before: S, after: S) -> bool
    decreases events.len(),
{
    if events.len() == 0 {
        before == after
    } else {
        exists|mid: S|
            evolve_all(events.drop_last(), before, mid) && #[trigger] events.last().evolves(
                &mid,
                &after,
            )
    }
}

/// A single event takes a state where its own relation says.
pub proof fn lemma_evolve_one<S, E: Event<S>>(event: E, before: S, after: S)
    requires
        evolve_all(seq![event], before, after),
    ensures
        event.evolves(&before, &after),
{
    let events = seq![event];
    assert(events.last() == event);
    assert(events.drop_last().len() == 0);
    let mid = choose|mid: S|
        evolve_all(events.drop_last(), before, mid) && #[trigger] events.last().evolves(
            &mid,
            &after,
        );
    assert(evolve_all(events.drop_last(), before, mid));
    assert(mid == before);
}

/// State that is changed by commands only.
pub struct Layer<S> {
    state: S,
}

impl<S> Layer<S> {
    /// The state of the layer.
    pub closed spec fn spec_state(&self) -> &S {
        &self.state
    }

    /// A layer with the given state.
    pub fn new(state: S) -> (r: Self)
        ensures
            *r.state() == state,
    {
        Layer { state }
    }

    /// The state of the layer.
    #[verifier::when_used_as_spec(spec_state)]
    pub fn state(&self) -> (r: &S)
        ensures
            r == self.spec_state(),
    {
        &self.state
    }

    /// Lets `command` decide on its events in the present state, adds them
    /// to `events`, and applies every event in `events`, in order.
    pub fn process<C: Command<S>>(&mut self, command: C, events: &mut Vec<C::Event>) -> (r:
        C::Result)
        ensures
            final(events)@ == old(events)@ + command.decided(old(self).state()),
            evolve_all(final(events)@, *old(self).state(), *final(self).state()),
            r == command.outcome(old(self).state()),
    {
        let result = command.decide(&self.state, events);
        let n = events.len();
        let mut i: usize = 0;
        proof {
            assert(events@.take(0) =~= Seq::<C::Event>::empty());
        }
        while i < n
            invariant
                n == events.len(),
                i <= n,
                evolve_all(events@.take(i as int), old(self).state, self.state),
            decreases n - i,
        {
            let ghost mid = self.state;
            events[i].evolve(&mut self.state);
            proof {
                let done = events@.take(i + 1);
                assert(done.drop_last() =~= events@.take(i as int));
                assert(done.last() == events[i as int]);
                assert(evolve_all(done.drop_last(), old(self).state, mid) && done.last().evolves(
                    &mid,
                    &self.state,
                ));
            }
            i += 1;
        }
        assert(events@.take(n as int) =~= events@);
        result
    }
}

} // verus!
