//! Restocker aggregate and command handler implementation.

use vstd::prelude::*;

use crate::command::Command;
use crate::command::RestockOrder;
use crate::command_handler::CommandHandler;
use crate::event::Event;
use crate::event::RestockOrdered;

verus! {

/// The quantity a history folds to: the sum of the quantities of all its
/// events. Every `RestockOrdered` event carries the restock type identifier,
/// so every event of the history counts towards the sum.
pub open spec fn sum_quantities(history: Seq<RestockOrdered>) -> int
    decreases history.len(),
{
    if history.len() == 0 {
        0
    } else {
        sum_quantities(history.drop_last()) + history.last().quantity
    }
}

/// Every prefix of the history folds to a quantity an i32 can hold, so a
/// left-to-right replay never overflows.
pub open spec fn partial_sums_fit(history: Seq<RestockOrdered>) -> bool {
    forall|i: int|
        0 <= i <= history.len() ==> i32::MIN <= #[trigger] sum_quantities(history.take(i))
            <= i32::MAX
}

/// Replaying an empty history folds to a quantity of zero.
pub proof fn lemma_sum_empty()
    ensures
        sum_quantities(Seq::<RestockOrdered>::empty()) == 0,
{
}

/// Removing one event from a history removes exactly its quantity from the
/// fold.
proof fn lemma_sum_remove(history: Seq<RestockOrdered>, i: int)
    requires
        0 <= i < history.len(),
    ensures
        sum_quantities(history.remove(i)) == sum_quantities(history) - history[i].quantity,
    decreases history.len(),
{
    if i == history.len() - 1 {
        assert(history.remove(i) =~= history.drop_last());
    } else {
        let shorter = history.drop_last();
        lemma_sum_remove(shorter, i);
        assert(history.remove(i).drop_last() =~= shorter.remove(i));
        assert(history.remove(i).last() == history.last());
    }
}

/// Projection is order-independent: two histories that hold the same events,
/// as a multiset, fold to the same quantity.
pub proof fn lemma_sum_permutation(left: Seq<RestockOrdered>, right: Seq<RestockOrdered>)
    requires
        left.to_multiset() == right.to_multiset(),
    ensures
        sum_quantities(left) == sum_quantities(right),
    decreases left.len(),
{
    broadcast use vstd::seq_lib::group_to_multiset_ensures;

    if left.len() == 0 {
        assert(left.to_multiset().len() == left.len());
        assert(right.to_multiset().len() == right.len());
        assert(right.len() == 0);
    } else {
        let last = left.last();
        let end = left.len() - 1;
        assert(left[end as int] == last);
        assert(left.contains(last));
        assert(right.to_multiset().count(last) > 0);
        assert(right.contains(last));
        let j = choose|j: int| 0 <= j < right.len() && right[j] == last;
        assert(left.drop_last() =~= left.remove(end as int));
        assert(left.remove(end as int).to_multiset() == left.to_multiset().remove(last));
        assert(right.remove(j).to_multiset() == right.to_multiset().remove(last));
        lemma_sum_permutation(left.drop_last(), right.remove(j));
        lemma_sum_remove(right, j);
    }
}

/// Relies on str's PartialEq: two string slices are equal exactly when their
/// character sequences are equal.
#[verifier::external_body]
fn str_eq(a: &str, b: &str) -> (r: bool)
    ensures
        r == (a@ == b@),
{
    a == b
}

/// State rebuilt from restock events.
#[derive(Debug, Clone)]
pub struct RestockerState {
    pub quantity: i32,
}

impl RestockerState {
    /// Create state by replaying events: the quantities of all events that
    /// carry the restock type identifier are summed.
    pub fn new(events: &[RestockOrdered]) -> (state: Self)
        requires
            partial_sums_fit(events@),
        ensures
            state.quantity == sum_quantities(events@),
    {
        let mut quantity: i32 = 0;
        let mut i: usize = 0;
        while i < events.len()
            invariant
                0 <= i <= events@.len(),
                partial_sums_fit(events@),
                quantity == sum_quantities(events@.take(i as int)),
            decreases events@.len() - i,
        {
            let event = &events[i];
            proof {
                let s = events@;
                let k = i as int;
                assert(s.take(k + 1).drop_last() =~= s.take(k));
                assert(s.take(k + 1).last() == s[k]);
                assert(sum_quantities(s.take(k + 1)) == sum_quantities(s.take(k)) + s[k].quantity);
                assert(i32::MIN <= sum_quantities(s.take(k + 1)) <= i32::MAX);
            }
            if str_eq(event.event_type(), RestockOrdered::TYPE) {
                quantity = quantity + event.quantity;
            }
            i = i + 1;
        }
        proof {
            assert(events@.take(events@.len() as int) =~= events@);
        }
        Self { quantity }
    }
}

/// Aggregate trait for handling commands.
pub trait Aggregate<C: Command, E: Event> {
    /// Handle a command and return emitted events.
    fn handle(&mut self, command: &C) -> (events: Vec<E>);
}

/// Aggregate that handles restock commands: it emits a restock order exactly
/// when the projected quantity is below the threshold of 100 units.
pub struct Restocker {
    pub state: RestockerState,
}

impl Restocker {
    pub fn new(state: RestockerState) -> (aggregate: Self)
        ensures
            aggregate.state == state,
    {
        Self { state }
    }
}

impl Aggregate<RestockOrder, RestockOrdered> for Restocker {
    fn handle(&mut self, command: &RestockOrder) -> (events: Vec<RestockOrdered>)
        ensures
            *final(self) == *old(self),
            old(self).state.quantity < 100 ==> events@.len() == 1 && events@[0].quantity
                == command.quantity,
            old(self).state.quantity >= 100 ==> events@.len() == 0,
    {
        if self.state.quantity < 100 {
            let mut events: Vec<RestockOrdered> = Vec::new();
            events.push(RestockOrdered::new(command.quantity));
            events
        } else {
            Vec::new()
        }
    }
}

/// Command handler for restock commands.
pub struct RestockCommandHandler {
    pub history: Vec<RestockOrdered>,
    pub publish: Vec<RestockOrdered>,
}

impl RestockCommandHandler {
    /// Create a new command handler with the given event history.
    pub fn new(history: Vec<RestockOrdered>) -> (handler: Self)
        ensures
            handler.history@ == history@,
            handler.publish@.len() == 0,
    {
        Self { history, publish: Vec::new() }
    }

    /// Get the published events.
    pub fn published(&self) -> (events: &[RestockOrdered])
        ensures
            events@ == self.publish@,
    {
        self.publish.as_slice()
    }
}

impl CommandHandler<RestockOrder, RestockOrdered> for RestockCommandHandler {
    /// The handler is ready for a command when replaying its history cannot
    /// overflow the projected quantity.
    open spec fn ready_for(&self, command: &RestockOrder) -> bool {
        partial_sums_fit(self.history@)
    }

    fn handle(&mut self, command: &RestockOrder) -> (events: Vec<RestockOrdered>)
        ensures
            final(self).history@ == old(self).history@,
            final(self).publish@ == events@,
            sum_quantities(old(self).history@) < 100 ==> events@.len() == 1 && events@[0].quantity
                == command.quantity,
            sum_quantities(old(self).history@) >= 100 ==> events@.len() == 0,
    {
        let state = RestockerState::new(self.history.as_slice());
        let mut restocker = Restocker::new(state);
        let events = restocker.handle(command);
        self.publish = events.clone();
        proof {
            assert(self.publish@ =~= events@);
        }
        events
    }
}

} // verus!
