//! The engine's standing guarantees, stated once over the components'
//! mathematical views.

use vstd::prelude::*;
use crate::events::GameEvent;
use crate::routines::Routines;

verus! {

/// The event log's cursor never runs past the log, and no current event is
/// reported exactly while the log is idle. Every mutator of the log (`push`,
/// `set_processed`, `cancel`) keeps the cursor bound, so the guarantee holds
/// along any sequence of intents.
pub proof fn lemma_event_log_cursor(ev: GameEvent)
    requires
        ev.wf(),
    ensures
        0 <= ev.head_view() <= ev.log_view().len(),
        ev.current() is None <==> ev.idle(),
{
}

/// The routine queue is strictly first-in, first-out for back-pushed work:
/// after enqueuing one routine and then another at the back, the first stands
/// closer to the front, and since every scheduler step removes only the front
/// element (the queue after a removal is `skip(1)` of the queue before), the
/// first routine's effects resolve before the second's begin: the second
/// reaches the front only after the first was removed.
pub proof fn lemma_routine_fifo(q: Seq<Routines>, first: Routines, second: Routines)
    ensures
        ({
            let q2 = q.push(first).push(second);
            &&& q2.len() == q.len() + 2
            &&& q2[q.len() as int] == first
            &&& q2[q.len() as int + 1] == second
            &&& forall|k: int| 0 <= k < q2.len() ==> (#[trigger] q2.skip(k))[0] == q2[k]
            &&& forall|k: int| 0 <= k <= q.len() ==> (#[trigger] q2.skip(k)).len() > 1
        }),
{
    let q2 = q.push(first).push(second);
    assert forall|k: int| 0 <= k < q2.len() implies (#[trigger] q2.skip(k))[0] == q2[k] by {
        assert(q2.skip(k)[0] == q2[k]);
    }
}

} // verus!
