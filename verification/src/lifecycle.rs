//! The close latch across the clones of one device.
//!
//! Every clone of a handle tests and sets the same latch when it closes, and
//! the test-and-set is atomic, so the closes of one device happen one after
//! another in some order, each finding what the one before it left. This
//! module follows such a history and proves what it comes to: one native
//! teardown, asked for by the close that came first.
use crate::device::Device;
use crate::foreign::{Error, Operation, Reply, Request};
use vstd::prelude::*;

verus! {

/// One call of `close`: the clone that makes it, and what the driver would
/// answer if this call asked for the teardown.
pub ghost struct CloseCall {
    pub caller: Device,
    pub reply: Reply,
}

/// Whether every call of the history is made through a clone of `device`.
pub open spec fn closes_of(device: Device, history: Seq<CloseCall>) -> bool {
    forall|i: int| 0 <= i < history.len() ==> (#[trigger] history[i]).caller.same_device(&device)
}

/// The atomic step that every close takes on the latch: it reports what the
/// latch held and leaves it set.
pub open spec fn test_and_set(latch: bool) -> (bool, bool) {
    (latch, true)
}

/// The latch after the first `closes` closes of a history. It starts unset.
pub open spec fn latch_after(closes: nat) -> bool
    decreases closes,
{
    if closes == 0 {
        false
    } else {
        test_and_set(latch_after((closes - 1) as nat)).1
    }
}

/// What the `i`-th close of a history finds in the latch: what the closes
/// before it have left there.
pub open spec fn latch_found(i: int) -> bool {
    test_and_set(latch_after(i as nat)).0
}

/// The latch is a one-shot: unset before the first close, set ever after.
pub proof fn lemma_latch_found(i: int)
    requires
        0 <= i,
    ensures
        latch_found(i) == (i > 0),
{
    reveal_with_fuel(latch_after, 2);
}

/// What the `i`-th close of a history asks of the driver.
pub open spec fn step_at(history: Seq<CloseCall>, i: int) -> Option<Request> {
    history[i].caller.spec_close_step(latch_found(i))
}

/// What the `i`-th close of a history returns: the outcome of the teardown
/// where it asked for one, success where it asked for nothing.
pub open spec fn result_at(history: Seq<CloseCall>, i: int) -> Result<(), Error> {
    match step_at(history, i) {
        Some(request) => request.spec_outcome(history[i].reply),
        None => Ok(()),
    }
}

/// The number of native teardowns that a history asks for.
pub open spec fn teardowns(history: Seq<CloseCall>) -> nat
    decreases history.len(),
{
    if history.len() == 0 {
        0
    } else {
        let earlier = teardowns(history.drop_last());
        if step_at(history, history.len() - 1) is Some {
            earlier + 1
        } else {
            earlier
        }
    }
}

/// However many clones of a device close it, and in whatever order, the
/// native resource is torn down exactly once, by the close that comes
/// first, and on the resource that the clones share.
pub proof fn lemma_one_teardown(device: Device, history: Seq<CloseCall>)
    requires
        history.len() >= 1,
        closes_of(device, history),
    ensures
        teardowns(history) == 1,
        step_at(history, 0) == Some(device.request(Operation::Close)),
    decreases history.len(),
{
    let first = history[0].caller;
    first.lemma_same_device(&device);
    lemma_latch_found(0);
    lemma_latch_found(history.len() - 1);
    if history.len() == 1 {
        assert(teardowns(history.drop_last()) == 0);
    } else {
        let earlier = history.drop_last();
        assert forall|i: int| 0 <= i < earlier.len() implies (#[trigger] earlier[i]).caller.same_device(
            &device,
        ) by {
            assert(earlier[i] == history[i]);
        }
        lemma_one_teardown(device, earlier);
    }
}

/// Where the one teardown succeeds, every close of the history succeeds. A
/// failed teardown is reported by the close that asked for it and by no
/// other.
pub proof fn lemma_closes_succeed(device: Device, history: Seq<CloseCall>)
    requires
        closes_of(device, history),
    ensures
        forall|i: int| 1 <= i < history.len() ==> result_at(history, i) == Ok::<(), Error>(()),
        history.len() >= 1 && history[0].reply.is_success() ==> result_at(history, 0) == Ok::<
            (),
            Error,
        >(()),
        history.len() >= 1 && !history[0].reply.is_success() ==> result_at(history, 0) == Err::<
            (),
            Error,
        >(
            Error::Close { status: history[0].reply.status, os_code: history[0].reply.os_code },
        ),
{
    lemma_latch_found(0);
    assert forall|i: int| 1 <= i < history.len() implies result_at(history, i) == Ok::<(), Error>(
        (),
    ) by {
        lemma_latch_found(i);
    }
}

/// Once a close has completed on any clone, no later close on any clone
/// asks for a teardown: the count of teardowns no longer grows.
pub proof fn lemma_no_second_teardown(device: Device, history: Seq<CloseCall>, later: CloseCall)
    requires
        history.len() >= 1,
        closes_of(device, history),
        later.caller.same_device(&device),
    ensures
        step_at(history.push(later), history.len() as int) is None,
        teardowns(history.push(later)) == teardowns(history),
        result_at(history.push(later), history.len() as int) == Ok::<(), Error>(()),
{
    lemma_latch_found(history.len() as int);
    assert(history.push(later).drop_last() == history);
}

} // verus!
