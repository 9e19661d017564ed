//! The bridge between the driver's streaming callback and a closure.
//!
//! The driver delivers each block of samples by calling one fixed function
//! with a block of memory and a count. The bridge keeps the closure that is
//! to consume the samples, forms the view of the block that the count
//! allows, lends the closure out for exactly one call, and has it back in
//! place before the driver can deliver again.
use vstd::prelude::*;
use vstd::slice::slice_subrange;

verus! {

/// The callback context of one streaming read: the closure that consumes
/// what the driver delivers.
pub struct AsyncClosureReader<CB> {
    callback: CB,
}

/// Why a delivery did not reach the closure.
#[derive(Clone, Copy, Debug, PartialEq, Eq, Structural)]
pub enum BridgeError {
    /// The bridge holds no context: the read it served has ended.
    NoContext,
    /// The driver reported more bytes than the block holds.
    OutOfBounds { len: u32, available: usize },
}

/// A change of hands of the callback context.
pub ghost enum Handover {
    /// The context leaves the bridge for one invocation of the closure.
    Lent,
    /// The invocation is over and the context is back in the bridge.
    Returned,
}

/// The bridge of one streaming read. It holds the callback context from the
/// start of the read until the read ends, and keeps the record of every
/// time the context changed hands.
pub struct CallbackBridge<CB> {
    context: Option<AsyncClosureReader<CB>>,
    record: Ghost<Seq<Handover>>,
}

/// The number of invocations that are under way at the end of `record`.
pub open spec fn in_flight(record: Seq<Handover>) -> int
    decreases record.len(),
{
    if record.len() == 0 {
        0
    } else if record.last() is Lent {
        in_flight(record.drop_last()) + 1
    } else {
        in_flight(record.drop_last()) - 1
    }
}

/// Whether no two invocations of `record` overlap: at no point of it is
/// more than one invocation under way.
pub open spec fn never_overlapping(record: Seq<Handover>) -> bool {
    forall|n: int| 0 <= n <= record.len() ==> 0 <= #[trigger] in_flight(record.take(n)) <= 1
}

/// Lending the context while no invocation is under way starts the only one.
proof fn lemma_lend(record: Seq<Handover>)
    requires
        never_overlapping(record),
        in_flight(record) == 0,
    ensures
        never_overlapping(record.push(Handover::Lent)),
        in_flight(record.push(Handover::Lent)) == 1,
{
    let longer = record.push(Handover::Lent);
    assert(longer.drop_last() == record);
    assert forall|n: int| 0 <= n <= longer.len() implies 0 <= #[trigger] in_flight(
        longer.take(n),
    ) <= 1 by {
        if n <= record.len() {
            assert(longer.take(n) == record.take(n));
        } else {
            assert(longer.take(n) == longer);
        }
    }
}

/// Returning the context ends the one invocation that is under way.
proof fn lemma_return(record: Seq<Handover>)
    requires
        never_overlapping(record),
        in_flight(record) == 1,
    ensures
        never_overlapping(record.push(Handover::Returned)),
        in_flight(record.push(Handover::Returned)) == 0,
{
    let longer = record.push(Handover::Returned);
    assert(longer.drop_last() == record);
    assert forall|n: int| 0 <= n <= longer.len() implies 0 <= #[trigger] in_flight(
        longer.take(n),
    ) <= 1 by {
        if n <= record.len() {
            assert(longer.take(n) == record.take(n));
        } else {
            assert(longer.take(n) == longer);
        }
    }
}

impl<CB: FnMut(&[u8])> AsyncClosureReader<CB> {
    /// The closure that this context holds.
    pub closed spec fn callback(&self) -> CB {
        self.callback
    }

    /// Whether the closure may be called on a view that holds `bytes`.
    pub open spec fn accepts(&self, bytes: Seq<u8>) -> bool {
        forall|view: &[u8]| view@ == bytes ==> call_requires(self.callback(), (view,))
    }

    /// Whether the closure has been called on a view that holds `bytes`,
    /// and has returned.
    pub open spec fn consumed(&self, bytes: Seq<u8>) -> bool {
        exists|view: &[u8]| view@ == bytes && call_ensures(self.callback(), (view,), ())
    }

    /// Makes the context that hands deliveries to `callback`.
    pub fn new(callback: CB) -> (reader: Self)
        ensures
            reader.callback() == callback,
    {
        AsyncClosureReader { callback }
    }

    /// Calls the closure on `buffer`. The view is lent for this one call.
    pub fn read(&mut self, buffer: &[u8])
        requires
            old(self).accepts(buffer@),
        ensures
            old(self).consumed(buffer@),
            *final(self) == *old(self),
    {
        (self.callback)(buffer);
    }
}

impl<CB> CallbackBridge<CB> {
    /// The record stays free of overlap, and whenever the context is in
    /// the bridge no invocation is under way.
    #[verifier::type_invariant]
    spec fn settled(&self) -> bool {
        never_overlapping(self.record@) && (self.context is Some ==> in_flight(self.record@) == 0)
    }
}

impl<CB: FnMut(&[u8])> CallbackBridge<CB> {
    /// The context that the bridge holds, if the read is still on.
    pub closed spec fn context(&self) -> Option<AsyncClosureReader<CB>> {
        self.context
    }

    /// Every change of hands of the context since the read began, oldest
    /// first.
    pub closed spec fn record(&self) -> Seq<Handover> {
        self.record@
    }

    /// What a delivery adds to the record: one loan and its return where
    /// the closure was called, nothing where the delivery was refused.
    pub open spec fn handovers(outcome: Result<(), BridgeError>) -> Seq<Handover> {
        if outcome is Ok {
            seq![Handover::Lent, Handover::Returned]
        } else {
            Seq::empty()
        }
    }

    /// The part of `block` that a delivery of `len` bytes hands to the
    /// closure: its first `len` bytes.
    pub open spec fn delivered(block: Seq<u8>, len: u32) -> Seq<u8> {
        block.take(len as int)
    }

    /// What a delivery comes to: it fails where there is no context, then
    /// where the count exceeds the block, and succeeds otherwise.
    pub open spec fn spec_trampoline(&self, block: Seq<u8>, len: u32) -> Result<(), BridgeError> {
        if self.context() is None {
            Err(BridgeError::NoContext)
        } else if len > block.len() {
            Err(BridgeError::OutOfBounds { len, available: block.len() as usize })
        } else {
            Ok(())
        }
    }

    /// Starts a read: the bridge takes the context.
    pub fn new(reader: AsyncClosureReader<CB>) -> (bridge: Self)
        ensures
            bridge.context() == Some(reader),
            bridge.record() == Seq::<Handover>::empty(),
    {
        CallbackBridge { context: Some(reader), record: Ghost(Seq::empty()) }
    }

    /// Whether the bridge still holds its context.
    pub fn is_live(&self) -> (live: bool)
        ensures
            live == self.context() is Some,
    {
        self.context.is_some()
    }

    /// Serves one delivery of the driver: `len` bytes at the start of
    /// `block`.
    ///
    /// The context is taken out of the bridge, the closure is called on the
    /// first `len` bytes of the block and on nothing else, and the context
    /// is put back as it was, whatever the outcome. A count that exceeds
    /// the block, or a delivery after the read has ended, is refused
    /// without calling the closure.
    ///
    /// The invocation begins and ends inside this call, so in the record of
    /// a bridge no two invocations ever overlap, however many deliveries it
    /// has served.
    pub fn trampoline(&mut self, block: &[u8], len: u32) -> (r: Result<(), BridgeError>)
        requires
            old(self).context() matches Some(reader) ==> (len <= block@.len() ==> reader.accepts(
                Self::delivered(block@, len),
            )),
        ensures
            r == old(self).spec_trampoline(block@, len),
            r is Ok ==> old(self).context()->Some_0.consumed(Self::delivered(block@, len)),
            final(self).context() == old(self).context(),
            final(self).record() == old(self).record() + Self::handovers(r),
            never_overlapping(final(self).record()),
    {
        proof {
            use_type_invariant(&*self);
        }
        let ghost before = self.record@;
        let mut taken: Option<AsyncClosureReader<CB>> = None;
        core::mem::swap(&mut self.context, &mut taken);
        match taken {
            None => {
                assert(before + Self::handovers(Err(BridgeError::NoContext)) =~= before);
                Err(BridgeError::NoContext)
            },
            Some(mut reader) => {
                let outcome = if len as usize > block.len() {
                    Err(BridgeError::OutOfBounds { len, available: block.len() })
                } else {
                    proof {
                        lemma_lend(before);
                    }
                    self.record = Ghost(before.push(Handover::Lent));
                    reader.read(slice_subrange(block, 0, len as usize));
                    proof {
                        lemma_return(before.push(Handover::Lent));
                    }
                    self.record = Ghost(before.push(Handover::Lent).push(Handover::Returned));
                    Ok(())
                };
                self.context = Some(reader);
                assert(self.record@ =~= before + Self::handovers(outcome));
                outcome
            },
        }
    }

    /// Ends the read: the context leaves the bridge, and every later
    /// delivery is refused.
    pub fn release(&mut self) -> (reader: Option<AsyncClosureReader<CB>>)
        ensures
            reader == old(self).context(),
            final(self).context() is None,
            final(self).record() == old(self).record(),
    {
        proof {
            use_type_invariant(&*self);
        }
        let mut taken: Option<AsyncClosureReader<CB>> = None;
        core::mem::swap(&mut self.context, &mut taken);
        taken
    }
}

} // verus!
