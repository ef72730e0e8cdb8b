//! The fault-correlation buffer.
//!
//! A recovered in-process fault carries no task context, so concurrent
//! executions need a process-wide place where the most recent fault message
//! of each worker can be stored and pulled back immediately after recovery.
//! The buffer is a fixed array of per-worker slots; the caller owns the lock
//! around it and hands each access a worker index.

use vstd::prelude::*;

verus! {

/// One recorded fault message.
#[derive(Debug)]
pub struct PanicCorrelation {
    panic_msg: String,
}

impl View for PanicCorrelation {
    type V = Seq<char>;

    closed spec fn view(&self) -> Seq<char> {
        self.panic_msg@
    }
}

impl PanicCorrelation {
    /// Record one fault message.
    pub fn new(panic_msg: String) -> (r: PanicCorrelation)
        ensures
            r@ == panic_msg@,
    {
        PanicCorrelation { panic_msg }
    }

    /// The recorded message.
    pub fn message(&self) -> (m: &String)
        ensures
            m@ == self@,
    {
        &self.panic_msg
    }
}

/// A fixed array of per-worker fault slots.  Its view is, per worker, the
/// sequence of messages recorded for that worker, oldest first.
pub struct PanicBuffer {
    slots: Vec<Vec<PanicCorrelation>>,
}

impl View for PanicBuffer {
    type V = Seq<Seq<Seq<char>>>;

    closed spec fn view(&self) -> Seq<Seq<Seq<char>>> {
        self.slots@.map_values(
            |slot: Vec<PanicCorrelation>| slot@.map_values(|p: PanicCorrelation| p@),
        )
    }
}

impl PanicBuffer {
    /// A buffer with one empty slot per worker.
    pub fn new(num_workers: usize) -> (r: PanicBuffer)
        ensures
            r@.len() == num_workers,
            forall|w: int| 0 <= w < num_workers ==> r@[w].len() == 0,
    {
        let mut slots: Vec<Vec<PanicCorrelation>> = Vec::new();
        let mut i: usize = 0;
        while i < num_workers
            invariant
                i <= num_workers,
                slots@.len() == i,
                forall|w: int|
                    0 <= w < i ==> #[trigger] slots@[w]@.len() == 0,
            decreases num_workers - i,
        {
            slots.push(Vec::new());
            i = i + 1;
        }
        PanicBuffer { slots }
    }

    /// The number of worker slots.
    pub fn num_workers(&self) -> (n: usize)
        ensures
            n == self@.len(),
    {
        self.slots.len()
    }

    /// Append a fault message to `worker`'s slot.  Correlation reads the most
    /// recent entry, so recording must happen before the recovering caller
    /// pulls it.
    pub fn record(&mut self, worker: usize, msg: String)
        requires
            worker < old(self)@.len(),
        ensures
            final(self)@ == old(self)@.update(worker as int, old(self)@[worker as int].push(msg@)),
    {
        let slot = &mut self.slots[worker];
        slot.push(PanicCorrelation::new(msg));
        proof {
            assert(self@ =~~= old(self)@.update(
                worker as int,
                old(self)@[worker as int].push(msg@),
            ));
        }
    }

    /// The most recent fault message recorded for `worker`, if any.
    pub fn latest_panic(&self, worker: usize) -> (r: Option<String>)
        requires
            worker < self@.len(),
        ensures
            match r {
                Some(m) => self@[worker as int].len() > 0 && m@ == self@[worker as int].last(),
                None => self@[worker as int].len() == 0,
            },
    {
        let slot = &self.slots[worker];
        if slot.len() == 0 {
            None
        } else {
            Some(slot[slot.len() - 1].message().clone())
        }
    }
}

/// Law: correlation attributes the fault that was just recorded.  After a
/// message is appended to a worker's slot, that worker's most recent entry
/// is exactly that message, whatever was recorded before, for this or any
/// other worker.
pub proof fn lemma_correlation_attributes_latest(
    buffer: Seq<Seq<Seq<char>>>,
    worker: int,
    msg: Seq<char>,
)
    requires
        0 <= worker < buffer.len(),
    ensures
        buffer.update(worker, buffer[worker].push(msg))[worker].len() > 0,
        buffer.update(worker, buffer[worker].push(msg))[worker].last() == msg,
{
}

} // verus!
