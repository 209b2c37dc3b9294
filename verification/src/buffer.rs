//! The recency buffer: the last few readings, oldest first.

use vstd::prelude::*;
use crate::reading::Payload;

verus! {

/// How many readings the recency buffer keeps.
pub const MAX_LOCAL_MEASUREMENTS: usize = 12;

/// The trailing `n` entries of `arrivals`, or all of them if there are fewer.
pub open spec fn latest(arrivals: Seq<Payload>, n: nat) -> Seq<Payload> {
    if arrivals.len() <= n {
        arrivals
    } else {
        arrivals.skip(arrivals.len() - n)
    }
}

/// What a buffer holding `held` becomes when `reading` arrives: the reading
/// goes to the end, and whatever no longer fits falls off the front.
pub open spec fn appended(held: Seq<Payload>, reading: Payload) -> Seq<Payload> {
    latest(held.push(reading), MAX_LOCAL_MEASUREMENTS as nat)
}

/// What a buffer holding `held` becomes when `arrivals` are appended to it
/// one after the other, first to last.
pub open spec fn appended_all(held: Seq<Payload>, arrivals: Seq<Payload>) -> Seq<Payload>
    decreases arrivals.len(),
{
    if arrivals.len() == 0 {
        held
    } else {
        appended(appended_all(held, arrivals.drop_last()), arrivals.last())
    }
}

/// The newest of the readings `held`, if there is any.
pub open spec fn newest(held: Seq<Payload>) -> Option<Payload> {
    if held.len() == 0 {
        None
    } else {
        Some(held.last())
    }
}

/// A sliding window over the stream of readings: at most
/// [`MAX_LOCAL_MEASUREMENTS`] of them, in arrival order.
pub struct RecencyBuffer {
    items: Vec<Payload>,
}

impl View for RecencyBuffer {
    type V = Seq<Payload>;

    closed spec fn view(&self) -> Seq<Payload> {
        self.items@
    }
}

impl RecencyBuffer {
    #[verifier::type_invariant]
    spec fn within_capacity(self) -> bool {
        self.items@.len() <= MAX_LOCAL_MEASUREMENTS
    }

    /// An empty buffer.
    pub fn new() -> (b: RecencyBuffer)
        ensures
            b@ == Seq::<Payload>::empty(),
    {
        RecencyBuffer { items: Vec::with_capacity(MAX_LOCAL_MEASUREMENTS) }
    }

    /// Adds `reading` as the newest entry, evicting the oldest one first if
    /// the buffer is full.
    pub fn append(&mut self, reading: Payload)
        ensures
            final(self)@ == appended(old(self)@, reading),
            final(self)@.len() <= MAX_LOCAL_MEASUREMENTS,
    {
        proof {
            use_type_invariant(&*self);
        }
        let mut items: Vec<Payload> = Vec::new();
        core::mem::swap(&mut self.items, &mut items);
        if items.len() == MAX_LOCAL_MEASUREMENTS {
            items.remove(0);
        }
        items.push(reading);
        self.items = items;
    }

    /// The most recent reading, or `None` while the buffer is empty.
    pub fn snapshot(&self) -> (last: Option<Payload>)
        ensures
            last == newest(self@),
    {
        let n: usize = self.items.len();
        if n == 0 {
            None
        } else {
            Some(self.items[n - 1])
        }
    }

    /// Number of readings held; never more than the capacity.
    pub fn len(&self) -> (n: usize)
        ensures
            n == self@.len(),
            n <= MAX_LOCAL_MEASUREMENTS,
    {
        proof {
            use_type_invariant(self);
        }
        self.items.len()
    }

    /// All readings held, oldest first.
    pub fn readings(&self) -> (all: Vec<Payload>)
        ensures
            all@ == self@,
            all@.len() <= MAX_LOCAL_MEASUREMENTS,
    {
        proof {
            use_type_invariant(self);
        }
        let mut all: Vec<Payload> = Vec::new();
        let mut i: usize = 0;
        while i < self.items.len()
            invariant
                i <= self.items@.len(),
                all@ == self.items@.take(i as int),
            decreases self.items@.len() - i,
        {
            all.push(self.items[i]);
            i = i + 1;
        }
        all
    }
}

/// Appending to a window of a stream gives the window of the longer stream.
pub proof fn lemma_window_slides(arrivals: Seq<Payload>, reading: Payload)
    ensures
        appended(latest(arrivals, MAX_LOCAL_MEASUREMENTS as nat), reading) == latest(
            arrivals.push(reading),
            MAX_LOCAL_MEASUREMENTS as nat,
        ),
{
}

/// A buffer that starts empty and takes in `arrivals` one by one ends up
/// holding the last `min(arrivals.len(), MAX_LOCAL_MEASUREMENTS)` of them, in
/// arrival order.
pub proof fn lemma_buffer_holds_latest(arrivals: Seq<Payload>)
    ensures
        appended_all(Seq::empty(), arrivals) == latest(arrivals, MAX_LOCAL_MEASUREMENTS as nat),
        appended_all(Seq::empty(), arrivals).len() == if arrivals.len()
            <= MAX_LOCAL_MEASUREMENTS {
            arrivals.len()
        } else {
            MAX_LOCAL_MEASUREMENTS as nat
        },
        forall|i: int|
            0 <= i < appended_all(Seq::empty(), arrivals).len() ==> appended_all(
                Seq::empty(),
                arrivals,
            )[i] == arrivals[arrivals.len() - appended_all(Seq::empty(), arrivals).len() + i],
    decreases arrivals.len(),
{
    if arrivals.len() > 0 {
        lemma_buffer_holds_latest(arrivals.drop_last());
        lemma_window_slides(arrivals.drop_last(), arrivals.last());
        assert(arrivals.drop_last().push(arrivals.last()) == arrivals);
    }
}

/// Right after a reading is appended, it is the newest one.
pub proof fn lemma_appended_is_newest(held: Seq<Payload>, reading: Payload)
    ensures
        newest(appended(held, reading)) == Some(reading),
{
}

/// However many readings arrive, and whatever the buffer held before, it
/// never holds more than [`MAX_LOCAL_MEASUREMENTS`] after any of them.
pub proof fn lemma_buffer_stays_bounded(held: Seq<Payload>, arrivals: Seq<Payload>, seen: int)
    requires
        held.len() <= MAX_LOCAL_MEASUREMENTS,
        0 <= seen <= arrivals.len(),
    ensures
        appended_all(held, arrivals.take(seen)).len() <= MAX_LOCAL_MEASUREMENTS,
{
    let prefix = arrivals.take(seen);
    if prefix.len() > 0 {
        assert(appended_all(held, prefix) == appended(
            appended_all(held, prefix.drop_last()),
            prefix.last(),
        ));
    }
}

} // verus!
