//! The storage sink adapter: what one reading becomes in the time-series
//! store, and how many writes may be under way at once. Sending a point is
//! the caller's business.

use vstd::prelude::*;
use crate::reading::Payload;

verus! {

/// How many writes may be under way at once, unless configured otherwise.
pub const DEFAULT_WRITE_SLOTS: usize = 16;

/// Seconds after which a write is given up, unless configured otherwise.
pub const DEFAULT_WRITE_DEADLINE_SECS: u64 = 30;

/// One field of a point: its name, and its value in the encoding in which
/// readings carry their measurements.
#[derive(Clone, Copy, Debug, PartialEq, Eq)]
pub struct PointField {
    pub name: &'static str,
    pub value: u64,
}

/// One measurement record: a measurement name, named fields and a timestamp
/// in nanoseconds since the Unix epoch.
#[derive(Debug, PartialEq, Eq)]
pub struct Point {
    pub measurement: String,
    pub fields: Vec<PointField>,
    pub timestamp: i64,
}

/// A point as contracts see it.
pub struct PointModel {
    pub measurement: Seq<char>,
    pub fields: Seq<(Seq<char>, u64)>,
    pub timestamp: i64,
}

impl View for Point {
    type V = PointModel;

    open spec fn view(&self) -> PointModel {
        PointModel {
            measurement: self.measurement@,
            fields: self.fields@.map_values(|f: PointField| (f.name@, f.value)),
            timestamp: self.timestamp,
        }
    }
}

/// The point that stands for `reading` under the measurement name
/// `measurement`: the fields `T`, `H`, `DP`, `CO2` and `pCount`, in this
/// order, and the reading's own time.
pub open spec fn point_of(reading: Payload, measurement: Seq<char>) -> PointModel {
    PointModel {
        measurement,
        fields: seq![
            ("T"@, reading.temp),
            ("H"@, reading.h),
            ("DP"@, reading.dp),
            ("CO2"@, reading.co2),
            ("pCount"@, reading.p_count),
        ],
        timestamp: reading.time,
    }
}

impl Point {
    /// The point to write for `reading`.
    pub fn from_reading(reading: &Payload, measurement: &str) -> (point: Point)
        ensures
            point@ == point_of(*reading, measurement@),
    {
        let mut fields: Vec<PointField> = Vec::with_capacity(5);
        fields.push(PointField { name: "T", value: reading.temp });
        fields.push(PointField { name: "H", value: reading.h });
        fields.push(PointField { name: "DP", value: reading.dp });
        fields.push(PointField { name: "CO2", value: reading.co2 });
        fields.push(PointField { name: "pCount", value: reading.p_count });
        let point = Point { measurement: measurement.to_owned(), fields, timestamp: reading.time };
        assert(point@.fields =~= point_of(*reading, measurement@).fields);
        point
    }
}

/// The write slots as contracts see them.
pub struct SlotsModel {
    pub limit: usize,
    pub taken: usize,
}

/// A fixed number of slots for writes that are under way. A write takes a
/// slot before it starts and gives it back when it has ended, however it
/// ended; a write that finds no slot free is not started at all, so the
/// writes under way never outnumber the slots.
#[derive(Debug)]
pub struct WriteSlots {
    limit: usize,
    taken: usize,
}

impl View for WriteSlots {
    type V = SlotsModel;

    closed spec fn view(&self) -> SlotsModel {
        SlotsModel { limit: self.limit, taken: self.taken }
    }
}

impl WriteSlots {
    #[verifier::type_invariant]
    spec fn within_limit(self) -> bool {
        self.taken <= self.limit
    }

    /// `limit` slots, all free.
    pub fn new(limit: usize) -> (slots: WriteSlots)
        ensures
            slots@ == (SlotsModel { limit, taken: 0 }),
    {
        WriteSlots { limit, taken: 0 }
    }

    /// How many writes are under way; never more than the limit.
    pub fn in_flight(&self) -> (n: usize)
        ensures
            n == self@.taken,
            n <= self@.limit,
    {
        proof {
            use_type_invariant(self);
        }
        self.taken
    }

    /// Takes a slot for a write that is about to start, if one is free.
    pub fn try_take(&mut self) -> (taken: bool)
        ensures
            taken == (old(self)@.taken < old(self)@.limit),
            final(self)@.limit == old(self)@.limit,
            final(self)@.taken == old(self)@.taken + if taken { 1int } else { 0int },
            final(self)@.taken <= final(self)@.limit,
    {
        proof {
            use_type_invariant(&*self);
        }
        if self.taken < self.limit {
            self.taken = self.taken + 1;
            true
        } else {
            false
        }
    }

    /// Gives back the slot of a write that has ended. With no slot taken
    /// there is nothing to give back, and nothing changes.
    pub fn give_back(&mut self)
        ensures
            final(self)@.limit == old(self)@.limit,
            final(self)@.taken == if old(self)@.taken > 0 { old(self)@.taken - 1 } else { 0int },
    {
        proof {
            use_type_invariant(&*self);
        }
        if self.taken > 0 {
            self.taken = self.taken - 1;
        }
    }
}

} // verus!
