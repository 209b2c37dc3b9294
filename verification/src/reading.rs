//! The reading: one validated sensor sample, and how it is put together from
//! what an inbound message holds.

use vstd::prelude::*;
use vstd::string::StringExecFns;
use crate::clock::{format_utc, utc_text};

verus! {

/// One sensor sample.
///
/// Each of the five measurements is carried as the 64-bit encoding of its
/// binary64 value. The relay never computes with a measurement; it only
/// stores it and passes it on, so the encoding is kept bit for bit.
#[derive(Clone, Copy, Debug, PartialEq, Eq, Structural)]
pub struct Payload {
    /// Carbon-dioxide concentration, ppm.
    pub co2: u64,
    /// Dew point, degrees Celsius.
    pub dp: u64,
    /// Relative humidity, percent.
    pub h: u64,
    /// Temperature, degrees Celsius.
    pub temp: u64,
    /// Particle count.
    pub p_count: u64,
    /// When the sample was taken, in nanoseconds since the Unix epoch.
    pub time: i64,
}

/// The five measurements of a reading written out as decimal numbers.
#[derive(Debug)]
pub struct Decimals {
    pub temp: String,
    pub dp: String,
    pub h: String,
    pub co2: String,
    pub p_count: String,
}

/// The required measurements, in the order in which they are looked for.
#[derive(Clone, Copy, Debug, PartialEq, Eq, Structural)]
pub enum Field {
    Co2,
    Dp,
    H,
    Temp,
    PCount,
}

/// Why an inbound message gave no reading.
#[derive(Clone, Copy, Debug, PartialEq, Eq, Structural)]
pub enum DecodeError {
    /// The body is not a JSON document with values of the expected types.
    Malformed,
    /// A required measurement is absent.
    Missing(Field),
    /// The message names no time, and the clock has none that fits either.
    NoReceiptTime,
}

/// What a message body was found to hold: each value, where it is present.
#[derive(Clone, Copy, Debug, PartialEq, Eq)]
pub struct RawReading {
    pub co2: Option<u64>,
    pub dp: Option<u64>,
    pub h: Option<u64>,
    pub temp: Option<u64>,
    pub p_count: Option<u64>,
    pub time: Option<i64>,
}

/// The first required measurement that `raw` lacks, if it lacks any.
pub open spec fn first_missing(raw: RawReading) -> Option<Field> {
    if raw.co2 is None {
        Some(Field::Co2)
    } else if raw.dp is None {
        Some(Field::Dp)
    } else if raw.h is None {
        Some(Field::H)
    } else if raw.temp is None {
        Some(Field::Temp)
    } else if raw.p_count is None {
        Some(Field::PCount)
    } else {
        None
    }
}

/// The timestamp of a reading: the one the message names, else the time of
/// receipt `now`.
pub open spec fn stamp(named: Option<i64>, now: Option<i64>) -> Option<i64> {
    if named is Some {
        named
    } else {
        now
    }
}

/// The reading that `raw` stands for when it is received at `now`, or the
/// reason why it stands for none. All five measurements are required; the
/// time is not.
pub open spec fn assembled(raw: RawReading, now: Option<i64>) -> Result<Payload, DecodeError> {
    match first_missing(raw) {
        Some(field) => Err(DecodeError::Missing(field)),
        None => match stamp(raw.time, now) {
            Some(time) => Ok(
                Payload {
                    co2: raw.co2->0,
                    dp: raw.dp->0,
                    h: raw.h->0,
                    temp: raw.temp->0,
                    p_count: raw.p_count->0,
                    time,
                },
            ),
            None => Err(DecodeError::NoReceiptTime),
        },
    }
}

/// Whether the time of receipt matters for `raw`: it does only for a message
/// that has every measurement and names no time.
pub open spec fn wants_clock(raw: RawReading) -> bool {
    first_missing(raw) is None && raw.time is None
}

/// The one-line summary of a reading taken at the instant written `time`,
/// with its measurements written as in `decimals`.
pub open spec fn summary_line(time: Seq<char>, decimals: Decimals) -> Seq<char> {
    "time: "@ + time + ", T: "@ + decimals.temp@ + " \u{b0}C, DP: "@ + decimals.dp@
        + " \u{b0}C, H: "@ + decimals.h@ + " %, CO2: "@ + decimals.co2@ + " ppm, pCount: "@
        + decimals.p_count@
}

impl RawReading {
    /// Puts the reading together that this body stands for when it is
    /// received at `now`.
    pub fn assemble(&self, now: Option<i64>) -> (r: Result<Payload, DecodeError>)
        ensures
            r == assembled(*self, now),
    {
        let Some(co2) = self.co2 else {
            return Err(DecodeError::Missing(Field::Co2));
        };
        let Some(dp) = self.dp else {
            return Err(DecodeError::Missing(Field::Dp));
        };
        let Some(h) = self.h else {
            return Err(DecodeError::Missing(Field::H));
        };
        let Some(temp) = self.temp else {
            return Err(DecodeError::Missing(Field::Temp));
        };
        let Some(p_count) = self.p_count else {
            return Err(DecodeError::Missing(Field::PCount));
        };
        let stamped = match self.time {
            Some(t) => Some(t),
            None => now,
        };
        match stamped {
            Some(time) => Ok(Payload { co2, dp, h, temp, p_count, time }),
            None => Err(DecodeError::NoReceiptTime),
        }
    }

    /// Whether the time of receipt matters for this body.
    pub fn needs_clock(&self) -> (b: bool)
        ensures
            b == wants_clock(*self),
    {
        self.co2.is_some() && self.dp.is_some() && self.h.is_some() && self.temp.is_some()
            && self.p_count.is_some() && self.time.is_none()
    }
}

impl Decimals {
    /// The one-line summary of a reading taken at the instant written
    /// `time`, with its measurements written as here.
    pub fn summary(&self, time: &str) -> (line: String)
        ensures
            line@ == summary_line(time@, *self),
    {
        let mut line = "time: ".to_owned();
        line.append(time);
        line.append(", T: ");
        line.append(self.temp.as_str());
        line.append(" \u{b0}C, DP: ");
        line.append(self.dp.as_str());
        line.append(" \u{b0}C, H: ");
        line.append(self.h.as_str());
        line.append(" %, CO2: ");
        line.append(self.co2.as_str());
        line.append(" ppm, pCount: ");
        line.append(self.p_count.as_str());
        line
    }
}

impl Payload {
    /// A reading with the given measurement encodings and timestamp.
    pub fn new(co2: u64, dp: u64, h: u64, temp: u64, p_count: u64, time: i64) -> (p: Payload)
        ensures
            p == (Payload { co2, dp, h, temp, p_count, time }),
    {
        Payload { co2, dp, h, temp, p_count, time }
    }

    /// The one-line summary of this reading: its time as a UTC date and
    /// time, then the measurements as `decimals` writes them.
    pub fn summary(&self, decimals: &Decimals) -> (line: String)
        ensures
            line@ == summary_line(utc_text(self.time), *decimals),
    {
        let time = format_utc(self.time);
        decimals.summary(time.as_str())
    }
}

} // verus!
