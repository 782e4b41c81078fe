//! Time-of-day values and the pure arithmetic on them: clamping an anchor
//! into its valid range, applying signed offsets on a wrapping 24-hour
//! clock, and reading an anchor time out of an `HH:MM` string.

use vstd::prelude::*;
use vstd::arithmetic::div_mod::{
    lemma_add_mod_noop_right, lemma_sub_mod_noop_right, lemma_mod_add_multiples_vanish,
};

verus! {

/// Number of whole seconds in one day.
pub const SECONDS_PER_DAY: u32 = 86400;

/// Earliest admissible anchor (sunrise) time: 06:30.
pub const MIN_WAKEUP_SECONDS: u32 = 23400;

/// Latest admissible anchor (sunrise) time: 08:22.
pub const MAX_WAKEUP_SECONDS: u32 = 30120;

/// A time of day: whole seconds since midnight, always less than one day.
#[derive(Clone, Copy, PartialEq, Eq, Structural, Debug)]
pub struct TimeOfDay {
    secs: u32,
}

impl TimeOfDay {
    /// The value as a mathematical number of seconds since midnight.
    pub closed spec fn sec(self) -> int {
        self.secs as int
    }

    /// A well-formed time of day lies within the 24-hour clock.
    pub open spec fn wf(self) -> bool {
        0 <= self.sec() < SECONDS_PER_DAY
    }

    pub fn from_seconds(s: u32) -> (t: TimeOfDay)
        requires
            s < SECONDS_PER_DAY,
        ensures
            t.wf(),
            t.sec() == s,
    {
        TimeOfDay { secs: s }
    }

    pub fn from_hms(hour: u32, minute: u32, second: u32) -> (t: TimeOfDay)
        requires
            hour < 24,
            minute < 60,
            second < 60,
        ensures
            t.wf(),
            t.sec() == hour * 3600 + minute * 60 + second,
    {
        TimeOfDay { secs: hour * 3600 + minute * 60 + second }
    }

    pub fn from_hm(hour: u32, minute: u32) -> (t: TimeOfDay)
        requires
            hour < 24,
            minute < 60,
        ensures
            t.wf(),
            t.sec() == hour * 3600 + minute * 60,
    {
        TimeOfDay::from_hms(hour, minute, 0)
    }

    /// The stored number of seconds since midnight.
    pub fn seconds(&self) -> (s: u32)
        ensures
            s == self.sec(),
    {
        self.secs
    }

    /// Move this time later by `offset` seconds, wrapping around midnight.
    pub fn add_wrapping(self, offset: u32) -> (t: TimeOfDay)
        requires
            self.wf(),
        ensures
            t.wf(),
            t.sec() == (self.sec() + offset as int) % (SECONDS_PER_DAY as int),
    {
        let reduced = offset % SECONDS_PER_DAY;
        let s = (self.secs + reduced) % SECONDS_PER_DAY;
        proof {
            lemma_add_mod_noop_right(self.sec(), offset as int, SECONDS_PER_DAY as int);
        }
        TimeOfDay { secs: s }
    }

    /// Move this time earlier by `offset` seconds, wrapping around midnight.
    pub fn sub_wrapping(self, offset: u32) -> (t: TimeOfDay)
        requires
            self.wf(),
        ensures
            t.wf(),
            t.sec() == (self.sec() - offset as int) % (SECONDS_PER_DAY as int),
    {
        let reduced = offset % SECONDS_PER_DAY;
        let s = (self.secs + SECONDS_PER_DAY - reduced) % SECONDS_PER_DAY;
        proof {
            lemma_sub_mod_noop_right(
                self.sec() + SECONDS_PER_DAY,
                offset as int,
                SECONDS_PER_DAY as int,
            );
            lemma_mod_add_multiples_vanish(
                self.sec() - offset as int,
                SECONDS_PER_DAY as int,
            );
        }
        TimeOfDay { secs: s }
    }
}

/// A signed offset from the anchor: a magnitude in seconds together with
/// its direction (earlier or later in the day).
#[derive(Clone, Copy, PartialEq, Eq, Structural, Debug)]
pub struct Offset {
    pub seconds: u32,
    pub subtract: bool,
}

impl Offset {
    /// Where this offset lands when applied to an anchor at `anchor`
    /// seconds since midnight, on a wrapping 24-hour clock.
    pub open spec fn offset_from(self, anchor: int) -> int {
        if self.subtract {
            (anchor - self.seconds) % (SECONDS_PER_DAY as int)
        } else {
            (anchor + self.seconds) % (SECONDS_PER_DAY as int)
        }
    }

    /// Apply this offset to `anchor`, wrapping around midnight.
    pub fn apply(self, anchor: TimeOfDay) -> (t: TimeOfDay)
        requires
            anchor.wf(),
        ensures
            t.wf(),
            t.sec() == self.offset_from(anchor.sec()),
    {
        if self.subtract {
            anchor.sub_wrapping(self.seconds)
        } else {
            anchor.add_wrapping(self.seconds)
        }
    }
}

/// Where `raw` lands after clamping into `[lo, hi]`: `raw` itself when it
/// already lies inside, else the bound it fell beyond.
pub open spec fn clamp_sec(raw: int, lo: int, hi: int) -> int {
    if raw < lo {
        lo
    } else if raw > hi {
        hi
    } else {
        raw
    }
}

/// Clamp `raw` into the inclusive range `[lower, upper]`.
pub fn clamp(raw: TimeOfDay, lower: TimeOfDay, upper: TimeOfDay) -> (t: TimeOfDay)
    ensures
        t.sec() == clamp_sec(raw.sec(), lower.sec(), upper.sec()),
        t == raw || t == lower || t == upper,
{
    if raw.seconds() < lower.seconds() {
        lower
    } else if raw.seconds() > upper.seconds() {
        upper
    } else {
        raw
    }
}

/// Out-of-range values clamp to the nearer bound; in-range values pass
/// through unchanged, bounds included.
pub proof fn lemma_clamp_nearer_bound(raw: int, lo: int, hi: int)
    requires
        lo <= hi,
    ensures
        raw < lo ==> clamp_sec(raw, lo, hi) == lo && lo - raw <= hi - raw,
        raw > hi ==> clamp_sec(raw, lo, hi) == hi && raw - hi <= raw - lo,
        lo <= raw <= hi ==> clamp_sec(raw, lo, hi) == raw,
{
}

/// The time of day encoded by an `HH:MM` string, if the string is one.
pub uninterp spec fn parsed_hm(s: Seq<char>) -> Option<u32>;

/// Relies on chrono::NaiveTime::parse_from_str with the "%H:%M" format:
/// whether the text parses, and to what, depends on the text alone; a
/// parsed time lies within the day and on a whole minute, since missing
/// seconds are taken as zero.
#[verifier::external_body]
fn parse_hour_minute(s: &str) -> (r: Option<u32>)
    ensures
        r == parsed_hm(s@),
        r matches Some(v) ==> v < SECONDS_PER_DAY && v % 60 == 0,
{
    match chrono::NaiveTime::parse_from_str(s, "%H:%M") {
        Ok(t) => Some(chrono::Timelike::num_seconds_from_midnight(&t)),
        Err(_) => None,
    }
}

/// Read an anchor time out of an `HH:MM` string and clamp it into the
/// admissible range; `None` exactly when the string is not a valid time.
pub fn anchor_from_str(s: &str) -> (r: Option<TimeOfDay>)
    ensures
        r is Some <==> parsed_hm(s@) is Some,
        r matches Some(t) ==> {
            &&& parsed_hm(s@) matches Some(v) && t.sec() == clamp_sec(
                v as int,
                MIN_WAKEUP_SECONDS as int,
                MAX_WAKEUP_SECONDS as int,
            )
            &&& t.wf()
            &&& MIN_WAKEUP_SECONDS <= t.sec() <= MAX_WAKEUP_SECONDS
        },
{
    match parse_hour_minute(s) {
        Some(v) => {
            let raw = TimeOfDay::from_seconds(v);
            let lower = TimeOfDay::from_seconds(MIN_WAKEUP_SECONDS);
            let upper = TimeOfDay::from_seconds(MAX_WAKEUP_SECONDS);
            Some(clamp(raw, lower, upper))
        },
        None => None,
    }
}

} // verus!
