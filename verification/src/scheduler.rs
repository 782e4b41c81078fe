//! The derived timestamp set and the countdown policy: which timestamp
//! comes next, how much time remains to it, and when the pre-event alert
//! fires.

use vstd::prelude::*;
use vstd::arithmetic::div_mod::{lemma_fundamental_div_mod, lemma_mod_bound};
use crate::time_math::{Offset, TimeOfDay, SECONDS_PER_DAY};

verus! {

/// Seconds the anchor is moved earlier to give the wake-up time: 15 minutes.
pub const WAKE_UP_OFFSET_SECONDS: u32 = 900;

/// Seconds the anchor is moved later to give the dinner time: 11.5 hours.
pub const DINNER_OFFSET_SECONDS: u32 = 41400;

/// Seconds the anchor is moved later to give the bed time: 15.5 hours.
pub const BED_OFFSET_SECONDS: u32 = 55800;

/// Remaining whole seconds at which the alert fires: exactly 10 minutes.
pub const ALERT_WINDOW_SECONDS: i32 = 600;

/// Seconds the countdown loop pauses after firing an alert, so the same
/// window does not trigger twice.
pub const ALERT_PAUSE_SECONDS: u64 = 10;

/// Seconds between two polls of the countdown loop.
pub const POLL_INTERVAL_SECONDS: u64 = 1;

/// A tagged time of day: one named milestone of the daily schedule.
#[derive(Clone, Copy, PartialEq, Eq, Structural, Debug)]
pub enum TimestampType {
    WakeUpTime(TimeOfDay),
    BedTime(TimeOfDay),
    DinnerTime(TimeOfDay),
}

impl TimestampType {
    /// The time of day this timestamp carries, whatever its tag.
    pub open spec fn spec_time(self) -> TimeOfDay {
        match self {
            TimestampType::WakeUpTime(t) => t,
            TimestampType::BedTime(t) => t,
            TimestampType::DinnerTime(t) => t,
        }
    }

    pub fn get_time(&self) -> (t: TimeOfDay)
        ensures
            t == self.spec_time(),
    {
        match self {
            TimestampType::WakeUpTime(t) => *t,
            TimestampType::BedTime(t) => *t,
            TimestampType::DinnerTime(t) => *t,
        }
    }

    /// The human-readable name of this timestamp's tag.
    pub fn label(&self) -> (s: &'static str)
        ensures
            self is WakeUpTime ==> s@ == "Wake up time"@,
            self is DinnerTime ==> s@ == "Optimal evening dinner time"@,
            self is BedTime ==> s@ == "Bedtime"@,
    {
        match self {
            TimestampType::WakeUpTime(_) => "Wake up time",
            TimestampType::DinnerTime(_) => "Optimal evening dinner time",
            TimestampType::BedTime(_) => "Bedtime",
        }
    }
}

/// The fixed table of signed offsets, one per milestone.
#[derive(Clone, Copy, PartialEq, Eq, Structural, Debug)]
pub struct OffsetTable {
    pub wake_up: Offset,
    pub dinner: Offset,
    pub bed: Offset,
}

impl OffsetTable {
    /// The built-in offsets: wake up 15 minutes before the anchor, dinner
    /// 11.5 hours after it, bed 15.5 hours after it.
    pub fn standard() -> (t: OffsetTable)
        ensures
            t.wake_up == (Offset { seconds: WAKE_UP_OFFSET_SECONDS, subtract: true }),
            t.dinner == (Offset { seconds: DINNER_OFFSET_SECONDS, subtract: false }),
            t.bed == (Offset { seconds: BED_OFFSET_SECONDS, subtract: false }),
    {
        OffsetTable {
            wake_up: Offset { seconds: WAKE_UP_OFFSET_SECONDS, subtract: true },
            dinner: Offset { seconds: DINNER_OFFSET_SECONDS, subtract: false },
            bed: Offset { seconds: BED_OFFSET_SECONDS, subtract: false },
        }
    }
}

/// The full set of derived timestamps for one run: one per tag, computed
/// once from a single anchor and never changed afterwards.
pub struct Timestamps {
    pub wake_up_time: TimestampType,
    pub bed_time: TimestampType,
    pub dinner_time: TimestampType,
}

impl Timestamps {
    /// Each field carries the tag its name promises, with a time on the
    /// 24-hour clock.
    pub open spec fn wf(self) -> bool {
        &&& self.wake_up_time matches TimestampType::WakeUpTime(t) && t.wf()
        &&& self.dinner_time matches TimestampType::DinnerTime(t) && t.wf()
        &&& self.bed_time matches TimestampType::BedTime(t) && t.wf()
    }

    /// Derive the full timestamp set from an anchor time and an offset
    /// table, each milestone wrapping around midnight where the offset
    /// pushes it past one.
    pub fn derive(anchor: TimeOfDay, offsets: &OffsetTable) -> (ts: Timestamps)
        requires
            anchor.wf(),
        ensures
            ts.wf(),
            ts.wake_up_time.spec_time().sec() == offsets.wake_up.offset_from(anchor.sec()),
            ts.dinner_time.spec_time().sec() == offsets.dinner.offset_from(anchor.sec()),
            ts.bed_time.spec_time().sec() == offsets.bed.offset_from(anchor.sec()),
    {
        Timestamps {
            wake_up_time: TimestampType::WakeUpTime(offsets.wake_up.apply(anchor)),
            dinner_time: TimestampType::DinnerTime(offsets.dinner.apply(anchor)),
            bed_time: TimestampType::BedTime(offsets.bed.apply(anchor)),
        }
    }

    /// Derive the timestamp set with the built-in offsets.
    pub fn new(anchor: TimeOfDay) -> (ts: Timestamps)
        requires
            anchor.wf(),
        ensures
            ts.wf(),
            ts.wake_up_time.spec_time().sec() == (anchor.sec() - WAKE_UP_OFFSET_SECONDS as int)
                % (SECONDS_PER_DAY as int),
            ts.dinner_time.spec_time().sec() == (anchor.sec() + DINNER_OFFSET_SECONDS as int)
                % (SECONDS_PER_DAY as int),
            ts.bed_time.spec_time().sec() == (anchor.sec() + BED_OFFSET_SECONDS as int)
                % (SECONDS_PER_DAY as int),
    {
        let offsets = OffsetTable::standard();
        Timestamps::derive(anchor, &offsets)
    }

    /// Signed difference `second - first` in whole seconds.
    pub fn get_abs_time_diff(&self, first: TimeOfDay, second: TimeOfDay) -> (d: i32)
        requires
            first.wf(),
            second.wf(),
        ensures
            d == second.sec() - first.sec(),
    {
        second.seconds() as i32 - first.seconds() as i32
    }

    /// The timestamp the countdown runs towards: scanning bed time, then
    /// dinner, then wake-up, each not-yet-passed tag overwrites the
    /// candidate, so the earliest tag still ahead wins and bed time is the
    /// fallback once every tag has passed.
    pub fn get_upcomming_timestamp(&self, now: TimeOfDay) -> (r: TimestampType)
        requires
            self.wf(),
            now.wf(),
        ensures
            r == spec_upcoming(*self, now),
    {
        let mut upcoming = self.bed_time;
        if let TimestampType::DinnerTime(value) = self.dinner_time {
            if self.get_abs_time_diff(value, now) < 1 {
                upcoming = self.dinner_time;
            }
        }
        if let TimestampType::WakeUpTime(value) = self.wake_up_time {
            if self.get_abs_time_diff(value, now) < 1 {
                upcoming = self.wake_up_time;
            }
        }
        upcoming
    }

    /// One decision step of the countdown loop: the upcoming timestamp,
    /// the signed seconds remaining to it, and whether the alert fires.
    pub fn countdown_step(&self, now: TimeOfDay) -> (st: CountdownStep)
        requires
            self.wf(),
            now.wf(),
        ensures
            st.upcoming == spec_upcoming(*self, now),
            st.diff == st.upcoming.spec_time().sec() - now.sec(),
            st.alert <==> st.diff == ALERT_WINDOW_SECONDS,
            st.alert <==> hours_component(st.diff as int) == 0
                && minutes_component(st.diff as int) == 10
                && seconds_component(st.diff as int) == 0,
    {
        let upcoming = self.get_upcomming_timestamp(now);
        let diff = self.get_abs_time_diff(now, upcoming.get_time());
        let alert = should_alert(diff);
        proof {
            lemma_alert_window_exact(diff as int);
        }
        CountdownStep { upcoming, diff, alert }
    }
}

/// The timestamp the scan settles on: the earliest of wake-up and dinner
/// that `now` has not yet passed, bed time otherwise.
pub open spec fn spec_upcoming(ts: Timestamps, now: TimeOfDay) -> TimestampType {
    if now.sec() <= ts.wake_up_time.spec_time().sec() {
        ts.wake_up_time
    } else if now.sec() <= ts.dinner_time.spec_time().sec() {
        ts.dinner_time
    } else {
        ts.bed_time
    }
}

/// What one poll of the countdown loop decided.
#[derive(Clone, Copy, PartialEq, Eq, Structural, Debug)]
pub struct CountdownStep {
    pub upcoming: TimestampType,
    pub diff: i32,
    pub alert: bool,
}

/// The whole hours of a signed duration, truncated towards zero.
pub open spec fn hours_component(d: int) -> int {
    if d >= 0 {
        d / 3600
    } else {
        -((-d) / 3600)
    }
}

/// The whole minutes of a signed duration past its whole hours.
pub open spec fn minutes_component(d: int) -> int {
    if d >= 0 {
        (d / 60) % 60
    } else {
        -(((-d) / 60) % 60)
    }
}

/// The seconds of a signed duration past its whole minutes.
pub open spec fn seconds_component(d: int) -> int {
    if d >= 0 {
        d % 60
    } else {
        -((-d) % 60)
    }
}

/// Break a signed duration in seconds into hours, minutes and seconds,
/// all truncated towards zero and carrying the duration's sign.
pub fn split_hms(diff: i32) -> (hms: (i32, i32, i32))
    ensures
        hms.0 == hours_component(diff as int),
        hms.1 == minutes_component(diff as int),
        hms.2 == seconds_component(diff as int),
{
    let negative = diff < 0;
    let magnitude: u32 = if negative {
        (-(diff as i64)) as u32
    } else {
        diff as u32
    };
    let h = magnitude / 3600;
    let m = (magnitude / 60) % 60;
    let s = magnitude % 60;
    if negative {
        (-(h as i32), -(m as i32), -(s as i32))
    } else {
        (h as i32, m as i32, s as i32)
    }
}

/// True exactly when the remaining duration reads 0 hours, 10 minutes and
/// 0 seconds: the alert is an exact-second match, not a threshold.
pub fn should_alert(diff: i32) -> (b: bool)
    ensures
        b <==> hours_component(diff as int) == 0 && minutes_component(diff as int) == 10
            && seconds_component(diff as int) == 0,
{
    let (h, m, s) = split_hms(diff);
    h == 0 && m == 10 && s == 0
}

/// The alert triple (0 hours, 10 minutes, 0 seconds) is hit by exactly one
/// signed duration: 600 seconds.
pub proof fn lemma_alert_window_exact(d: int)
    ensures
        (hours_component(d) == 0 && minutes_component(d) == 10 && seconds_component(d) == 0)
            <==> d == ALERT_WINDOW_SECONDS,
{
    if d >= 0 {
        lemma_fundamental_div_mod(d, 3600);
        lemma_fundamental_div_mod(d, 60);
        lemma_fundamental_div_mod(d / 60, 60);
        lemma_mod_bound(d, 3600);
        lemma_mod_bound(d, 60);
        lemma_mod_bound(d / 60, 60);
    } else {
        lemma_mod_bound((-d) / 60, 60);
        lemma_mod_bound(-d, 60);
    }
}

/// When `now` is strictly before every timestamp of the set, the scan
/// settles on the earliest tag of the priority order: wake-up.
pub proof fn lemma_upcoming_before_all(ts: Timestamps, now: TimeOfDay)
    requires
        ts.wf(),
        now.wf(),
        now.sec() < ts.wake_up_time.spec_time().sec(),
        now.sec() < ts.dinner_time.spec_time().sec(),
        now.sec() < ts.bed_time.spec_time().sec(),
    ensures
        spec_upcoming(ts, now) == ts.wake_up_time,
{
}

/// When `now` is past every timestamp of the set, the scan falls back to
/// the default candidate: bed time.
pub proof fn lemma_upcoming_after_all(ts: Timestamps, now: TimeOfDay)
    requires
        ts.wf(),
        now.wf(),
        now.sec() > ts.wake_up_time.spec_time().sec(),
        now.sec() > ts.dinner_time.spec_time().sec(),
        now.sec() > ts.bed_time.spec_time().sec(),
    ensures
        spec_upcoming(ts, now) == ts.bed_time,
{
}

/// Relies on chrono::Local::now: the local wall-clock time of day, which
/// always lies within the 24-hour clock.
#[verifier::external_body]
fn local_seconds_from_midnight() -> (r: u32)
    ensures
        r < SECONDS_PER_DAY,
{
    chrono::Timelike::num_seconds_from_midnight(&chrono::Local::now().time())
}

/// The current local time of day.
pub fn local_time_now() -> (t: TimeOfDay)
    ensures
        t.wf(),
{
    TimeOfDay::from_seconds(local_seconds_from_midnight())
}

} // verus!
