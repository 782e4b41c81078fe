use chronotype::scheduler::{
    local_time_now, should_alert, split_hms, OffsetTable, TimestampType, Timestamps,
    ALERT_PAUSE_SECONDS, POLL_INTERVAL_SECONDS,
};
use chronotype::time_math::{Offset, TimeOfDay, SECONDS_PER_DAY};

fn standard_set() -> Timestamps {
    // Anchor 07:00 with the built-in offsets: wake up 06:45, dinner 18:30,
    // bed 22:30.
    Timestamps::new(TimeOfDay::from_hm(7, 0))
}

#[test]
fn new_derives_the_documented_times() {
    let ts = standard_set();
    assert_eq!(ts.wake_up_time.get_time().seconds(), 6 * 3600 + 45 * 60);
    assert_eq!(ts.dinner_time.get_time().seconds(), 18 * 3600 + 30 * 60);
    assert_eq!(ts.bed_time.get_time().seconds(), 22 * 3600 + 30 * 60);
    assert!(matches!(ts.wake_up_time, TimestampType::WakeUpTime(_)));
    assert!(matches!(ts.dinner_time, TimestampType::DinnerTime(_)));
    assert!(matches!(ts.bed_time, TimestampType::BedTime(_)));
}

#[test]
fn derive_wraps_past_midnight() {
    // An anchor late in the day pushes dinner and bed past midnight.
    let offsets = OffsetTable::standard();
    let ts = Timestamps::derive(TimeOfDay::from_hm(23, 50), &offsets);
    assert_eq!(ts.wake_up_time.get_time().seconds(), 23 * 3600 + 35 * 60);
    assert_eq!(ts.dinner_time.get_time().seconds(), 11 * 3600 + 20 * 60);
    assert_eq!(ts.bed_time.get_time().seconds(), 15 * 3600 + 20 * 60);
}

#[test]
fn derive_wraps_before_midnight() {
    let offsets = OffsetTable {
        wake_up: Offset { seconds: 15 * 60, subtract: true },
        dinner: Offset { seconds: 2 * 3600, subtract: false },
        bed: Offset { seconds: 3 * 3600, subtract: false },
    };
    let ts = Timestamps::derive(TimeOfDay::from_hm(0, 10), &offsets);
    assert_eq!(ts.wake_up_time.get_time().seconds(), 23 * 3600 + 55 * 60);
    assert_eq!(ts.dinner_time.get_time().seconds(), 2 * 3600 + 10 * 60);
    assert_eq!(ts.bed_time.get_time().seconds(), 3 * 3600 + 10 * 60);
}

#[test]
fn upcoming_before_all_is_wake_up() {
    let ts = standard_set();
    let now = TimeOfDay::from_hm(5, 0);
    assert_eq!(ts.get_upcomming_timestamp(now), ts.wake_up_time);
}

#[test]
fn upcoming_between_wake_up_and_dinner_is_dinner() {
    let ts = standard_set();
    let now = TimeOfDay::from_hm(12, 0);
    assert_eq!(ts.get_upcomming_timestamp(now), ts.dinner_time);
}

#[test]
fn upcoming_between_dinner_and_bed_is_bed() {
    let ts = standard_set();
    let now = TimeOfDay::from_hm(20, 0);
    assert_eq!(ts.get_upcomming_timestamp(now), ts.bed_time);
}

#[test]
fn upcoming_after_all_falls_back_to_bed() {
    let ts = standard_set();
    let now = TimeOfDay::from_hm(23, 0);
    assert_eq!(ts.get_upcomming_timestamp(now), ts.bed_time);
}

#[test]
fn upcoming_at_the_exact_tag_time_still_counts() {
    let ts = standard_set();
    // At 06:45:00 the wake-up time has not yet passed.
    let now = TimeOfDay::from_hms(6, 45, 0);
    assert_eq!(ts.get_upcomming_timestamp(now), ts.wake_up_time);
    // One second later it has.
    let now = TimeOfDay::from_hms(6, 45, 1);
    assert_eq!(ts.get_upcomming_timestamp(now), ts.dinner_time);
}

#[test]
fn time_diff_is_signed_target_minus_now() {
    let ts = standard_set();
    let now = TimeOfDay::from_hm(6, 0);
    let target = TimeOfDay::from_hm(6, 45);
    assert_eq!(ts.get_abs_time_diff(now, target), 45 * 60);
    assert_eq!(ts.get_abs_time_diff(target, now), -(45 * 60));
    assert_eq!(ts.get_abs_time_diff(now, now), 0);
}

#[test]
fn split_hms_breaks_down_a_total() {
    assert_eq!(split_hms(3725), (1, 2, 5));
    assert_eq!(split_hms(-3725), (-1, -2, -5));
    assert_eq!(split_hms(600), (0, 10, 0));
    assert_eq!(split_hms(0), (0, 0, 0));
    assert_eq!(split_hms(59), (0, 0, 59));
}

#[test]
fn alert_fires_only_on_the_exact_triple() {
    // 0 hours, 10 minutes, 0 seconds.
    assert!(should_alert(600));
    // (0, 9, 59), (0, 10, 1) and (1, 10, 0) all stay silent.
    assert!(!should_alert(599));
    assert!(!should_alert(601));
    assert!(!should_alert(4200));
    assert!(!should_alert(0));
    assert!(!should_alert(-600));
}

#[test]
fn labels_name_the_milestones() {
    let ts = standard_set();
    assert_eq!(ts.wake_up_time.label(), "Wake up time");
    assert_eq!(ts.dinner_time.label(), "Optimal evening dinner time");
    assert_eq!(ts.bed_time.label(), "Bedtime");
}

#[test]
fn countdown_step_one_second_before_wake_up() {
    let ts = standard_set();
    let st = ts.countdown_step(TimeOfDay::from_hms(6, 44, 59));
    assert_eq!(st.upcoming, ts.wake_up_time);
    assert_eq!(st.diff, 1);
    assert!(!st.alert);
}

#[test]
fn countdown_step_at_the_alert_window() {
    let ts = standard_set();
    // Ten minutes before the 06:45 wake-up time.
    let st = ts.countdown_step(TimeOfDay::from_hms(6, 35, 0));
    assert_eq!(st.upcoming, ts.wake_up_time);
    assert_eq!(st.diff, 600);
    assert!(st.alert);
    // One polling step on either side of the window stays silent.
    assert!(!ts.countdown_step(TimeOfDay::from_hms(6, 34, 59)).alert);
    assert!(!ts.countdown_step(TimeOfDay::from_hms(6, 35, 1)).alert);
}

#[test]
fn countdown_step_after_a_passed_event_reports_dinner() {
    let ts = standard_set();
    let st = ts.countdown_step(TimeOfDay::from_hms(6, 50, 0));
    assert_eq!(st.upcoming, ts.dinner_time);
    assert_eq!(st.diff, (18 * 3600 + 30 * 60) - (6 * 3600 + 50 * 60));
    assert!(!st.alert);
}

#[test]
fn clock_reading_is_on_the_24_hour_clock() {
    assert!(local_time_now().seconds() < SECONDS_PER_DAY);
}

#[test]
fn loop_pacing_constants() {
    assert_eq!(POLL_INTERVAL_SECONDS, 1);
    assert_eq!(ALERT_PAUSE_SECONDS, 10);
}
