use image_gen::format::{format_duration, format_tempo};

#[test]
fn durations() {
    assert_eq!(format_duration(0), "0:00");
    assert_eq!(format_duration(5), "0:05");
    assert_eq!(format_duration(59), "0:59");
    assert_eq!(format_duration(60), "1:00");
    assert_eq!(format_duration(65), "1:05");
    assert_eq!(format_duration(600), "10:00");
    assert_eq!(format_duration(3599), "59:59");
    assert_eq!(format_duration(3600), "60:00");
    assert_eq!(format_duration(2147483647), "35791394:07");
}

#[test]
fn negative_durations_keep_their_signs() {
    assert_eq!(format_duration(-5), "0:-5");
    assert_eq!(format_duration(-15), "0:-15");
    assert_eq!(format_duration(-60), "-1:00");
    assert_eq!(format_duration(-65), "-1:-5");
    assert_eq!(format_duration(-2147483648), "-35791394:-8");
}

#[test]
fn durations_agree_with_the_standard_formatter() {
    for s in [-1000, -61, -1, 0, 1, 9, 10, 61, 119, 120, 754, 100000] {
        assert_eq!(format_duration(s), format!("{}:{:02}", s / 60, s % 60));
    }
}

#[test]
fn tempos_are_rounded_to_whole_beats() {
    assert_eq!(format_tempo(128_000), "128");
    assert_eq!(format_tempo(128_499), "128");
    assert_eq!(format_tempo(128_501), "129");
    assert_eq!(format_tempo(0), "0");
    assert_eq!(format_tempo(499), "0");
    assert_eq!(format_tempo(999), "1");
}

#[test]
fn tempo_ties_go_to_the_even_neighbour() {
    assert_eq!(format_tempo(174_500), "174");
    assert_eq!(format_tempo(175_500), "176");
    assert_eq!(format_tempo(500), "0");
    assert_eq!(format_tempo(1_500), "2");
    assert_eq!(format_tempo(174_500), format!("{:.0}", 174.5f32));
    assert_eq!(format_tempo(175_500), format!("{:.0}", 175.5f32));
}

#[test]
fn negative_tempos_keep_their_sign() {
    assert_eq!(format_tempo(-90_000), "-90");
    assert_eq!(format_tempo(-400), "-0");
    assert_eq!(format_tempo(-400), format!("{:.0}", -0.4f32));
    assert_eq!(format_tempo(i64::MIN), "-9223372036854776");
    assert_eq!(format_tempo(i64::MAX), "9223372036854776");
}
