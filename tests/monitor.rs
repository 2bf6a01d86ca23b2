use upload_stick::command::Error;
use upload_stick::monitor::{parse_lvs_minor, stat_find_writes, WriteWindow};
use upload_stick::orchestrator::{ACTIVE_SECONDS, IDLE_SECONDS};

#[test]
fn test_stat_find_writes() {
    let writes = stat_find_writes("     158        0    20232      800     2567        0    20536  1279180        0     1650  1279980");
    assert_eq!(writes, Ok(20536));
}

#[test]
fn stat_writes_is_the_seventh_field() {
    assert_eq!(stat_find_writes("158 0 20232 800 2567 0 20536 1279180 0 1650 1279980"), Ok(20536));
    assert_eq!(stat_find_writes("\t1 2 3 4 5 6 +7\n"), Ok(7));
}

#[test]
fn stat_writes_too_few_fields() {
    let line = "158 0 20232 800 2567 0";
    assert_eq!(stat_find_writes(line), Err(Error::StatWritesNotFound(line.to_string())));
}

#[test]
fn stat_writes_not_a_number() {
    assert_eq!(
        stat_find_writes("1 2 3 4 5 6 x7 8"),
        Err(Error::StatWritesParse("x7".to_string()))
    );
    assert_eq!(
        stat_find_writes("1 2 3 4 5 6 18446744073709551616"),
        Err(Error::StatWritesParse("18446744073709551616".to_string()))
    );
    assert_eq!(stat_find_writes("1 2 3 4 5 6 18446744073709551615"), Ok(u64::MAX));
}

#[test]
fn lvs_minor_is_trimmed_and_read() {
    assert_eq!(parse_lvs_minor("  4\n"), Ok(4));
    assert_eq!(parse_lvs_minor("  -1\n"), Err(Error::LvsMinorParse("-1".to_string())));
    assert_eq!(parse_lvs_minor(""), Err(Error::LvsMinorParse(String::new())));
}

#[test]
fn idle_after_seven_equal_samples() {
    let mut w = WriteWindow::idle(IDLE_SECONDS);
    let samples = [10u64, 10, 10, 10, 10, 10, 10];
    for (i, s) in samples.iter().enumerate() {
        let done = w.observe(*s);
        assert_eq!(done, i == 6);
    }
}

#[test]
fn not_idle_with_a_change_in_the_window() {
    let mut w = WriteWindow::idle(IDLE_SECONDS);
    for s in [10u64, 10, 12, 10, 10, 10, 10] {
        assert!(!w.observe(s));
    }
    // the change at the third sample leaves the window two samples later
    assert!(!w.observe(10));
    assert!(!w.observe(10));
    assert!(w.observe(10));
}

#[test]
fn idle_on_a_growing_counter_waits_for_silence() {
    let mut w = WriteWindow::idle(IDLE_SECONDS);
    for s in [1u64, 2, 3, 4, 5, 6, 7, 7, 7, 7, 7, 7] {
        assert!(!w.observe(s));
    }
    assert!(w.observe(7));
}

#[test]
fn active_on_any_change() {
    let mut w = WriteWindow::active(ACTIVE_SECONDS);
    assert!(!w.observe(10));
    assert!(!w.observe(10));
    assert!(!w.observe(10));
    assert!(w.observe(11));
}
