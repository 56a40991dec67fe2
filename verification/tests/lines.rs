use lokker::render::{format_line, format_time, pad2};
use lokker::{ClockBeforeEpochFault, Logger, Severity, TimeTriplet};

fn at(hour: u8, minute: u8, second: u8) -> TimeTriplet {
    TimeTriplet::new(hour, minute, second).unwrap()
}

#[test]
fn single_digits_get_a_leading_zero() {
    assert_eq!(pad2(0), "00");
    assert_eq!(pad2(5), "05");
    assert_eq!(pad2(9), "09");
}

#[test]
fn two_digits_get_nothing_added() {
    assert_eq!(pad2(10), "10");
    assert_eq!(pad2(23), "23");
    assert_eq!(pad2(59), "59");
    assert_eq!(pad2(99), "99");
}

#[test]
fn three_digits_are_kept() {
    assert_eq!(pad2(100), "100");
    assert_eq!(pad2(207), "207");
    assert_eq!(pad2(255), "255");
}

#[test]
fn padding_is_the_width_two_format() {
    let mut v: u8 = 0;
    loop {
        assert_eq!(pad2(v), format!("{:02}", v));
        if v == u8::MAX {
            break;
        }
        v += 1;
    }
}

#[test]
fn time_is_three_fields_with_colons() {
    assert_eq!(format_time(at(5, 7, 9)), "05:07:09");
    assert_eq!(format_time(at(0, 0, 0)), "00:00:00");
    assert_eq!(format_time(at(23, 59, 59)), "23:59:59");
    assert_eq!(format_time(at(10, 20, 30)), "10:20:30");
}

#[test]
fn time_across_the_day_boundary() {
    assert_eq!(format_time(TimeTriplet::from_seconds(86399)), "23:59:59");
    assert_eq!(format_time(TimeTriplet::from_seconds(86400)), "00:00:00");
}

#[test]
fn line_names_each_level() {
    let t = at(12, 34, 56);
    assert_eq!(format_line(t, Severity::Error, "m"), "12:34:56 [ERROR] m\n");
    assert_eq!(format_line(t, Severity::Warn, "m"), "12:34:56 [WARN] m\n");
    assert_eq!(format_line(t, Severity::Info, "m"), "12:34:56 [INFO] m\n");
    assert_eq!(format_line(t, Severity::Debug, "m"), "12:34:56 [DEBUG] m\n");
    assert_eq!(format_line(t, Severity::Trace, "m"), "12:34:56 [TRACE] m\n");
}

#[test]
fn line_keeps_the_message_as_it_is() {
    let t = at(1, 2, 3);
    assert_eq!(format_line(t, Severity::Info, ""), "01:02:03 [INFO] \n");
    assert_eq!(
        format_line(t, Severity::Info, "a [b] \"c\"\td\n e"),
        "01:02:03 [INFO] a [b] \"c\"\td\n e\n"
    );
    assert_eq!(
        format_line(t, Severity::Warn, "gr\u{fc}\u{df}e \u{2603}"),
        "01:02:03 [WARN] gr\u{fc}\u{df}e \u{2603}\n"
    );
}

#[test]
fn line_is_the_same_on_every_call() {
    let logger = Logger::new(Severity::Trace);
    let t = at(8, 0, 1);
    let first = logger.render(t, Severity::Debug, "started");
    let second = logger.render(t, Severity::Debug, "started");
    assert_eq!(first, "08:00:01 [DEBUG] started\n");
    assert_eq!(first, second);
    assert_eq!(first.as_bytes(), second.as_bytes());
}

#[test]
fn line_is_time_level_and_message_joined() {
    let logger = Logger::new(Severity::Info);
    let t = at(19, 5, 30);
    let expected = format_time(t) + " [" + "ERROR" + "] " + "disk full" + "\n";
    assert_eq!(logger.render(t, Severity::Error, "disk full"), expected);
}

#[test]
fn threshold_plays_no_part_in_rendering() {
    let strict = Logger::new(Severity::Error);
    assert_eq!(strict.level(), Severity::Error);
    assert_eq!(
        strict.render(at(0, 0, 1), Severity::Trace, "x"),
        "00:00:01 [TRACE] x\n"
    );
}

#[test]
fn faulty_clock_gives_no_line() {
    let logger = Logger::new(Severity::Trace);
    assert_eq!(
        logger.render_at(Err(ClockBeforeEpochFault), Severity::Info, "x"),
        None
    );
    assert_eq!(
        logger.render_at(Ok(at(4, 5, 6)), Severity::Info, "x"),
        Some(String::from("04:05:06 [INFO] x\n"))
    );
}

#[test]
fn severities_are_ordered() {
    assert!(Severity::Trace < Severity::Debug);
    assert!(Severity::Debug < Severity::Info);
    assert!(Severity::Info < Severity::Warn);
    assert!(Severity::Warn < Severity::Error);
}
