use logger::{init, init_console, init_err_console, replace_logger, BindError, Binding, Inner, Level, Logger, MemBuf};
use logger::render::{now_hms, render_record, thread_label};

const EXPECTED_READY_LINE: &str = "12:34:56\x1B[97m main [INF]\x1B[0m ready\n";

fn buffer_destination() -> Inner {
    Inner::Buffer(MemBuf::new())
}

fn into_buffer_text(inner: Inner) -> String {
    match inner {
        Inner::Buffer(buffer) => buffer.contents(),
        Inner::Stdout => panic!("expected a buffer, found the console"),
        Inner::Stderr => panic!("expected a buffer, found the error console"),
    }
}

#[test]
fn level_tags_are_fixed() {
    assert_eq!(Level::Trace.tag(), "TRC");
    assert_eq!(Level::Debug.tag(), "DBG");
    assert_eq!(Level::Info.tag(), "INF");
    assert_eq!(Level::Warn.tag(), "WRN");
    assert_eq!(Level::Error.tag(), "ERR");
}

#[test]
fn level_tags_do_not_cross_map() {
    let tags = [
        Level::Trace.tag(),
        Level::Debug.tag(),
        Level::Info.tag(),
        Level::Warn.tag(),
        Level::Error.tag(),
    ];
    for (i, a) in tags.iter().enumerate() {
        for (j, b) in tags.iter().enumerate() {
            if i != j {
                assert_ne!(a, b);
            }
        }
    }
}

#[test]
fn level_colors_are_fixed() {
    assert_eq!(Level::Trace.color(), "\x1B[97m");
    assert_eq!(Level::Debug.color(), "\x1B[36m");
    assert_eq!(Level::Info.color(), "\x1B[97m");
    assert_eq!(Level::Warn.color(), "\x1B[33m");
    assert_eq!(Level::Error.color(), "\x1B[31m");
}

#[test]
fn named_thread_keeps_its_whole_name() {
    assert_eq!(thread_label(Some("worker")).as_str(), "worker");
    assert_eq!(thread_label(Some("main")).as_str(), "main");
}

#[test]
fn unnamed_thread_gets_the_fixed_fallback() {
    assert_eq!(thread_label(None).as_str(), "unknown");
}

#[test]
fn rendered_line_matches_the_format_exactly() {
    let line = render_record(Level::Info, Some("main"), 12, 34, 56, "ready");
    assert_eq!(line.as_str(), EXPECTED_READY_LINE);
}

#[test]
fn clock_fields_are_zero_padded() {
    let line = render_record(Level::Error, None, 0, 0, 7, "boom");
    assert_eq!(line.as_str(), "00:00:07\x1B[31m unknown [ERR]\x1B[0m boom\n");
}

#[test]
fn clock_fields_take_their_largest_values() {
    let line = render_record(Level::Warn, Some("w"), 23, 59, 59, "late");
    assert_eq!(line.as_str(), "23:59:59\x1B[33m w [WRN]\x1B[0m late\n");
}

#[test]
fn every_level_renders_its_own_tag() {
    let cases = [
        (Level::Trace, "TRC"),
        (Level::Debug, "DBG"),
        (Level::Info, "INF"),
        (Level::Warn, "WRN"),
        (Level::Error, "ERR"),
    ];
    for (level, tag) in cases {
        let line = render_record(level, Some("t"), 1, 2, 3, "m");
        assert!(line.contains(&format!("[{}]", tag)));
    }
}

#[test]
fn buffer_write_appends_whole_lines_in_order() {
    let mut dest = buffer_destination();
    assert!(logger::sink::write_to(&mut dest, "first\n"));
    assert!(logger::sink::write_to(&mut dest, "second\n"));
    assert_eq!(into_buffer_text(dest), "first\nsecond\n");
}

#[test]
fn console_destinations_are_left_unchanged_by_writes() {
    let mut dest = Inner::Stdout;
    logger::sink::write_to(&mut dest, "");
    assert!(matches!(dest, Inner::Stdout));
    let mut dest = Inner::Stderr;
    logger::sink::write_to(&mut dest, "");
    assert!(matches!(dest, Inner::Stderr));
}

#[test]
fn flush_changes_no_destination() {
    let mut dest = buffer_destination();
    logger::sink::write_to(&mut dest, "kept\n");
    assert!(logger::sink::flush_dest(&mut dest));
    assert_eq!(into_buffer_text(dest), "kept\n");
}

#[test]
fn default_destination_is_the_console() {
    assert!(matches!(Inner::default(), Inner::Stdout));
}

#[test]
fn holder_swap_hands_the_previous_destination_back() {
    let holder = Logger::new();
    let prev = holder.swap(buffer_destination());
    assert!(matches!(prev, Inner::Stdout));
    let prev = holder.swap(Inner::Stderr);
    assert_eq!(into_buffer_text(prev), "");
}

#[test]
fn logged_record_reaches_the_active_buffer_intact() {
    let holder = Logger::new();
    holder.set_inner(buffer_destination());
    assert!(holder.log_at(Level::Info, Some("main"), 12, 34, 56, "ready"));
    let prev = holder.swap(Inner::Stdout);
    assert_eq!(into_buffer_text(prev), EXPECTED_READY_LINE);
}

#[test]
fn writer_completes_against_the_destination_it_observed() {
    let holder = Logger::new();
    holder.set_inner(buffer_destination());
    assert!(holder.log_at(Level::Debug, Some("a"), 1, 2, 3, "before"));
    let pre_swap = holder.swap(buffer_destination());
    assert!(holder.log_at(Level::Debug, Some("a"), 1, 2, 3, "after"));
    let post_swap = holder.swap(Inner::Stdout);
    let before = into_buffer_text(pre_swap);
    let after = into_buffer_text(post_swap);
    assert!(before.contains("before") && !before.contains("after"));
    assert!(after.contains("after") && !after.contains("before"));
}

#[test]
fn holder_accepts_every_record() {
    let holder = Logger::new();
    assert!(holder.enabled());
}

#[test]
fn clock_reading_stays_within_a_day() {
    let (h, m, s) = now_hms();
    assert!(h < 24);
    assert!(m < 60);
    assert!(s < 60);
}

#[test]
fn first_initialization_wins_and_registers() {
    let mut binding = Binding::new();
    assert!(!binding.is_registered());
    assert!(init_console(&mut binding).is_ok());
    assert!(binding.is_registered());
}

#[test]
fn second_initialization_is_refused() {
    let mut binding = Binding::new();
    assert!(init(&mut binding, buffer_destination()).is_ok());
    assert_eq!(init(&mut binding, buffer_destination()), Err(BindError::AlreadyRegistered));
    assert_eq!(init_console(&mut binding), Err(BindError::AlreadyRegistered));
    assert_eq!(init_err_console(&mut binding), Err(BindError::AlreadyRegistered));
    assert!(binding.is_registered());
}

#[test]
fn error_console_initialization_registers_too() {
    let mut binding = Binding::new();
    assert!(init_err_console(&mut binding).is_ok());
    assert_eq!(init_err_console(&mut binding), Err(BindError::AlreadyRegistered));
}

#[test]
fn replacement_after_init_shows_in_subsequent_output() {
    let mut binding = Binding::new();
    assert!(init(&mut binding, buffer_destination()).is_ok());
    assert!(binding.logger().log_at(Level::Info, Some("main"), 7, 8, 9, "one"));
    replace_logger(&binding, buffer_destination());
    assert!(binding.logger().log_at(Level::Info, Some("main"), 7, 8, 9, "two"));
    let latest = binding.logger().swap(Inner::Stdout);
    let text = into_buffer_text(latest);
    assert!(text.contains("two") && !text.contains("one"));
}

#[test]
fn end_to_end_scenario_produces_one_well_formed_line() {
    let mut binding = Binding::new();
    assert!(init(&mut binding, buffer_destination()).is_ok());
    assert!(binding.logger().log(Level::Info, Some("main"), "ready"));
    let dest = binding.logger().swap(Inner::Stdout);
    let text = into_buffer_text(dest);
    assert_eq!(text.matches('\n').count(), 1);
    assert!(text.ends_with("\x1B[0m ready\n"));
    let clock = &text[..8];
    let bytes = clock.as_bytes();
    assert_eq!(bytes[2], b':');
    assert_eq!(bytes[5], b':');
    let hh: u32 = clock[..2].parse().unwrap();
    let mm: u32 = clock[3..5].parse().unwrap();
    let ss: u32 = clock[6..8].parse().unwrap();
    assert!(hh < 24 && mm < 60 && ss < 60);
    assert!(text[8..].starts_with("\x1B[97m main [INF]"));
}
