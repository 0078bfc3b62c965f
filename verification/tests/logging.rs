use pop_logging::{
    format_level, format_record, lookup_policy, paint, render_location, should_emit,
    u32_decimal, Color, Filter, Severity,
};

fn all_severities() -> Vec<Severity> {
    vec![
        Severity::Trace,
        Severity::Debug,
        Severity::Info,
        Severity::Warn,
        Severity::Error,
    ]
}

#[test]
fn strip_src() {
    assert_eq!(
        pop_logging::strip_src(
            "/home/user/Sources/pop/upgrade/target/cargo/git/checkouts/\
             async-fetcher-3eeb08c00d25dece/2cf133c/src/concatenator.rs"
        ),
        "concatenator.rs"
    )
}

#[test]
fn strip_src_without_marker_is_empty() {
    assert_eq!(pop_logging::strip_src("/home/user/library.rs"), "");
    assert_eq!(pop_logging::strip_src(""), "");
    assert_eq!(pop_logging::strip_src("sr"), "");
    assert_eq!(pop_logging::strip_src("srcsrc"), "");
}

#[test]
fn strip_src_keeps_suffix_after_last_marker() {
    assert_eq!(pop_logging::strip_src("a/src/b/src/c.rs"), "c.rs");
    assert_eq!(pop_logging::strip_src("src/main.rs"), "main.rs");
    assert_eq!(pop_logging::strip_src("src/"), "");
}

#[test]
fn unknown_components_are_suppressed() {
    for sev in all_severities() {
        assert!(!should_emit(Filter::Trace, "tokio", sev));
        assert!(!should_emit(Filter::Trace, "serde::de", sev));
        assert!(!should_emit(Filter::Trace, "", sev));
        assert!(!should_emit(Filter::Trace, "pop_upgrade_gtkx", sev));
    }
    assert_eq!(lookup_policy(Filter::Trace, "hyper"), None);
}

#[test]
fn threshold_gates_by_severity() {
    assert!(!should_emit(Filter::Info, "pop_upgrade", Severity::Trace));
    assert!(!should_emit(Filter::Info, "pop_upgrade", Severity::Debug));
    assert!(should_emit(Filter::Info, "pop_upgrade", Severity::Info));
    assert!(should_emit(Filter::Info, "pop_upgrade", Severity::Warn));
    assert!(should_emit(Filter::Info, "pop_upgrade", Severity::Error));
    assert!(!should_emit(Filter::Error, "apt_cmd", Severity::Warn));
    assert!(should_emit(Filter::Error, "apt_cmd", Severity::Error));
    for sev in all_severities() {
        assert!(!should_emit(Filter::Off, "pop_upgrade", sev));
        assert!(!should_emit(Filter::Off, "async_fetcher", sev));
    }
}

#[test]
fn always_on_component_emits_everything() {
    for sev in all_severities() {
        assert!(should_emit(Filter::Off, "pop_upgrade_gtk", sev));
        assert!(should_emit(Filter::Error, "pop_upgrade_gtk", sev));
    }
}

#[test]
fn target_is_trimmed_to_its_first_segment() {
    assert!(should_emit(Filter::Info, "pop_upgrade::daemon::fetch", Severity::Info));
    assert!(!should_emit(Filter::Info, "pop_upgrade::daemon::fetch", Severity::Debug));
    assert!(should_emit(Filter::Off, "pop_upgrade_gtk::widgets", Severity::Trace));
    assert!(!should_emit(Filter::Trace, "tokio::runtime", Severity::Error));
    assert_eq!(lookup_policy(Filter::Warn, "apt_fetcher"), Some(Filter::Warn));
}

#[test]
fn severity_from_facade_codes() {
    assert_eq!(Severity::from_code(1), Severity::Error);
    assert_eq!(Severity::from_code(2), Severity::Warn);
    assert_eq!(Severity::from_code(3), Severity::Info);
    assert_eq!(Severity::from_code(4), Severity::Debug);
    assert_eq!(Severity::from_code(5), Severity::Trace);
    assert_eq!(Severity::from_code(0), Severity::Trace);
    assert_eq!(Severity::from_code(99), Severity::Trace);
}

#[test]
fn level_tags_are_five_wide() {
    assert_eq!(format_level(Severity::Trace, false), "TRACE");
    assert_eq!(format_level(Severity::Debug, false), "DEBUG");
    assert_eq!(format_level(Severity::Info, false), "INFO ");
    assert_eq!(format_level(Severity::Warn, false), "WARN ");
    assert_eq!(format_level(Severity::Error, false), "ERROR");
}

#[test]
fn level_tags_carry_their_colour() {
    assert_eq!(format_level(Severity::Trace, true), "\u{1b}[1;32mTRACE\u{1b}[0m");
    assert_eq!(format_level(Severity::Debug, true), "\u{1b}[1mDEBUG\u{1b}[0m");
    assert_eq!(format_level(Severity::Info, true), "\u{1b}[1mINFO \u{1b}[0m");
    assert_eq!(format_level(Severity::Warn, true), "\u{1b}[1;33mWARN \u{1b}[0m");
    assert_eq!(format_level(Severity::Error, true), "\u{1b}[1;31mERROR\u{1b}[0m");
}

#[test]
fn paint_wraps_only_when_colour_is_on() {
    assert_eq!(paint(false, Color::Red, "x"), "x");
    assert_eq!(paint(true, Color::Green, "x"), "\u{1b}[1;32mx\u{1b}[0m");
    assert_eq!(paint(true, Color::Plain, ":"), "\u{1b}[1m:\u{1b}[0m");
    assert_eq!(paint(true, Color::Cyan, ""), "\u{1b}[1;36m\u{1b}[0m");
}

#[test]
fn decimal_rendering() {
    assert_eq!(u32_decimal(0), "0");
    assert_eq!(u32_decimal(7), "7");
    assert_eq!(u32_decimal(10), "10");
    assert_eq!(u32_decimal(305), "305");
    assert_eq!(u32_decimal(u32::MAX), "4294967295");
}

#[test]
fn missing_file_or_line_renders_no_location() {
    assert_eq!(render_location("pop_upgrade", None, Some(3), false), "");
    assert_eq!(render_location("pop_upgrade", Some("/x/src/a.rs"), None, true), "");
    assert_eq!(render_location("pop_upgrade", None, None, false), "");
}

#[test]
fn missing_location_keeps_the_separator() {
    assert_eq!(
        format_record("x", Severity::Info, None, Some(3), "hi", false),
        "[INFO ] : hi"
    );
    assert_eq!(
        format_record("x", Severity::Warn, Some("/x/src/a.rs"), None, "hi", false),
        "[WARN ] : hi"
    );
}

#[test]
fn full_line_plain() {
    assert_eq!(
        format_record(
            "pop_upgrade",
            Severity::Error,
            Some("/x/src/main.rs"),
            Some(10),
            "failed",
            false
        ),
        "[ERROR] main.rs:10: failed"
    );
    assert_eq!(
        format_record(
            "pop_upgrade::daemon",
            Severity::Debug,
            Some("/home/u/lib.rs"),
            Some(1),
            "no marker here",
            false
        ),
        "[DEBUG] : no marker here"
    );
}

#[test]
fn full_line_coloured() {
    assert_eq!(
        format_record(
            "pop_upgrade",
            Severity::Error,
            Some("/x/src/main.rs"),
            Some(10),
            "failed",
            true
        ),
        "[\u{1b}[1;31mERROR\u{1b}[0m] main.rs\u{1b}[0m\u{1b}[1m:\u{1b}[0m\u{1b}[1;35m10\u{1b}[0m: failed"
    );
}

#[test]
fn formatting_twice_is_byte_identical() {
    let first = format_record(
        "pop_upgrade",
        Severity::Warn,
        Some("/x/src/recovery.rs"),
        Some(42),
        "low space",
        true,
    );
    let second = format_record(
        "pop_upgrade",
        Severity::Warn,
        Some("/x/src/recovery.rs"),
        Some(42),
        "low space",
        true,
    );
    assert_eq!(first, second);
    assert_eq!(first.as_bytes(), second.as_bytes());
}
