use log_style::{
    settle, Color, FormatError, Formatter, Level, Sink, SinkWriter, Style, StyleSpec, TermColor,
    WriteStyle,
};

const RESET: &[u8] = b"\x1b[0m";

fn plain_sink() -> Sink {
    SinkWriter::stderr(WriteStyle::Never).buffer()
}

fn ansi_sink() -> Sink {
    SinkWriter::stderr(WriteStyle::Always).buffer()
}

fn count(haystack: &[u8], needle: &[u8]) -> usize {
    haystack.windows(needle.len()).filter(|w| *w == needle).count()
}

#[test]
fn a_new_style_asks_for_nothing() {
    let style = Style::new();
    assert_eq!(style.spec(), StyleSpec { fg: None, bg: None, bold: false, intense: false });
}

#[test]
fn chained_setters_each_set_their_field() {
    let mut style = Style::new();
    style.set_color(Color::Red).set_bold(true).set_intense(true);
    assert_eq!(
        style.spec(),
        StyleSpec { fg: Some(TermColor::Red), bg: None, bold: true, intense: true }
    );
}

#[test]
fn setters_of_different_fields_commute() {
    let mut a = Style::new();
    a.set_color(Color::Red).set_bold(true).set_intense(true);
    let mut b = Style::new();
    b.set_intense(true).set_color(Color::Red).set_bold(true);
    let mut c = Style::new();
    c.set_bold(true).set_intense(true).set_color(Color::Red);
    assert_eq!(a.spec(), b.spec());
    assert_eq!(a.spec(), c.spec());
}

#[test]
fn a_setter_called_twice_overwrites() {
    let mut style = Style::new();
    style.set_color(Color::Red).set_color(Color::Blue);
    style.set_bold(true).set_bold(false);
    style.set_bg(Color::Yellow).set_bg(Color::Rgb(1, 2, 3));
    style.set_intense(false).set_intense(true);
    assert_eq!(
        style.spec(),
        StyleSpec {
            fg: Some(TermColor::Blue),
            bg: Some(TermColor::Rgb(1, 2, 3)),
            bold: false,
            intense: true,
        }
    );
}

#[test]
fn the_reserved_color_clears_the_setting() {
    let mut style = Style::new();
    style.set_color(Color::Red).set_bg(Color::Blue);
    style.set_color(Color::__Nonexhaustive).set_bg(Color::__Nonexhaustive);
    assert_eq!(style.spec().fg, None);
    assert_eq!(style.spec().bg, None);
}

#[test]
fn a_clone_has_the_same_settings() {
    let mut style = Style::new();
    style.set_bg(Color::Cyan).set_bold(true);
    let copy = style.clone();
    assert_eq!(copy.spec(), style.spec());
}

#[test]
fn a_value_keeps_its_style_and_content() {
    let mut style = Style::new();
    style.set_color(Color::Green);
    let borrowed = style.value(17u32);
    assert_eq!(borrowed.spec(), style.spec());
    assert_eq!(*borrowed.get_ref(), 17);
    let spec = style.spec();
    let owned = style.into_value("text");
    assert_eq!(owned.spec(), spec);
    assert_eq!(*owned.get_ref(), "text");
}

#[test]
fn the_result_is_the_write_failure_before_the_reset_failure() {
    let reset_failed = || Err(std::io::Error::new(std::io::ErrorKind::Other, "reset"));
    assert_eq!(settle(Ok(()), Ok(())), Ok(()));
    assert_eq!(settle(Err(FormatError), Ok(())), Err(FormatError));
    assert_eq!(settle(Ok(()), reset_failed()), Err(FormatError));
    assert_eq!(settle(Err(FormatError), reset_failed()), Err(FormatError));
}

#[test]
fn a_plain_sink_takes_the_text_and_nothing_else() {
    let mut sink = plain_sink();
    let mut style = Style::new();
    style.set_color(Color::Red).set_bold(true).set_bg(Color::Rgb(1, 2, 3)).set_intense(true);
    assert_eq!(style.value(0).write_fmt(&mut sink, "hello", true), Ok(()));
    assert_eq!(sink.as_bytes(), b"hello");
    assert_eq!(style.value(0).write_fmt(&mut sink, " world", true), Ok(()));
    assert_eq!(sink.as_bytes(), b"hello world");
    assert!(!sink.as_bytes().contains(&0x1b));
}

#[test]
fn an_ansi_sink_takes_the_style_the_text_and_the_reset() {
    let mut sink = ansi_sink();
    let mut style = Style::new();
    style.set_color(Color::Red).set_bold(true);
    assert_eq!(style.value(()).write_fmt(&mut sink, "ERROR", true), Ok(()));
    assert_eq!(sink.as_bytes(), b"\x1b[0m\x1b[1m\x1b[31mERROR\x1b[0m");
}

#[test]
fn ansi_codes_follow_the_settings() {
    let cases: Vec<(Color, bool, &[u8])> = vec![
        (Color::Black, false, b"\x1b[0m\x1b[30m"),
        (Color::Blue, false, b"\x1b[0m\x1b[34m"),
        (Color::Green, false, b"\x1b[0m\x1b[32m"),
        (Color::Red, false, b"\x1b[0m\x1b[31m"),
        (Color::Cyan, false, b"\x1b[0m\x1b[36m"),
        (Color::Magenta, false, b"\x1b[0m\x1b[35m"),
        (Color::Yellow, false, b"\x1b[0m\x1b[33m"),
        (Color::White, false, b"\x1b[0m\x1b[37m"),
        (Color::Red, true, b"\x1b[0m\x1b[38;5;9m"),
        (Color::White, true, b"\x1b[0m\x1b[38;5;15m"),
        (Color::Ansi256(200), false, b"\x1b[0m\x1b[38;5;200m"),
        (Color::Rgb(1, 20, 255), false, b"\x1b[0m\x1b[38;2;1;20;255m"),
    ];
    for (color, intense, code) in cases {
        let mut sink = ansi_sink();
        let mut style = Style::new();
        style.set_color(color).set_intense(intense);
        assert_eq!(sink.set_color(&style).ok(), Some(()));
        assert_eq!(sink.as_bytes(), code);
    }
    let mut sink = ansi_sink();
    let mut style = Style::new();
    style.set_bg(Color::Rgb(1, 2, 3));
    assert_eq!(sink.set_color(&style).ok(), Some(()));
    assert_eq!(sink.as_bytes(), b"\x1b[0m\x1b[48;2;1;2;3m");
}

#[test]
fn a_failed_value_is_reported_and_the_sink_is_still_reset_once() {
    let mut sink = ansi_sink();
    let mut style = Style::new();
    style.set_color(Color::Green);
    let value = style.value(());
    assert_eq!(value.write_fmt(&mut sink, "", false), Err(FormatError));
    assert_eq!(sink.as_bytes(), b"\x1b[0m\x1b[32m\x1b[0m");
    assert!(sink.as_bytes().ends_with(RESET));
    // one reset from setting the style, one from the reset after the value
    assert_eq!(count(sink.as_bytes(), RESET), 2);
}

#[test]
fn a_value_that_failed_part_of_the_way_keeps_its_text() {
    let mut sink = ansi_sink();
    let style = Style::new();
    assert_eq!(style.value(()).write_fmt(&mut sink, "par", false), Err(FormatError));
    assert_eq!(sink.as_bytes(), b"\x1b[0mpar\x1b[0m");

    let mut plain = plain_sink();
    assert_eq!(style.value(()).write_fmt(&mut plain, "par", false), Err(FormatError));
    assert_eq!(plain.as_bytes(), b"par");
}

#[test]
fn apply_and_finish_bracket_a_write_made_elsewhere() {
    let mut sink = ansi_sink();
    let mut style = Style::new();
    style.set_bold(true);
    let value = style.value(3);
    assert_eq!(value.apply(&mut sink), Ok(()));
    assert_eq!(sink.as_bytes(), b"\x1b[0m\x1b[1m");
    assert_eq!(value.finish(&mut sink, Ok(())), Ok(()));
    assert_eq!(sink.as_bytes(), b"\x1b[0m\x1b[1m\x1b[0m");
    assert_eq!(value.finish(&mut sink, Err(FormatError)), Err(FormatError));
    assert_eq!(sink.as_bytes(), b"\x1b[0m\x1b[1m\x1b[0m\x1b[0m");
}

#[test]
fn reset_twice_is_as_reset_once() {
    let mut plain = plain_sink();
    plain.write_all(b"abc").unwrap();
    assert!(plain.reset().is_ok());
    assert_eq!(plain.as_bytes(), b"abc");
    assert!(plain.reset().is_ok());
    assert_eq!(plain.as_bytes(), b"abc");

    let mut ansi = ansi_sink();
    assert!(ansi.reset().is_ok());
    assert_eq!(ansi.as_bytes(), RESET);
    assert!(ansi.reset().is_ok());
    assert_eq!(ansi.as_bytes(), b"\x1b[0m\x1b[0m");
}

#[test]
fn level_styles_are_fixed() {
    let formatter = Formatter::new(&SinkWriter::stderr(WriteStyle::Never));
    let plain = StyleSpec { fg: None, bg: None, bold: false, intense: false };
    let cases = vec![
        (Level::Trace, StyleSpec { fg: Some(TermColor::White), ..plain }),
        (Level::Debug, StyleSpec { fg: Some(TermColor::Blue), ..plain }),
        (Level::Info, StyleSpec { fg: Some(TermColor::Green), ..plain }),
        (Level::Warn, StyleSpec { fg: Some(TermColor::Yellow), ..plain }),
        (Level::Error, StyleSpec { fg: Some(TermColor::Red), bold: true, ..plain }),
    ];
    for (level, spec) in cases {
        assert_eq!(formatter.default_level_style(level).spec(), spec);
        assert_eq!(formatter.default_level_style(level).spec(), spec);
        let styled = formatter.default_styled_level(level);
        assert_eq!(styled.spec(), spec);
        assert_eq!(*styled.get_ref(), level);
    }
    assert_eq!(formatter.style().spec(), plain);
}

#[test]
fn a_formatter_under_never_publishes_text_only() {
    let writer = SinkWriter::stdout(WriteStyle::Never);
    let mut formatter = Formatter::new(&writer);
    assert_eq!(formatter.write_style(), WriteStyle::Never);
    let level = formatter.default_styled_level(Level::Error);
    assert_eq!(formatter.write_styled(&level, "ERROR", true), Ok(()));
    assert_eq!(formatter.sink_mut().write_all(b": it broke"), Ok(()));
    assert_eq!(formatter.as_bytes(), b"ERROR: it broke");
    formatter.clear();
    assert_eq!(formatter.as_bytes(), b"");
    assert!(formatter.print(&writer).is_ok());
}

#[test]
fn a_formatter_under_always_styles_the_level() {
    let writer = SinkWriter::stderr(WriteStyle::Always);
    let mut formatter = Formatter::new(&writer);
    assert_eq!(formatter.write_style(), WriteStyle::Always);
    let level = formatter.default_styled_level(Level::Error);
    assert_eq!(formatter.write_styled(&level, "ERROR", true), Ok(()));
    assert_eq!(formatter.as_bytes(), b"\x1b[0m\x1b[1m\x1b[31mERROR\x1b[0m");
}

#[test]
fn a_sink_refuses_a_second_styled_value_until_the_first_is_finished() {
    let mut sink = ansi_sink();
    let mut style = Style::new();
    style.set_bold(true);
    let outer = style.value(1);
    let inner = style.value(2);
    assert!(!sink.is_busy());
    assert_eq!(outer.apply(&mut sink), Ok(()));
    assert!(sink.is_busy());
    let held = sink.as_bytes().to_vec();

    assert_eq!(inner.apply(&mut sink), Err(FormatError));
    assert_eq!(sink.as_bytes(), &held[..]);
    assert_eq!(inner.write_fmt(&mut sink, "inner", true), Err(FormatError));
    assert_eq!(sink.as_bytes(), &held[..]);
    assert!(sink.is_busy());

    assert_eq!(outer.finish(&mut sink, Ok(())), Ok(()));
    assert!(!sink.is_busy());
    assert_eq!(inner.write_fmt(&mut sink, "inner", true), Ok(()));
    assert_eq!(sink.as_bytes(), b"\x1b[0m\x1b[1m\x1b[0m\x1b[0m\x1b[1minner\x1b[0m");
}

#[test]
fn a_style_that_could_not_be_set_ends_the_write() {
    let mut sink = ansi_sink();
    sink.write_all(b"kept").unwrap();
    let style = Style::new();
    let value = style.value(());
    assert_eq!(value.write_text(&mut sink, Err(FormatError), "text", true), Err(FormatError));
    assert_eq!(sink.as_bytes(), b"kept");
    assert!(!sink.is_busy());
}

#[test]
fn a_style_that_was_set_is_followed_by_the_text_and_the_reset() {
    let mut sink = ansi_sink();
    let style = Style::new();
    let value = style.value(());
    let applied = value.apply(&mut sink);
    assert_eq!(value.write_text(&mut sink, applied, "text", true), Ok(()));
    assert_eq!(sink.as_bytes(), b"\x1b[0mtext\x1b[0m");
    let applied = value.apply(&mut sink);
    assert_eq!(value.write_text(&mut sink, applied, "cut", false), Err(FormatError));
    assert_eq!(sink.as_bytes(), b"\x1b[0mtext\x1b[0m\x1b[0mcut\x1b[0m");
    assert!(!sink.is_busy());
}

#[test]
fn the_result_is_ok_exactly_if_formatting_finished() {
    for sink in [plain_sink(), ansi_sink()] {
        let mut sink = sink;
        let style = Style::new();
        assert_eq!(style.value(()).write_fmt(&mut sink, "", true), Ok(()));
        assert_eq!(style.value(()).write_fmt(&mut sink, "abc", true), Ok(()));
        assert_eq!(style.value(()).write_fmt(&mut sink, "", false), Err(FormatError));
        assert_eq!(style.value(()).write_fmt(&mut sink, "abc", false), Err(FormatError));
    }
}
