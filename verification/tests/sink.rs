use log_style::{ColorChoice, SinkWriter, Style, WriteStyle};

#[test]
fn write_styles_map_to_backend_choices() {
    assert_eq!(WriteStyle::Always.into_color_choice(), ColorChoice::Always);
    assert_eq!(WriteStyle::Auto.into_color_choice(), ColorChoice::Auto);
    assert_eq!(WriteStyle::Never.into_color_choice(), ColorChoice::Never);
}

#[test]
fn a_writer_keeps_its_write_style() {
    assert_eq!(SinkWriter::stderr(WriteStyle::Auto).write_style(), WriteStyle::Auto);
    assert_eq!(SinkWriter::stdout(WriteStyle::Always).write_style(), WriteStyle::Always);
    assert_eq!(SinkWriter::stdout(WriteStyle::Never).write_style(), WriteStyle::Never);
}

#[test]
fn a_fresh_sink_is_empty() {
    for style in [WriteStyle::Auto, WriteStyle::Always, WriteStyle::Never] {
        assert_eq!(SinkWriter::stderr(style).buffer().as_bytes(), b"");
        assert_eq!(SinkWriter::stdout(style).buffer().as_bytes(), b"");
    }
}

#[test]
fn write_appends_what_it_says_it_took() {
    let mut sink = SinkWriter::stderr(WriteStyle::Never).buffer();
    let n = sink.write(b"abc").unwrap();
    assert_eq!(n, 3);
    assert_eq!(sink.as_bytes(), b"abc");
    let n = sink.write(b"").unwrap();
    assert_eq!(n, 0);
    let n = sink.write(b"de").unwrap();
    assert_eq!(n, 2);
    assert_eq!(sink.as_bytes(), b"abcde");
}

#[test]
fn write_all_appends_everything() {
    let mut sink = SinkWriter::stderr(WriteStyle::Always).buffer();
    assert!(sink.write_all(b"one ").is_ok());
    assert!(sink.write_all(b"").is_ok());
    assert!(sink.write_all(b"two").is_ok());
    assert_eq!(sink.as_bytes(), b"one two");
}

#[test]
fn flush_moves_nothing() {
    let mut sink = SinkWriter::stdout(WriteStyle::Always).buffer();
    sink.write_all(b"kept").unwrap();
    assert!(sink.flush().is_ok());
    assert_eq!(sink.as_bytes(), b"kept");
}

#[test]
fn clear_discards_the_bytes_and_keeps_the_kind() {
    let mut ansi = SinkWriter::stderr(WriteStyle::Always).buffer();
    ansi.write_all(b"gone").unwrap();
    ansi.clear();
    assert_eq!(ansi.as_bytes(), b"");
    ansi.reset().unwrap();
    assert_eq!(ansi.as_bytes(), b"\x1b[0m");

    let mut plain = SinkWriter::stderr(WriteStyle::Never).buffer();
    plain.write_all(b"gone").unwrap();
    plain.clear();
    plain.reset().unwrap();
    assert_eq!(plain.as_bytes(), b"");
}

#[test]
fn styling_a_plain_sink_does_nothing_and_cannot_fail() {
    let mut sink = SinkWriter::stdout(WriteStyle::Never).buffer();
    let mut style = Style::new();
    style.set_bold(true);
    sink.write_all(b"x").unwrap();
    assert!(sink.set_color(&style).is_ok());
    assert!(sink.reset().is_ok());
    assert_eq!(sink.as_bytes(), b"x");
}

#[test]
fn printing_leaves_the_sink_as_it_is() {
    let writer = SinkWriter::stderr(WriteStyle::Never);
    let empty = writer.buffer();
    assert!(writer.print(&empty).is_ok());
    assert_eq!(empty.as_bytes(), b"");

    let mut sink = writer.buffer();
    sink.write_all(b"printed by a test\n").unwrap();
    let _ = writer.print(&sink);
    assert_eq!(sink.as_bytes(), b"printed by a test\n");
}

#[test]
fn a_fresh_sink_is_free() {
    assert!(!SinkWriter::stderr(WriteStyle::Always).buffer().is_busy());
    assert!(!SinkWriter::stdout(WriteStyle::Never).buffer().is_busy());
}

#[test]
fn raw_styling_calls_leave_the_sink_free() {
    let mut sink = SinkWriter::stderr(WriteStyle::Always).buffer();
    let style = Style::new();
    assert!(sink.set_color(&style).is_ok());
    assert!(sink.set_color(&style).is_ok());
    assert!(!sink.is_busy());
    assert!(sink.reset().is_ok());
    assert!(sink.flush().is_ok());
    sink.clear();
    assert!(!sink.is_busy());
}
