//! The terminal backend, `termcolor`, as this library sees it.
//!
//! Everything the verifier is asked to believe about `termcolor` and about
//! `std::io` stands in this module; the rest of the library is proved from
//! the contracts given here. The backend's types are opaque to the verifier.
//! Each gets a plain picture (`TermColor`, `ColorChoice`, `Target`,
//! `SinkKind`, a sequence of bytes) and the contracts speak of those
//! pictures.

use crate::style::StyleSpec;
use std::error::Error;
use std::io::Write;
use std::str::FromStr;
use termcolor::WriteColor;
use vstd::prelude::*;

verus! {

#[verifier::external_type_specification]
#[verifier::external_body]
pub struct ExBuffer(termcolor::Buffer);

#[verifier::external_type_specification]
#[verifier::external_body]
pub struct ExBufferWriter(termcolor::BufferWriter);

#[verifier::external_type_specification]
#[verifier::external_body]
pub struct ExIoError(std::io::Error);

/// The backend's own parse error, `termcolor::ParseColorError`, kept as it
/// came. The backend's type shares its name with this library's error and so
/// cannot be declared to the verifier; this struct carries it instead, and
/// is as opaque.
#[verifier::external_body]
#[derive(Debug, PartialEq, Eq)]
pub struct SyntaxError {
    inner: termcolor::ParseColorError,
}

impl Clone for SyntaxError {
    /// `Clone::clone` of a `termcolor::ParseColorError`: an equal error.
    #[verifier::external_body]
    fn clone(&self) -> (r: Self)
        ensures
            r == *self,
    {
        SyntaxError { inner: self.inner.clone() }
    }
}

/// A colour of the backend as plain data. `Unknown` stands for any variant
/// that the backend has and this library does not name.
#[derive(Clone, Copy, Debug, PartialEq, Eq, Structural)]
pub enum TermColor {
    Black,
    Blue,
    Green,
    Red,
    Cyan,
    Magenta,
    Yellow,
    White,
    Ansi256(u8),
    Rgb(u8, u8, u8),
    Unknown,
}

/// The backend's colour preference as plain data.
#[derive(Clone, Copy, Debug, PartialEq, Eq, Structural)]
pub enum ColorChoice {
    Always,
    AlwaysAnsi,
    Auto,
    Never,
}

/// The standard stream that a writer of the backend is bound to.
#[derive(Clone, Copy, Debug, PartialEq, Eq, Structural)]
pub enum Target {
    Stdout,
    Stderr,
}

/// How a buffer of the backend treats styling: it drops it, writes ANSI
/// escape sequences among its bytes, or keeps it aside for a console.
#[derive(Clone, Copy, Debug, PartialEq, Eq, Structural)]
pub enum SinkKind {
    Plain,
    Ansi,
    Console,
}

/// What `termcolor::Color::from_str` makes of a text: the colour it reads,
/// or `None` where it refuses the text.
pub uninterp spec fn termcolor_parsed(s: Seq<char>) -> Option<TermColor>;

/// The text that the backend's parse error reports as invalid.
pub uninterp spec fn invalid_text(e: SyntaxError) -> Seq<char>;

/// The short description that the backend's parse error gives of itself.
pub uninterp spec fn error_description(e: SyntaxError) -> Seq<char>;

/// The message that the backend's parse error displays.
pub uninterp spec fn error_message(e: SyntaxError) -> Seq<char>;

/// The bytes that a `termcolor::Buffer` has accumulated.
pub uninterp spec fn buffer_bytes(b: termcolor::Buffer) -> Seq<u8>;

/// How a `termcolor::Buffer` treats styling; fixed when it is made.
pub uninterp spec fn buffer_kind(b: termcolor::Buffer) -> SinkKind;

/// The preference that a `termcolor::BufferWriter` was made with.
pub uninterp spec fn writer_choice(w: termcolor::BufferWriter) -> ColorChoice;

/// The standard stream that a `termcolor::BufferWriter` is bound to.
pub uninterp spec fn writer_target(w: termcolor::BufferWriter) -> Target;

/// Whether a `termcolor::BufferWriter` holds a console to send styles to.
/// Only a writer on Windows whose stream is a console holds one.
pub uninterp spec fn writer_has_console(w: termcolor::BufferWriter) -> bool;

/// The escape sequences by which an ANSI buffer of the backend sets a style
/// that has the given settings and no others.
pub uninterp spec fn ansi_style_code(spec: StyleSpec) -> Seq<u8>;

/// The escape sequence by which an ANSI buffer of the backend returns to the
/// default style: `ESC [ 0 m`.
pub open spec fn ansi_reset_code() -> Seq<u8> {
    seq![0x1Bu8, 0x5Bu8, 0x30u8, 0x6Du8]
}

/// The lower-case form of an ASCII letter; any other character is itself.
pub open spec fn ascii_lower(c: char) -> char {
    if 'A' <= c && c <= 'Z' {
        ((c as u8) + 32) as u8 as char
    } else {
        c
    }
}

/// `s` spells `name`, which is in lower case, in whatever case.
pub open spec fn spells(s: Seq<char>, name: Seq<char>) -> bool {
    s.len() == name.len() && forall|i: int|
        0 <= i < s.len() ==> ascii_lower(#[trigger] s[i]) == name[i]
}

/// The colour that `s` names, if it is one of the eight names.
pub open spec fn named_color(s: Seq<char>) -> Option<TermColor> {
    if spells(s, seq!['b', 'l', 'a', 'c', 'k']) {
        Some(TermColor::Black)
    } else if spells(s, seq!['b', 'l', 'u', 'e']) {
        Some(TermColor::Blue)
    } else if spells(s, seq!['g', 'r', 'e', 'e', 'n']) {
        Some(TermColor::Green)
    } else if spells(s, seq!['r', 'e', 'd']) {
        Some(TermColor::Red)
    } else if spells(s, seq!['c', 'y', 'a', 'n']) {
        Some(TermColor::Cyan)
    } else if spells(s, seq!['m', 'a', 'g', 'e', 'n', 't', 'a']) {
        Some(TermColor::Magenta)
    } else if spells(s, seq!['y', 'e', 'l', 'l', 'o', 'w']) {
        Some(TermColor::Yellow)
    } else if spells(s, seq!['w', 'h', 'i', 't', 'e']) {
        Some(TermColor::White)
    } else {
        None
    }
}

/// The value of one digit in the given radix, 10 or 16.
pub open spec fn digit_value(c: char, radix: int) -> Option<int> {
    if '0' <= c && c <= '9' {
        Some(c as int - '0' as int)
    } else if radix == 16 && 'a' <= c && c <= 'f' {
        Some(c as int - 'a' as int + 10)
    } else if radix == 16 && 'A' <= c && c <= 'F' {
        Some(c as int - 'A' as int + 10)
    } else {
        None
    }
}

/// The value of a numeral made of one or more digits and nothing else.
pub open spec fn numeral_value(s: Seq<char>, radix: int) -> Option<int>
    decreases s.len(),
{
    if s.len() == 0 {
        None
    } else {
        match digit_value(s.last(), radix) {
            None => None,
            Some(d) => if s.len() == 1 {
                Some(d)
            } else {
                match numeral_value(s.drop_last(), radix) {
                    None => None,
                    Some(v) => Some(v * radix + d),
                }
            },
        }
    }
}

/// The value of an unsigned number as `u8::from_str_radix` reads it before
/// it looks at the size: one or more digits, after a `+` or after nothing.
pub open spec fn unsigned_value(s: Seq<char>, radix: int) -> Option<int> {
    if s.len() >= 1 && s[0] == '+' {
        numeral_value(s.skip(1), radix)
    } else {
        numeral_value(s, radix)
    }
}

/// The value of a number in the colour syntax: what follows `0x` is read in
/// base 16, anything else in base 10.
pub open spec fn number_value(s: Seq<char>) -> Option<int> {
    if s.len() >= 2 && s[0] == '0' && s[1] == 'x' {
        unsigned_value(s.skip(2), 16)
    } else {
        unsigned_value(s, 10)
    }
}

/// The colour component that a text gives: the value of a number up to 255.
pub open spec fn component(s: Seq<char>) -> Option<u8> {
    match number_value(s) {
        Some(n) => if n <= 255 {
            Some(n as u8)
        } else {
            None
        },
        None => None,
    }
}

/// The parts of `s` between its commas, in order.
pub open spec fn comma_fields(s: Seq<char>) -> Seq<Seq<char>>
    decreases s.len(),
{
    if s.len() == 0 {
        seq![Seq::<char>::empty()]
    } else {
        let before = comma_fields(s.drop_last());
        if s.last() == ',' {
            before.push(Seq::<char>::empty())
        } else {
            before.drop_last().push(before.last().push(s.last()))
        }
    }
}

/// Every character of `s` is an ASCII character.
pub open spec fn ascii_text(s: Seq<char>) -> bool {
    forall|i: int| 0 <= i < s.len() ==> (#[trigger] s[i]) as int <= 127
}

/// What the backend's colour syntax settles about a text: `Some(Some(c))`
/// where the text must be read as `c`, `Some(None)` where it must be
/// refused, and `None` where this statement of the syntax leaves the text to
/// the backend.
///
/// A text that spells one of the eight names is read as that colour. Any
/// other text is parted at its commas. One field is read as a palette
/// colour and three fields as red, green and blue, where each field is a
/// number up to 255; every other text is refused. One text is left open: a
/// text without a comma that is no number and holds a character outside
/// ASCII, because the backend puts a text into lower case by Unicode's
/// rules before it looks for a name.
pub open spec fn documented_color(s: Seq<char>) -> Option<Option<TermColor>> {
    let fields = comma_fields(s);
    if named_color(s) is Some {
        Some(named_color(s))
    } else if fields.len() == 1 {
        match component(s) {
            Some(n) => Some(Some(TermColor::Ansi256(n))),
            None => if ascii_text(s) {
                Some(None)
            } else {
                None
            },
        }
    } else if fields.len() == 3 {
        match (component(fields[0]), component(fields[1]), component(fields[2])) {
            (Some(r), Some(g), Some(b)) => Some(Some(TermColor::Rgb(r, g, b))),
            _ => Some(None),
        }
    } else {
        Some(None)
    }
}

/// `termcolor::Color::from_str`, with the colour it returns written as plain
/// data, variant by variant. The result is named; beside the name the
/// contract holds the backend's syntax for every text that
/// `documented_color` settles, and that an error reports the whole text that
/// was given, as each error path of the parser does. The numbers are read by
/// `u8::from_str_radix`, which takes digits after an optional `+` and
/// refuses a value over 255.
#[verifier::external_body]
pub(crate) fn termcolor_from_str(s: &str) -> (r: Result<TermColor, SyntaxError>)
    ensures
        r is Ok <==> termcolor_parsed(s@) is Some,
        r is Ok ==> Some(r->Ok_0) == termcolor_parsed(s@),
        r is Err ==> invalid_text(r->Err_0) == s@,
        documented_color(s@) is Some ==> documented_color(s@)->Some_0 == (match r {
            Ok(c) => Some(c),
            Err(_) => None,
        }),
{
    Ok(match termcolor::Color::from_str(s).map_err(|inner| SyntaxError { inner })? {
        termcolor::Color::Black => TermColor::Black,
        termcolor::Color::Blue => TermColor::Blue,
        termcolor::Color::Green => TermColor::Green,
        termcolor::Color::Red => TermColor::Red,
        termcolor::Color::Cyan => TermColor::Cyan,
        termcolor::Color::Magenta => TermColor::Magenta,
        termcolor::Color::Yellow => TermColor::Yellow,
        termcolor::Color::White => TermColor::White,
        termcolor::Color::Ansi256(n) => TermColor::Ansi256(n),
        termcolor::Color::Rgb(r, g, b) => TermColor::Rgb(r, g, b),
        _ => TermColor::Unknown,
    })
}

/// `termcolor::ParseColorError::invalid`: the text that could not be read.
#[verifier::external_body]
pub(crate) fn termcolor_invalid(e: &SyntaxError) -> (r: &str)
    ensures
        r@ == invalid_text(*e),
{
    e.inner.invalid()
}

/// `std::error::Error::description` of a `termcolor::ParseColorError`: one
/// fixed phrase for each way a text can be wrong.
#[verifier::external_body]
pub(crate) fn termcolor_description(e: &SyntaxError) -> (r: &str)
    ensures
        r@ == error_description(*e),
{
    #[allow(deprecated)]
    e.inner.description()
}

/// The `Display` text of a `termcolor::ParseColorError`.
#[verifier::external_body]
pub(crate) fn termcolor_message(e: &SyntaxError) -> (r: String)
    ensures
        r@ == error_message(*e),
{
    format!("{}", e.inner)
}

/// `termcolor::BufferWriter::stdout`, with the preference made from plain
/// data: a writer bound to standard output that keeps the preference.
#[verifier::external_body]
pub(crate) fn writer_stdout(choice: ColorChoice) -> (r: termcolor::BufferWriter)
    ensures
        writer_choice(r) == choice,
        writer_target(r) == Target::Stdout,
{
    termcolor::BufferWriter::stdout(match choice {
        ColorChoice::Always => termcolor::ColorChoice::Always,
        ColorChoice::AlwaysAnsi => termcolor::ColorChoice::AlwaysAnsi,
        ColorChoice::Auto => termcolor::ColorChoice::Auto,
        ColorChoice::Never => termcolor::ColorChoice::Never,
    })
}

/// `termcolor::BufferWriter::stderr`, with the preference made from plain
/// data: a writer bound to standard error that keeps the preference.
#[verifier::external_body]
pub(crate) fn writer_stderr(choice: ColorChoice) -> (r: termcolor::BufferWriter)
    ensures
        writer_choice(r) == choice,
        writer_target(r) == Target::Stderr,
{
    termcolor::BufferWriter::stderr(match choice {
        ColorChoice::Always => termcolor::ColorChoice::Always,
        ColorChoice::AlwaysAnsi => termcolor::ColorChoice::AlwaysAnsi,
        ColorChoice::Auto => termcolor::ColorChoice::Auto,
        ColorChoice::Never => termcolor::ColorChoice::Never,
    })
}

/// `termcolor::BufferWriter::buffer`: an empty buffer. It drops styling
/// where the writer's preference is `Never` and keeps it where the
/// preference is `Always` or `AlwaysAnsi`; under `Auto` the environment
/// decides, so nothing is said of the kind. A buffer for a console is made
/// only by a writer that holds a console.
pub assume_specification[ termcolor::BufferWriter::buffer ](
    w: &termcolor::BufferWriter,
) -> (r: termcolor::Buffer)
    ensures
        buffer_bytes(r) == Seq::<u8>::empty(),
        writer_choice(*w) == ColorChoice::Never ==> buffer_kind(r) == SinkKind::Plain,
        writer_choice(*w) == ColorChoice::Always || writer_choice(*w) == ColorChoice::AlwaysAnsi
            ==> buffer_kind(r) != SinkKind::Plain,
        buffer_kind(r) == SinkKind::Console ==> writer_has_console(*w),
;

/// `termcolor::BufferWriter::print`: sends the buffer's bytes to the
/// writer's stream. Whether that succeeds is the stream's affair, except
/// that an empty buffer is never sent and so cannot fail. The backend
/// panics where it is to send a buffer for a console and holds no console,
/// so such a pair is not accepted.
pub assume_specification[ termcolor::BufferWriter::print ](
    w: &termcolor::BufferWriter,
    buf: &termcolor::Buffer,
) -> (r: Result<(), std::io::Error>)
    requires
        buffer_kind(*buf) == SinkKind::Console ==> writer_has_console(*w),
    ensures
        buffer_bytes(*buf).len() == 0 ==> r is Ok,
;

/// `termcolor::Buffer::clear`: drops the bytes and keeps the kind.
pub assume_specification[ termcolor::Buffer::clear ](buf: &mut termcolor::Buffer)
    ensures
        buffer_bytes(*final(buf)) == Seq::<u8>::empty(),
        buffer_kind(*final(buf)) == buffer_kind(*old(buf)),
;

/// `termcolor::Buffer::as_slice`: the accumulated bytes.
pub assume_specification[ termcolor::Buffer::as_slice ](buf: &termcolor::Buffer) -> (r: &[u8])
    ensures
        r@ == buffer_bytes(*buf),
;

/// `std::io::Write::write` on a `termcolor::Buffer`. The buffer is a
/// vector in memory, and a write appends all of `data` to it: it takes every
/// byte and cannot fail.
#[verifier::external_body]
pub(crate) fn buffer_write(buf: &mut termcolor::Buffer, data: &[u8]) -> (r: Result<
    usize,
    std::io::Error,
>)
    ensures
        buffer_kind(*final(buf)) == buffer_kind(*old(buf)),
        buffer_bytes(*final(buf)) == buffer_bytes(*old(buf)) + data@,
        r is Ok,
        r->Ok_0 == data@.len(),
{
    buf.write(data)
}

/// `std::io::Write::flush` on a `termcolor::Buffer`: the buffer is memory, so
/// nothing moves and nothing can fail.
#[verifier::external_body]
pub(crate) fn buffer_flush(buf: &mut termcolor::Buffer) -> (r: Result<(), std::io::Error>)
    ensures
        buffer_kind(*final(buf)) == buffer_kind(*old(buf)),
        buffer_bytes(*final(buf)) == buffer_bytes(*old(buf)),
        r is Ok,
{
    buf.flush()
}

/// `termcolor::WriteColor::set_color` on a `termcolor::Buffer`, with a
/// `termcolor::ColorSpec` made new from the four settings, its colours
/// variant by variant. An ANSI buffer appends the escape sequences for the
/// settings; any other buffer keeps its bytes. The buffer is memory, so the
/// call cannot fail. The backend panics on a colour it has no sequence for,
/// so such a colour is not accepted.
#[verifier::external_body]
pub(crate) fn buffer_set_color(buf: &mut termcolor::Buffer, spec: &StyleSpec) -> (r: Result<
    (),
    std::io::Error,
>)
    requires
        spec.fg != Some(TermColor::Unknown),
        spec.bg != Some(TermColor::Unknown),
    ensures
        buffer_kind(*final(buf)) == buffer_kind(*old(buf)),
        buffer_kind(*old(buf)) != SinkKind::Ansi ==> buffer_bytes(*final(buf)) == buffer_bytes(
            *old(buf),
        ),
        buffer_kind(*old(buf)) == SinkKind::Ansi ==> buffer_bytes(*final(buf)) == buffer_bytes(
            *old(buf),
        ) + ansi_style_code(*spec),
        r is Ok,
{
    let make = |c| match c {
        TermColor::Black => termcolor::Color::Black,
        TermColor::Blue => termcolor::Color::Blue,
        TermColor::Green => termcolor::Color::Green,
        TermColor::Red => termcolor::Color::Red,
        TermColor::Cyan => termcolor::Color::Cyan,
        TermColor::Magenta => termcolor::Color::Magenta,
        TermColor::Yellow => termcolor::Color::Yellow,
        TermColor::White => termcolor::Color::White,
        TermColor::Ansi256(n) => termcolor::Color::Ansi256(n),
        TermColor::Rgb(r, g, b) => termcolor::Color::Rgb(r, g, b),
        TermColor::Unknown => termcolor::Color::__Nonexhaustive,
    };
    let fresh = &mut termcolor::ColorSpec::new();
    buf.set_color(fresh.set_fg(spec.fg.map(make)).set_bg(spec.bg.map(make)).set_bold(spec.bold).set_intense(spec.intense))
}

/// `termcolor::WriteColor::reset` on a `termcolor::Buffer`. An ANSI buffer
/// appends `ESC [ 0 m`; any other buffer keeps its bytes. The buffer is
/// memory, so the call cannot fail.
#[verifier::external_body]
pub(crate) fn buffer_reset(buf: &mut termcolor::Buffer) -> (r: Result<(), std::io::Error>)
    ensures
        buffer_kind(*final(buf)) == buffer_kind(*old(buf)),
        buffer_kind(*old(buf)) != SinkKind::Ansi ==> buffer_bytes(*final(buf)) == buffer_bytes(
            *old(buf),
        ),
        buffer_kind(*old(buf)) == SinkKind::Ansi ==> buffer_bytes(*final(buf)) == buffer_bytes(
            *old(buf),
        ) + ansi_reset_code(),
        r is Ok,
{
    buf.reset()
}

} // verus!
