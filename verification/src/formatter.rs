//! The formatter: one sink, and the styles that are written to it.

use crate::backend::{SinkKind, TermColor};
use crate::color::Color;
use crate::sink::{FormatError, Sink, SinkWriter, StyleOp, WriteStyle};
use crate::style::{wrote, Style, StyleSpec, StyledValue};
use vstd::prelude::*;
use vstd::string::StringSliceAdditionalSpecFns;

verus! {

/// How severe a log record is.
#[derive(Clone, Copy, Debug, PartialEq, Eq, Structural)]
pub enum Level {
    Error,
    Warn,
    Info,
    Debug,
    Trace,
}

/// A formatter to write logs into.
///
/// It owns the sink that a record is written to. The styles it hands out
/// are written to that sink and to no other, one at a time.
pub struct Formatter {
    buf: Sink,
    write_style: WriteStyle,
}

impl Formatter {
    /// The sink that the formatter writes to.
    pub closed spec fn sink(&self) -> Sink {
        self.buf
    }

    /// The choice that the formatter's sink was made under.
    pub closed spec fn spec_write_style(&self) -> WriteStyle {
        self.write_style
    }

    /// The style that each level is printed in by default: trace in white,
    /// debug in blue, info in green, warn in yellow, and error in bold red.
    pub open spec fn level_spec(level: Level) -> StyleSpec {
        match level {
            Level::Trace => StyleSpec::plain().with_color(Color::White),
            Level::Debug => StyleSpec::plain().with_color(Color::Blue),
            Level::Info => StyleSpec::plain().with_color(Color::Green),
            Level::Warn => StyleSpec::plain().with_color(Color::Yellow),
            Level::Error => StyleSpec::plain().with_color(Color::Red).with_bold(true),
        }
    }

    /// A formatter with a fresh sink of the writer's.
    pub fn new(writer: &SinkWriter) -> (r: Formatter)
        ensures
            r.sink()@ == Seq::<u8>::empty(),
            r.sink().styling() == Seq::<StyleOp>::empty(),
            !r.sink().busy(),
            r.sink().kind() == SinkKind::Console ==> writer.has_console(),
            r.spec_write_style() == writer.spec_write_style(),
            r.spec_write_style() == WriteStyle::Never ==> r.sink().kind() == SinkKind::Plain,
            r.spec_write_style() == WriteStyle::Always ==> r.sink().kind() != SinkKind::Plain,
    {
        Formatter { buf: writer.buffer(), write_style: writer.write_style() }
    }

    /// The choice that the formatter's sink was made under.
    pub fn write_style(&self) -> (r: WriteStyle)
        ensures
            r == self.spec_write_style(),
    {
        self.write_style
    }

    /// Begin a new [`Style`].
    pub fn style(&self) -> (r: Style)
        ensures
            r@ == StyleSpec::plain(),
    {
        Style::new()
    }

    /// Get the default [`Style`] for the given level.
    ///
    /// The style can be used to print other values besides the level.
    pub fn default_level_style(&self, level: Level) -> (r: Style)
        ensures
            r@ == Self::level_spec(level),
    {
        let mut level_style = self.style();
        match level {
            Level::Trace => {
                level_style.set_color(Color::White);
            },
            Level::Debug => {
                level_style.set_color(Color::Blue);
            },
            Level::Info => {
                level_style.set_color(Color::Green);
            },
            Level::Warn => {
                level_style.set_color(Color::Yellow);
            },
            Level::Error => {
                level_style.set_color(Color::Red).set_bold(true);
            },
        }
        level_style
    }

    /// Get a printable [`Style`] for the given level.
    ///
    /// The style can only be used to print the level.
    pub fn default_styled_level(&self, level: Level) -> (r: StyledValue<'static, Level>)
        ensures
            r.style() == Self::level_spec(level),
            r.inner() == level,
    {
        self.default_level_style(level).into_value(level)
    }

    /// Writes a styled value to the formatter's sink: sets the style, writes
    /// `text`, and resets. See [`wrote`] for the whole of it.
    pub fn write_styled<T>(&mut self, value: &StyledValue<'_, T>, text: &str, complete: bool) -> (r:
        Result<(), FormatError>)
        ensures
            wrote(
                old(self).sink(),
                final(self).sink(),
                value.style(),
                text.spec_bytes(),
                complete,
                r,
            ),
            final(self).spec_write_style() == old(self).spec_write_style(),
    {
        value.write_fmt(&mut self.buf, text, complete)
    }

    /// The formatter's sink, to write to. What is done to it is done to the
    /// formatter's sink, and the formatter is otherwise as it was.
    pub fn sink_mut(&mut self) -> (r: &mut Sink)
        ensures
            *r == old(self).sink(),
            final(self).sink() == *final(r),
            final(self).spec_write_style() == old(self).spec_write_style(),
    {
        &mut self.buf
    }

    /// The bytes written so far.
    pub fn as_bytes(&self) -> (r: &[u8])
        ensures
            r@ == self.sink()@,
    {
        self.buf.as_bytes()
    }

    /// Sends what was written to the writer's stream. The sink stays as it
    /// is; the stream decides whether this succeeds, but nothing written
    /// cannot fail. A sink of the console kind can be sent only by a writer
    /// that holds a console, as the writer that the formatter was made with
    /// does.
    pub fn print(&self, writer: &SinkWriter) -> (r: Result<(), std::io::Error>)
        requires
            self.sink().kind() == SinkKind::Console ==> writer.has_console(),
        ensures
            self.sink()@.len() == 0 ==> r is Ok,
    {
        writer.print(&self.buf)
    }

    /// Discards what was written. The kind of the sink stays.
    pub fn clear(&mut self)
        ensures
            final(self).sink()@ == Seq::<u8>::empty(),
            final(self).sink().kind() == old(self).sink().kind(),
            final(self).sink().styling() == old(self).sink().styling(),
            final(self).sink().busy() == old(self).sink().busy(),
            final(self).spec_write_style() == old(self).spec_write_style(),
    {
        self.buf.clear()
    }
}

/// The default styles are fixed: an error is printed in bold red, a trace
/// in plain white, and every level's style is one the backend can write.
pub proof fn lemma_level_styles(level: Level)
    ensures
        Formatter::level_spec(level).wf(),
        Formatter::level_spec(level).bg is None,
        !Formatter::level_spec(level).intense,
        Formatter::level_spec(level).bold <==> level == Level::Error,
        Formatter::level_spec(Level::Error).fg == Some(TermColor::Red),
        Formatter::level_spec(Level::Warn).fg == Some(TermColor::Yellow),
        Formatter::level_spec(Level::Info).fg == Some(TermColor::Green),
        Formatter::level_spec(Level::Debug).fg == Some(TermColor::Blue),
        Formatter::level_spec(Level::Trace).fg == Some(TermColor::White),
{
}

} // verus!
