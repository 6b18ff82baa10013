//! The styling sink: a buffer that takes bytes, a style to set and a reset,
//! and the writer that makes such buffers and sends them to a standard
//! stream.

use crate::backend::{
    ansi_reset_code, ansi_style_code, buffer_bytes, buffer_flush, buffer_kind, buffer_reset,
    buffer_set_color, buffer_write, writer_choice, writer_has_console, writer_stderr,
    writer_stdout, writer_target, ColorChoice, SinkKind, Target,
};
use crate::style::{Style, StyleSpec};
use vstd::prelude::*;
use vstd::slice::slice_subrange;

verus! {

/// Whether styles are written: always, never, or as the environment allows.
#[derive(Clone, Copy, Debug, PartialEq, Eq, Structural)]
pub enum WriteStyle {
    Auto,
    Always,
    Never,
}

impl WriteStyle {
    /// The backend preference that stands for `self`.
    pub open spec fn spec_color_choice(self) -> ColorChoice {
        match self {
            WriteStyle::Always => ColorChoice::Always,
            WriteStyle::Auto => ColorChoice::Auto,
            WriteStyle::Never => ColorChoice::Never,
        }
    }

    /// The backend preference that stands for `self`.
    pub fn into_color_choice(self) -> (r: ColorChoice)
        ensures
            r == self.spec_color_choice(),
    {
        match self {
            WriteStyle::Always => ColorChoice::Always,
            WriteStyle::Auto => ColorChoice::Auto,
            WriteStyle::Never => ColorChoice::Never,
        }
    }
}

/// A value failed to format, or was to be written to a sink while another
/// styled value was being written to it.
#[derive(Clone, Copy, Debug, PartialEq, Eq, Structural)]
pub struct FormatError;

/// One styling call on a sink.
pub enum StyleOp {
    /// A style was set.
    Apply(StyleSpec),
    /// The default style was asked for.
    Reset,
}

/// The bytes of a sink of kind `kind` that held `bytes`, after it has
/// taken the style `spec`.
pub open spec fn styled(kind: SinkKind, bytes: Seq<u8>, spec: StyleSpec) -> Seq<u8> {
    if kind == SinkKind::Ansi {
        bytes + ansi_style_code(spec)
    } else {
        bytes
    }
}

/// The bytes of a sink of kind `kind` that held `bytes`, after it has
/// taken a reset.
pub open spec fn reset(kind: SinkKind, bytes: Seq<u8>) -> Seq<u8> {
    if kind == SinkKind::Ansi {
        bytes + ansi_reset_code()
    } else {
        bytes
    }
}

/// A reset on a sink that is not ANSI changes nothing, so a second reset
/// leaves what the first left. On an ANSI sink each reset appends the same
/// sequence, which asks the terminal for the same state. No reset fails,
/// the second no more than the first.
pub proof fn lemma_reset_twice(kind: SinkKind, bytes: Seq<u8>)
    ensures
        kind != SinkKind::Ansi ==> reset(kind, reset(kind, bytes)) == reset(kind, bytes),
        kind != SinkKind::Ansi ==> reset(kind, bytes) == bytes,
        kind == SinkKind::Ansi ==> reset(kind, reset(kind, bytes)) == bytes + ansi_reset_code()
            + ansi_reset_code(),
{
}

/// A buffer of the backend, with a record of the styling calls made on it
/// and a mark that tells whether a styled value is being written to it.
pub struct Sink {
    inner: termcolor::Buffer,
    busy: bool,
    styling: Ghost<Seq<StyleOp>>,
}

impl View for Sink {
    type V = Seq<u8>;

    /// The bytes accumulated.
    closed spec fn view(&self) -> Seq<u8> {
        buffer_bytes(self.inner)
    }
}

impl Sink {
    /// How the sink treats styling. It is fixed when the sink is made.
    pub closed spec fn kind(&self) -> SinkKind {
        buffer_kind(self.inner)
    }

    /// The styling calls made on the sink since it was made, in order.
    pub closed spec fn styling(&self) -> Seq<StyleOp> {
        self.styling@
    }

    /// A styled value is being written to the sink: its style was set and
    /// the reset that ends it was not yet made.
    pub closed spec fn busy(&self) -> bool {
        self.busy
    }

    /// Tells whether a styled value is being written to the sink.
    pub fn is_busy(&self) -> (r: bool)
        ensures
            r == self.busy(),
    {
        self.busy
    }

    /// Marks the sink as taking a styled value, or as free again.
    pub(crate) fn set_busy(&mut self, yes: bool)
        ensures
            final(self).busy() == yes,
            final(self)@ == old(self)@,
            final(self).kind() == old(self).kind(),
            final(self).styling() == old(self).styling(),
    {
        self.busy = yes;
    }

    /// Discards the bytes. The kind stays.
    pub fn clear(&mut self)
        ensures
            final(self)@ == Seq::<u8>::empty(),
            final(self).kind() == old(self).kind(),
            final(self).styling() == old(self).styling(),
            final(self).busy() == old(self).busy(),
    {
        self.inner.clear()
    }

    /// Appends `buf` to the sink and returns its length. The sink is memory:
    /// it takes every byte and does not fail.
    pub fn write(&mut self, buf: &[u8]) -> (r: Result<usize, std::io::Error>)
        ensures
            final(self)@ == old(self)@ + buf@,
            final(self).kind() == old(self).kind(),
            final(self).styling() == old(self).styling(),
            final(self).busy() == old(self).busy(),
            r is Ok,
            r->Ok_0 == buf@.len(),
    {
        buffer_write(&mut self.inner, buf)
    }

    /// Appends all of `buf`, by as many writes as it takes.
    pub fn write_all(&mut self, buf: &[u8]) -> (r: Result<(), FormatError>)
        ensures
            final(self)@ == old(self)@ + buf@,
            final(self).kind() == old(self).kind(),
            final(self).styling() == old(self).styling(),
            final(self).busy() == old(self).busy(),
            r is Ok,
    {
        let mut done: usize = 0;
        while done < buf.len()
            invariant
                done <= buf@.len(),
                self@ == old(self)@ + buf@.take(done as int),
                self.kind() == old(self).kind(),
                self.styling() == old(self).styling(),
                self.busy() == old(self).busy(),
            decreases buf@.len() - done,
        {
            let rest = slice_subrange(buf, done, buf.len());
            match self.write(rest) {
                Ok(n) => {
                    assert(buf@.take(done as int) + rest@ =~= buf@.take(done + n));
                    done = done + n;
                },
                Err(_) => {
                    return Err(FormatError);
                },
            }
        }
        assert(buf@.take(done as int) =~= buf@);
        Ok(())
    }

    /// Flushes the sink. It is memory, so its bytes stay as they are and the
    /// call does not fail.
    pub fn flush(&mut self) -> (r: Result<(), std::io::Error>)
        ensures
            final(self)@ == old(self)@,
            final(self).kind() == old(self).kind(),
            final(self).styling() == old(self).styling(),
            final(self).busy() == old(self).busy(),
            r is Ok,
    {
        buffer_flush(&mut self.inner)
    }

    /// Sets the style for what is written next. An ANSI sink then holds the
    /// escape sequences for the style after its earlier bytes; any other
    /// sink keeps its bytes. The call does not fail.
    pub fn set_color(&mut self, style: &Style) -> (r: Result<(), std::io::Error>)
        ensures
            final(self)@ == styled(old(self).kind(), old(self)@, style@),
            final(self).kind() == old(self).kind(),
            final(self).styling() == old(self).styling().push(StyleOp::Apply(style@)),
            final(self).busy() == old(self).busy(),
            r is Ok,
    {
        let spec = style.spec();
        self.styling = Ghost(self.styling@.push(StyleOp::Apply(spec)));
        buffer_set_color(&mut self.inner, &spec)
    }

    /// Returns to the default style. An ANSI sink then holds `ESC [ 0 m`
    /// after its earlier bytes; any other sink keeps its bytes. The call
    /// does not fail, however often it is made.
    pub fn reset(&mut self) -> (r: Result<(), std::io::Error>)
        ensures
            final(self)@ == self::reset(old(self).kind(), old(self)@),
            final(self).kind() == old(self).kind(),
            final(self).styling() == old(self).styling().push(StyleOp::Reset),
            final(self).busy() == old(self).busy(),
            r is Ok,
    {
        self.styling = Ghost(self.styling@.push(StyleOp::Reset));
        buffer_reset(&mut self.inner)
    }

    /// The bytes accumulated.
    pub fn as_bytes(&self) -> (r: &[u8])
        ensures
            r@ == self@,
    {
        self.inner.as_slice()
    }
}

/// Makes sinks for one of the two standard streams, and sends them there.
pub struct SinkWriter {
    inner: termcolor::BufferWriter,
    write_style: WriteStyle,
}

impl SinkWriter {
    #[verifier::type_invariant]
    spec fn inv(&self) -> bool {
        writer_choice(self.inner) == self.write_style.spec_color_choice()
    }

    /// The choice that the writer was made with.
    pub closed spec fn spec_write_style(&self) -> WriteStyle {
        self.write_style
    }

    /// The standard stream that the writer sends its sinks to.
    pub closed spec fn target(&self) -> Target {
        writer_target(self.inner)
    }

    /// The writer holds a console, through which it can send a sink of the
    /// console kind.
    pub closed spec fn has_console(&self) -> bool {
        writer_has_console(self.inner)
    }

    /// A writer bound to standard error.
    pub fn stderr(write_style: WriteStyle) -> (r: Self)
        ensures
            r.target() == Target::Stderr,
            r.spec_write_style() == write_style,
    {
        SinkWriter { inner: writer_stderr(write_style.into_color_choice()), write_style }
    }

    /// A writer bound to standard output.
    pub fn stdout(write_style: WriteStyle) -> (r: Self)
        ensures
            r.target() == Target::Stdout,
            r.spec_write_style() == write_style,
    {
        SinkWriter { inner: writer_stdout(write_style.into_color_choice()), write_style }
    }

    /// The choice that the writer was made with.
    pub fn write_style(&self) -> (r: WriteStyle)
        ensures
            r == self.spec_write_style(),
    {
        self.write_style
    }

    /// A fresh sink: empty, free, with no styling call made on it. Under
    /// `Never` it is plain, under `Always` it is not, and under `Auto` the
    /// environment decides. A sink of the console kind comes only from a
    /// writer that holds a console, so a writer can always send the sinks
    /// that it made.
    pub fn buffer(&self) -> (r: Sink)
        ensures
            r@ == Seq::<u8>::empty(),
            r.styling() == Seq::<StyleOp>::empty(),
            !r.busy(),
            self.spec_write_style() == WriteStyle::Never ==> r.kind() == SinkKind::Plain,
            self.spec_write_style() == WriteStyle::Always ==> r.kind() != SinkKind::Plain,
            r.kind() == SinkKind::Console ==> self.has_console(),
    {
        proof {
            use_type_invariant(self);
        }
        Sink { inner: self.inner.buffer(), busy: false, styling: Ghost(Seq::empty()) }
    }

    /// Sends the bytes of `buf` to the writer's stream and leaves `buf` as
    /// it is. The stream decides whether that succeeds; an empty sink is not
    /// sent and cannot fail. A sink of the console kind can be sent only by
    /// a writer that holds a console, as the writer that made it does.
    pub fn print(&self, buf: &Sink) -> (r: Result<(), std::io::Error>)
        requires
            buf.kind() == SinkKind::Console ==> self.has_console(),
        ensures
            buf@.len() == 0 ==> r is Ok,
    {
        self.inner.print(&buf.inner)
    }
}

} // verus!
