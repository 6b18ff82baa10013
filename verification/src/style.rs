//! Styles, and values that are written in a style.

use crate::backend::{SinkKind, TermColor};
use crate::color::Color;
use crate::sink::{reset, styled, FormatError, Sink, StyleOp};
use std::borrow::Cow;
use vstd::prelude::*;
use vstd::string::StringSliceAdditionalSpecFns;

verus! {

/// What a style asks of the terminal: a foreground and a background colour,
/// each optional, and two flags. Each field holds what was last set.
#[derive(Clone, Copy, Debug, PartialEq, Eq, Structural)]
pub struct StyleSpec {
    pub fg: Option<TermColor>,
    pub bg: Option<TermColor>,
    pub bold: bool,
    pub intense: bool,
}

impl StyleSpec {
    /// No colours, not bold, not intense.
    pub open spec fn plain() -> StyleSpec {
        StyleSpec { fg: None, bg: None, bold: false, intense: false }
    }

    /// Every colour set is one that the backend can write.
    pub open spec fn wf(&self) -> bool {
        self.fg != Some(TermColor::Unknown) && self.bg != Some(TermColor::Unknown)
    }

    /// `self` with the text colour `color`.
    pub open spec fn with_color(self, color: Color) -> StyleSpec {
        StyleSpec { fg: color.spec_into_termcolor(), ..self }
    }

    /// `self` with the background colour `color`.
    pub open spec fn with_bg(self, color: Color) -> StyleSpec {
        StyleSpec { bg: color.spec_into_termcolor(), ..self }
    }

    /// `self` with the weight `yes`.
    pub open spec fn with_bold(self, yes: bool) -> StyleSpec {
        StyleSpec { bold: yes, ..self }
    }

    /// `self` with the intensity `yes`.
    pub open spec fn with_intense(self, yes: bool) -> StyleSpec {
        StyleSpec { intense: yes, ..self }
    }
}

/// A set of styles to apply to the terminal output.
///
/// A `Style` is built by its setters, which each change one setting and
/// hand the style back, so that calls can be chained. To print a value in
/// the style, wrap it with [`Style::value`] and write it to a sink.
#[derive(Debug)]
pub struct Style {
    spec: StyleSpec,
}

impl View for Style {
    type V = StyleSpec;

    closed spec fn view(&self) -> StyleSpec {
        self.spec
    }
}

impl Clone for Style {
    fn clone(&self) -> (r: Self)
        ensures
            r@ == self@,
    {
        proof {
            use_type_invariant(self);
        }
        Style { spec: self.spec }
    }
}

impl Style {
    #[verifier::type_invariant]
    spec fn inv(&self) -> bool {
        self.spec.wf()
    }

    /// A style that asks for nothing.
    pub fn new() -> (r: Style)
        ensures
            r@ == StyleSpec::plain(),
    {
        Style { spec: StyleSpec { fg: None, bg: None, bold: false, intense: false } }
    }

    /// The settings of the style.
    pub fn spec(&self) -> (r: StyleSpec)
        ensures
            r == self@,
            r.wf(),
    {
        proof {
            use_type_invariant(self);
        }
        self.spec
    }

    /// Set the text color.
    pub fn set_color(&mut self, color: Color) -> (r: &mut Style)
        ensures
            r@ == old(self)@.with_color(color),
            *final(self) == *final(r),
    {
        proof {
            use_type_invariant(&*self);
        }
        self.spec.fg = color.into_termcolor();
        self
    }

    /// Set the text weight.
    ///
    /// If `yes` is true then text will be written in bold.
    /// If `yes` is false then text will be written in the default weight.
    pub fn set_bold(&mut self, yes: bool) -> (r: &mut Style)
        ensures
            r@ == old(self)@.with_bold(yes),
            *final(self) == *final(r),
    {
        proof {
            use_type_invariant(&*self);
        }
        self.spec.bold = yes;
        self
    }

    /// Set the text intensity.
    ///
    /// If `yes` is true then text will be written in a brighter color.
    /// If `yes` is false then text will be written in the default color.
    pub fn set_intense(&mut self, yes: bool) -> (r: &mut Style)
        ensures
            r@ == old(self)@.with_intense(yes),
            *final(self) == *final(r),
    {
        proof {
            use_type_invariant(&*self);
        }
        self.spec.intense = yes;
        self
    }

    /// Set the background color.
    pub fn set_bg(&mut self, color: Color) -> (r: &mut Style)
        ensures
            r@ == old(self)@.with_bg(color),
            *final(self) == *final(r),
    {
        proof {
            use_type_invariant(&*self);
        }
        self.spec.bg = color.into_termcolor();
        self
    }

    /// Wrap a value in the style.
    ///
    /// The same `Style` can be used to print multiple different values. The
    /// style is borrowed for as long as the wrapped value lives, so the
    /// value is written with the settings that the style had when it was
    /// wrapped.
    pub fn value<T>(&self, value: T) -> (r: StyledValue<'_, T>)
        ensures
            r.style() == self@,
            r.inner() == value,
    {
        StyledValue { style: Cow::Borrowed(self), value }
    }

    /// Wrap a value in the style and give the style away with it.
    pub fn into_value<T>(self, value: T) -> (r: StyledValue<'static, T>)
        ensures
            r.style() == self@,
            r.inner() == value,
    {
        StyledValue { style: Cow::Owned(self), value }
    }
}

/// A value that can be printed using the given styles.
///
/// It is the result of calling [`Style::value`].
pub struct StyledValue<'a, T> {
    style: Cow<'a, Style>,
    value: T,
}

/// The outcome of writing a styled value: that of the write if it failed,
/// and else that of the reset.
pub fn settle(write: Result<(), FormatError>, reset: Result<(), std::io::Error>) -> (r: Result<
    (),
    FormatError,
>)
    ensures
        r is Ok <==> write is Ok && reset is Ok,
{
    match write {
        Ok(()) => match reset {
            Ok(()) => Ok(()),
            Err(_) => Err(FormatError),
        },
        Err(e) => Err(e),
    }
}

/// What writing a styled value does to a sink. `before` and `after` are the
/// sink around the call, `spec` the style, `text` the bytes that formatting
/// the value gave, `complete` whether formatting finished, and `r` the
/// result.
///
/// A sink that is taking another styled value refuses this one: the result
/// is an error and the sink stays as it is. A free sink has the style set
/// once, gains the text, and is reset once, whatever became of the text; an
/// ANSI sink gains the escape sequences for the style before the text and
/// the reset sequence after it, and any other sink gains the text alone.
/// The sink is free again, and the result is `Ok` exactly if formatting
/// finished.
pub open spec fn wrote(
    before: Sink,
    after: Sink,
    spec: StyleSpec,
    text: Seq<u8>,
    complete: bool,
    r: Result<(), FormatError>,
) -> bool {
    if before.busy() {
        r is Err && after == before
    } else {
        &&& after.kind() == before.kind()
        &&& !after.busy()
        &&& after.styling() == before.styling().push(StyleOp::Apply(spec)).push(StyleOp::Reset)
        &&& after@ == reset(before.kind(), styled(before.kind(), before@, spec) + text)
        &&& r is Ok <==> complete
    }
}

impl<'a, T> StyledValue<'a, T> {
    /// The settings that the value is written with.
    pub closed spec fn style(&self) -> StyleSpec {
        match self.style {
            Cow::Borrowed(style) => style@,
            Cow::Owned(style) => style@,
        }
    }

    /// The value that is written.
    pub closed spec fn inner(&self) -> T {
        self.value
    }

    fn style_ref(&self) -> (r: &Style)
        ensures
            r@ == self.style(),
    {
        match &self.style {
            Cow::Borrowed(style) => style,
            Cow::Owned(style) => style,
        }
    }

    /// The settings that the value is written with.
    pub fn spec(&self) -> (r: StyleSpec)
        ensures
            r == self.style(),
            r.wf(),
    {
        self.style_ref().spec()
    }

    /// The value that is written.
    pub fn get_ref(&self) -> (r: &T)
        ensures
            *r == self.inner(),
    {
        &self.value
    }

    /// Sets the value's style on the sink, before the value is written, and
    /// marks the sink as taking a styled value. A sink that is already
    /// taking one refuses: the result is an error and the sink stays as it
    /// is.
    pub fn apply(&self, sink: &mut Sink) -> (r: Result<(), FormatError>)
        ensures
            r is Ok <==> !old(sink).busy(),
            r is Err ==> *final(sink) == *old(sink),
            r is Ok ==> {
                &&& final(sink).busy()
                &&& final(sink).kind() == old(sink).kind()
                &&& final(sink).styling() == old(sink).styling().push(
                    StyleOp::Apply(self.style()),
                )
                &&& final(sink)@ == styled(old(sink).kind(), old(sink)@, self.style())
            },
    {
        if sink.is_busy() {
            return Err(FormatError);
        }
        match sink.set_color(self.style_ref()) {
            Ok(()) => {
                sink.set_busy(true);
                Ok(())
            },
            Err(_) => Err(FormatError),
        }
    }

    /// Resets the sink after the value was written, whether or not the
    /// write succeeded, and marks the sink as free again. The result is
    /// that of the write.
    pub fn finish(&self, sink: &mut Sink, write: Result<(), FormatError>) -> (r: Result<
        (),
        FormatError,
    >)
        ensures
            final(sink)@ == reset(old(sink).kind(), old(sink)@),
            final(sink).kind() == old(sink).kind(),
            final(sink).styling() == old(sink).styling().push(StyleOp::Reset),
            !final(sink).busy(),
            r is Ok <==> write is Ok,
    {
        let reset = sink.reset();
        sink.set_busy(false);
        settle(write, reset)
    }

    /// Goes on from the setting of the style, of which `applied` is the
    /// outcome. If the style could not be set, that error is the result:
    /// nothing is written and no reset is made. Otherwise the text is
    /// written and the sink is reset, whether or not formatting finished,
    /// and the result is `Ok` exactly if it did.
    pub fn write_text(
        &self,
        sink: &mut Sink,
        applied: Result<(), FormatError>,
        text: &str,
        complete: bool,
    ) -> (r: Result<(), FormatError>)
        ensures
            applied is Err ==> r is Err && *final(sink) == *old(sink),
            applied is Ok ==> {
                &&& final(sink)@ == reset(old(sink).kind(), old(sink)@ + text.spec_bytes())
                &&& final(sink).kind() == old(sink).kind()
                &&& final(sink).styling() == old(sink).styling().push(StyleOp::Reset)
                &&& !final(sink).busy()
                &&& r is Ok <==> complete
            },
    {
        match applied {
            Err(e) => Err(e),
            Ok(()) => {
                let written = sink.write_all(text.as_bytes());
                let write = if complete {
                    written
                } else {
                    Err(FormatError)
                };
                self.finish(sink, write)
            },
        }
    }

    /// Writes the value to the sink in its style. `text` is what formatting
    /// the value gave and `complete` tells whether formatting finished; a
    /// value that failed part of the way has `text` up to the failure.
    ///
    /// The style is set first; if that is refused, nothing more is done.
    /// Then the text is written, and then the sink is reset whether or not
    /// formatting finished. See [`wrote`] for the whole of it.
    pub fn write_fmt(&self, sink: &mut Sink, text: &str, complete: bool) -> (r: Result<
        (),
        FormatError,
    >)
        ensures
            wrote(*old(sink), *final(sink), self.style(), text.spec_bytes(), complete, r),
    {
        let applied = self.apply(sink);
        self.write_text(sink, applied, text, complete)
    }
}

/// A value whose formatting failed is reported as failed, and the sink is
/// still reset, once, after the style was set and after what there was of
/// the text.
pub proof fn lemma_reset_follows_failure(
    before: Sink,
    after: Sink,
    spec: StyleSpec,
    text: Seq<u8>,
    r: Result<(), FormatError>,
)
    requires
        wrote(before, after, spec, text, false, r),
        !before.busy(),
    ensures
        r is Err,
        after.styling() == before.styling().push(StyleOp::Apply(spec)).push(StyleOp::Reset),
        after@ == reset(before.kind(), styled(before.kind(), before@, spec) + text),
        !after.busy(),
{
}

/// A sink that is not ANSI gains the text and nothing else, whatever the
/// style: no styling sequence reaches it.
pub proof fn lemma_plain_sinks_take_text_only(
    before: Sink,
    after: Sink,
    spec: StyleSpec,
    text: Seq<u8>,
    complete: bool,
    r: Result<(), FormatError>,
)
    requires
        wrote(before, after, spec, text, complete, r),
        before.kind() != SinkKind::Ansi,
        !before.busy(),
    ensures
        after@ == before@ + text,
        after.kind() != SinkKind::Ansi,
{
}

/// A styled value that is to be written while another is being written to
/// the same sink is refused, and the sink is not touched.
pub proof fn lemma_nested_write_is_refused(
    before: Sink,
    after: Sink,
    spec: StyleSpec,
    text: Seq<u8>,
    complete: bool,
    r: Result<(), FormatError>,
)
    requires
        wrote(before, after, spec, text, complete, r),
        before.busy(),
    ensures
        r is Err,
        after == before,
{
}

/// Setters of different settings do not disturb each other: whatever the
/// order in which a colour, a weight and an intensity are set, each setting
/// holds what was set, and the styles are the same.
pub proof fn lemma_setters_commute(spec: StyleSpec, color: Color, bold: bool, intense: bool)
    ensures
        spec.with_color(color).with_bold(bold).with_intense(intense) == spec.with_intense(
            intense,
        ).with_bold(bold).with_color(color),
        spec.with_color(color).with_bold(bold).with_intense(intense) == spec.with_bold(
            bold,
        ).with_intense(intense).with_color(color),
        spec.with_color(color).with_bold(bold).with_intense(intense) == (StyleSpec {
            fg: color.spec_into_termcolor(),
            bg: spec.bg,
            bold,
            intense,
        }),
{
}

/// A setter overwrites: of two calls on one setting the later one counts.
pub proof fn lemma_setters_overwrite(spec: StyleSpec, c1: Color, c2: Color, b1: bool, b2: bool)
    ensures
        spec.with_color(c1).with_color(c2) == spec.with_color(c2),
        spec.with_bg(c1).with_bg(c2) == spec.with_bg(c2),
        spec.with_bold(b1).with_bold(b2) == spec.with_bold(b2),
        spec.with_intense(b1).with_intense(b2) == spec.with_intense(b2),
{
}

/// No setter makes a style that the backend cannot write.
pub proof fn lemma_setters_keep_wf(spec: StyleSpec, color: Color, yes: bool)
    requires
        spec.wf(),
    ensures
        spec.with_color(color).wf(),
        spec.with_bg(color).wf(),
        spec.with_bold(yes).wf(),
        spec.with_intense(yes).wf(),
{
}

} // verus!
