//! The colour model and its textual syntax.

use crate::backend::{
    documented_color, error_description, error_message, invalid_text, termcolor_description,
    termcolor_from_str, termcolor_invalid, termcolor_message, termcolor_parsed, SyntaxError,
    TermColor,
};
use vstd::prelude::*;
use vstd::string::*;

verus! {

/// The set of available colors for the terminal foreground/background.
///
/// The `Ansi256` and `Rgb` colors are written correctly by a sink that uses
/// ANSI escape sequences. This set may expand over time; the last variant is
/// reserved for that and stands for no colour.
///
/// A colour can be parsed from its human readable form, see
/// [`Color::from_str`]:
///
/// 1. Any of the explicitly listed colors in English. They are matched
///    case insensitively.
/// 2. A single 8-bit integer, in either decimal or hexadecimal format.
/// 3. A triple of 8-bit integers separated by a comma, where each integer is
///    in decimal or hexadecimal format.
///
/// Hexadecimal numbers are written with a `0x` prefix.
#[derive(Clone, Copy, Debug, PartialEq, Eq, Structural)]
pub enum Color {
    Black,
    Blue,
    Green,
    Red,
    Cyan,
    Magenta,
    Yellow,
    White,
    Ansi256(u8),
    Rgb(u8, u8, u8),
    __Nonexhaustive,
}

impl Color {
    /// The backend colour that stands for `self`; the reserved variant has
    /// none.
    pub open spec fn spec_into_termcolor(self) -> Option<TermColor> {
        match self {
            Color::Black => Some(TermColor::Black),
            Color::Blue => Some(TermColor::Blue),
            Color::Green => Some(TermColor::Green),
            Color::Red => Some(TermColor::Red),
            Color::Cyan => Some(TermColor::Cyan),
            Color::Magenta => Some(TermColor::Magenta),
            Color::Yellow => Some(TermColor::Yellow),
            Color::White => Some(TermColor::White),
            Color::Ansi256(value) => Some(TermColor::Ansi256(value)),
            Color::Rgb(r, g, b) => Some(TermColor::Rgb(r, g, b)),
            Color::__Nonexhaustive => None,
        }
    }

    /// The colour that a backend colour stands for; a colour that this
    /// library does not name has none.
    pub open spec fn spec_from_termcolor(color: TermColor) -> Option<Color> {
        match color {
            TermColor::Black => Some(Color::Black),
            TermColor::Blue => Some(Color::Blue),
            TermColor::Green => Some(Color::Green),
            TermColor::Red => Some(Color::Red),
            TermColor::Cyan => Some(Color::Cyan),
            TermColor::Magenta => Some(Color::Magenta),
            TermColor::Yellow => Some(Color::Yellow),
            TermColor::White => Some(Color::White),
            TermColor::Ansi256(value) => Some(Color::Ansi256(value)),
            TermColor::Rgb(r, g, b) => Some(Color::Rgb(r, g, b)),
            TermColor::Unknown => None,
        }
    }

    /// What parsing makes of a text: the colour that stands for what the
    /// backend reads, where it reads one that this library names.
    pub open spec fn spec_from_str(s: Seq<char>) -> Option<Color> {
        match termcolor_parsed(s) {
            Some(color) => Color::spec_from_termcolor(color),
            None => None,
        }
    }

    /// What the documented syntax settles about a text: `Some(Some(c))` where
    /// it must parse as `c`, `Some(None)` where it must be refused, `None`
    /// where the syntax leaves it to the backend.
    pub open spec fn spec_documented(s: Seq<char>) -> Option<Option<Color>> {
        match documented_color(s) {
            Some(Some(color)) => Some(Color::spec_from_termcolor(color)),
            Some(None) => Some(None),
            None => None,
        }
    }

    /// The backend colour for `self`. The reserved variant has none, so a
    /// style never hands the backend a colour that it cannot write.
    pub fn into_termcolor(self) -> (r: Option<TermColor>)
        ensures
            r == self.spec_into_termcolor(),
            r != Some(TermColor::Unknown),
    {
        match self {
            Color::Black => Some(TermColor::Black),
            Color::Blue => Some(TermColor::Blue),
            Color::Green => Some(TermColor::Green),
            Color::Red => Some(TermColor::Red),
            Color::Cyan => Some(TermColor::Cyan),
            Color::Magenta => Some(TermColor::Magenta),
            Color::Yellow => Some(TermColor::Yellow),
            Color::White => Some(TermColor::White),
            Color::Ansi256(value) => Some(TermColor::Ansi256(value)),
            Color::Rgb(r, g, b) => Some(TermColor::Rgb(r, g, b)),
            _ => None,
        }
    }

    /// The colour for a backend colour, if this library names it.
    pub fn from_termcolor(color: TermColor) -> (r: Option<Color>)
        ensures
            r == Color::spec_from_termcolor(color),
            r != Some(Color::__Nonexhaustive),
    {
        match color {
            TermColor::Black => Some(Color::Black),
            TermColor::Blue => Some(Color::Blue),
            TermColor::Green => Some(Color::Green),
            TermColor::Red => Some(Color::Red),
            TermColor::Cyan => Some(Color::Cyan),
            TermColor::Magenta => Some(Color::Magenta),
            TermColor::Yellow => Some(Color::Yellow),
            TermColor::White => Some(Color::White),
            TermColor::Ansi256(value) => Some(Color::Ansi256(value)),
            TermColor::Rgb(r, g, b) => Some(Color::Rgb(r, g, b)),
            _ => None,
        }
    }

    /// Settles a parse once the backend has answered: a colour that this
    /// library names is the result, a colour it does not name makes `s`
    /// unrecognized, and the backend's own error is passed on.
    pub fn from_parsed(parsed: Result<TermColor, SyntaxError>, s: &str) -> (r:
        Result<Color, ParseColorError>)
        ensures
            match parsed {
                Ok(color) => match Color::spec_from_termcolor(color) {
                    Some(c) => r == Ok::<Color, ParseColorError>(c),
                    None => r is Err && r->Err_0.source() is None && r->Err_0.invalid_spec()
                        == s@,
                },
                Err(e) => r is Err && r->Err_0.source() == Some(e) && r->Err_0.invalid_spec()
                    == invalid_text(e),
            },
    {
        match parsed {
            Ok(color) => match Color::from_termcolor(color) {
                Some(c) => Ok(c),
                None => Err(ParseColorError::unrecognized(String::from_str(s))),
            },
            Err(e) => Err(ParseColorError::syntax(e)),
        }
    }

    /// Parses a colour from its text: one of the eight names in any case, a
    /// number up to 255 for a palette colour, or three such numbers between
    /// commas for red, green and blue. A number is decimal digits, or
    /// hexadecimal digits after `0x`.
    ///
    /// The backend does the reading. The result is the colour that stands for
    /// what it read; an error holds the whole text. Where the documented
    /// syntax settles a text, the result is what the syntax says. The
    /// reserved variant is never the result.
    pub fn from_str(s: &str) -> (r: Result<Color, ParseColorError>)
        ensures
            r is Ok <==> Color::spec_from_str(s@) is Some,
            r is Ok ==> Some(r->Ok_0) == Color::spec_from_str(s@),
            r is Ok ==> r->Ok_0 != Color::__Nonexhaustive,
            r is Err ==> r->Err_0.invalid_spec() == s@,
            r is Err ==> (r->Err_0.source() is None <==> termcolor_parsed(s@) is Some),
            Color::spec_documented(s@) is Some ==> Color::spec_documented(s@)->Some_0 == (match r {
                Ok(c) => Some(c),
                Err(_) => None,
            }),
    {
        let parsed = termcolor_from_str(s);
        Color::from_parsed(parsed, s)
    }
}

impl std::str::FromStr for Color {
    type Err = ParseColorError;

    /// Parses a colour as [`Color::from_str`] does, with the same result
    /// for every text.
    fn from_str(s: &str) -> (r: Result<Color, ParseColorError>)
        ensures
            r is Ok <==> Color::spec_from_str(s@) is Some,
            r is Ok ==> Some(r->Ok_0) == Color::spec_from_str(s@),
            r is Ok ==> r->Ok_0 != Color::__Nonexhaustive,
            r is Err ==> r->Err_0.invalid_spec() == s@,
            r is Err ==> (r->Err_0.source() is None <==> termcolor_parsed(s@) is Some),
            Color::spec_documented(s@) is Some ==> Color::spec_documented(s@)->Some_0 == (match r {
                Ok(c) => Some(c),
                Err(_) => None,
            }),
    {
        Color::from_str(s)
    }
}

/// An error from parsing an invalid color specification.
#[derive(Clone, Debug, Eq, PartialEq)]
pub struct ParseColorError(ParseColorErrorKind);

#[derive(Clone, Debug, Eq, PartialEq)]
enum ParseColorErrorKind {
    /// The backend refused the text.
    TermColor(SyntaxError),
    /// The backend read a colour that this library does not name.
    Unrecognized { given: String },
}

impl ParseColorError {
    /// The backend's error, where the backend refused the text; `None` where
    /// it read a colour that this library does not name.
    pub closed spec fn source(&self) -> Option<SyntaxError> {
        match self.0 {
            ParseColorErrorKind::TermColor(err) => Some(err),
            ParseColorErrorKind::Unrecognized { .. } => None,
        }
    }

    /// The text that could not be parsed.
    pub closed spec fn invalid_spec(&self) -> Seq<char> {
        match self.0 {
            ParseColorErrorKind::TermColor(err) => invalid_text(err),
            ParseColorErrorKind::Unrecognized { given } => given@,
        }
    }

    /// The text by which an unrecognized colour is described.
    pub open spec fn unrecognized_description() -> Seq<char> {
        "unrecognized color value"@
    }

    /// The message for an unrecognized colour given as `given`.
    pub open spec fn unrecognized_message(given: Seq<char>) -> Seq<char> {
        "unrecognized color value '"@ + given + "'"@
    }

    /// The short description of the error.
    pub open spec fn description_spec(&self) -> Seq<char> {
        match self.source() {
            Some(err) => error_description(err),
            None => Self::unrecognized_description(),
        }
    }

    /// The message that the error displays.
    pub open spec fn message_spec(&self) -> Seq<char> {
        match self.source() {
            Some(err) => error_message(err),
            None => Self::unrecognized_message(self.invalid_spec()),
        }
    }

    /// The error for a text that the backend refused.
    pub(crate) fn syntax(err: SyntaxError) -> (r: Self)
        ensures
            r.source() == Some(err),
            r.invalid_spec() == invalid_text(err),
    {
        ParseColorError(ParseColorErrorKind::TermColor(err))
    }

    /// The error for a text that the backend read as a colour that this
    /// library does not name.
    pub(crate) fn unrecognized(given: String) -> (r: Self)
        ensures
            r.source() is None,
            r.invalid_spec() == given@,
    {
        ParseColorError(ParseColorErrorKind::Unrecognized { given })
    }

    /// Return the string that couldn't be parsed as a valid color.
    pub fn invalid(&self) -> (r: &str)
        ensures
            r@ == self.invalid_spec(),
    {
        match &self.0 {
            ParseColorErrorKind::TermColor(err) => termcolor_invalid(err),
            ParseColorErrorKind::Unrecognized { given } => given.as_str(),
        }
    }

    /// A short description of what went wrong.
    pub fn description(&self) -> (r: &str)
        ensures
            r@ == self.description_spec(),
    {
        match &self.0 {
            ParseColorErrorKind::TermColor(err) => termcolor_description(err),
            ParseColorErrorKind::Unrecognized { .. } => "unrecognized color value",
        }
    }

    /// The message to show for the error: the backend's own where the
    /// backend refused the text, and otherwise the description followed by
    /// the text in single quotes.
    pub fn message(&self) -> (r: String)
        ensures
            r@ == self.message_spec(),
    {
        match &self.0 {
            ParseColorErrorKind::TermColor(err) => termcolor_message(err),
            ParseColorErrorKind::Unrecognized { given } => {
                String::from_str("unrecognized color value '").concat(given.as_str()).concat("'")
            },
        }
    }
}

/// A colour goes to the backend and back unchanged: every colour but the
/// reserved one has a backend colour, and that backend colour stands for it
/// and for no other.
pub proof fn lemma_backend_round_trip(color: Color)
    requires
        color != Color::__Nonexhaustive,
    ensures
        color.spec_into_termcolor() is Some,
        color.spec_into_termcolor() != Some(TermColor::Unknown),
        Color::spec_from_termcolor(color.spec_into_termcolor()->Some_0) == Some(color),
{
}

/// A backend colour that this library names comes back from it unchanged.
pub proof fn lemma_library_round_trip(color: TermColor)
    requires
        color != TermColor::Unknown,
    ensures
        Color::spec_from_termcolor(color) is Some,
        Color::spec_from_termcolor(color) != Some(Color::__Nonexhaustive),
        Color::spec_from_termcolor(color)->Some_0.spec_into_termcolor() == Some(color),
{
}

} // verus!
