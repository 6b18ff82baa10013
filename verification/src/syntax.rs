//! The colour syntax in plain terms: what the documented syntax settles for
//! names, for numbers and for triples of numbers. `Color::from_str` returns
//! what `Color::spec_documented` says wherever it says anything; these laws
//! say what that is.

use crate::backend::{
    ascii_lower, ascii_text, comma_fields, component, digit_value, documented_color, named_color,
    number_value, numeral_value, spells, unsigned_value, TermColor,
};
use crate::color::Color;
use vstd::prelude::*;

verus! {

/// The eight names, in lower case.
pub open spec fn color_name(color: Color) -> Seq<char> {
    match color {
        Color::Black => seq!['b', 'l', 'a', 'c', 'k'],
        Color::Blue => seq!['b', 'l', 'u', 'e'],
        Color::Green => seq!['g', 'r', 'e', 'e', 'n'],
        Color::Red => seq!['r', 'e', 'd'],
        Color::Cyan => seq!['c', 'y', 'a', 'n'],
        Color::Magenta => seq!['m', 'a', 'g', 'e', 'n', 't', 'a'],
        Color::Yellow => seq!['y', 'e', 'l', 'l', 'o', 'w'],
        Color::White => seq!['w', 'h', 'i', 't', 'e'],
        _ => Seq::empty(),
    }
}

/// `color` is one of the eight colours that have a name.
pub open spec fn is_named(color: Color) -> bool {
    color_name(color).len() > 0
}

/// The text of a triple: three parts with a comma after the first and after
/// the second.
pub open spec fn triple(r: Seq<char>, g: Seq<char>, b: Seq<char>) -> Seq<char> {
    r + seq![','] + g + seq![','] + b
}

/// The colour of three components, where each of them is there.
pub open spec fn rgb(r: Option<u8>, g: Option<u8>, b: Option<u8>) -> Option<Color> {
    match (r, g, b) {
        (Some(r), Some(g), Some(b)) => Some(Color::Rgb(r, g, b)),
        _ => None,
    }
}

/// No character of `s` is a comma.
pub open spec fn comma_free(s: Seq<char>) -> bool {
    forall|i: int| 0 <= i < s.len() ==> #[trigger] s[i] != ','
}

proof fn lemma_name_has_no_comma(s: Seq<char>, color: Color)
    requires
        is_named(color),
        spells(s, color_name(color)),
    ensures
        forall|i: int| 0 <= i < s.len() ==> #[trigger] s[i] != ',',
        s.len() >= 3,
        s[0] != '0' && !('0' <= s[0] && s[0] <= '9'),
{
    let name = color_name(color);
    assert forall|i: int| 0 <= i < s.len() implies #[trigger] s[i] != ',' by {
        assert(ascii_lower(s[i]) == name[i]);
        assert('a' <= name[i] && name[i] <= 'z');
    }
    assert(ascii_lower(s[0]) == name[0]);
    assert('a' <= name[0] && name[0] <= 'z');
}

proof fn lemma_named_is_a_name(s: Seq<char>)
    requires
        named_color(s) is Some,
    ensures
        exists|color: Color| is_named(color) && #[trigger] spells(s, color_name(color)),
{
    if spells(s, color_name(Color::Black)) {
    } else if spells(s, color_name(Color::Blue)) {
    } else if spells(s, color_name(Color::Green)) {
    } else if spells(s, color_name(Color::Red)) {
    } else if spells(s, color_name(Color::Cyan)) {
    } else if spells(s, color_name(Color::Magenta)) {
    } else if spells(s, color_name(Color::Yellow)) {
    } else {
        assert(spells(s, color_name(Color::White)));
    }
}

proof fn lemma_no_comma_is_one_field(s: Seq<char>)
    requires
        forall|i: int| 0 <= i < s.len() ==> #[trigger] s[i] != ',',
    ensures
        comma_fields(s) == seq![s],
    decreases s.len(),
{
    if s.len() == 0 {
        assert(s =~= Seq::<char>::empty());
    } else {
        lemma_no_comma_is_one_field(s.drop_last());
        assert(s.last() != ',');
        let before = comma_fields(s.drop_last());
        assert(before.drop_last().push(before.last().push(s.last())) =~= seq![s]) by {
            assert(s.drop_last().push(s.last()) =~= s);
        }
    }
}

proof fn lemma_field_after_comma(x: Seq<char>, y: Seq<char>)
    requires
        forall|i: int| 0 <= i < y.len() ==> #[trigger] y[i] != ',',
    ensures
        comma_fields(x + seq![','] + y) == comma_fields(x).push(y),
    decreases y.len(),
{
    let s = x + seq![','] + y;
    if y.len() == 0 {
        assert(s.drop_last() =~= x);
        assert(s.last() == ',');
        assert(y =~= Seq::<char>::empty());
    } else {
        lemma_field_after_comma(x, y.drop_last());
        assert(s.drop_last() =~= x + seq![','] + y.drop_last());
        assert(s.last() == y.last());
        assert(y.last() != ',');
        let before = comma_fields(s.drop_last());
        assert(before.last().push(s.last()) =~= y);
        assert(before.drop_last() =~= comma_fields(x));
    }
}

proof fn lemma_numeral_is_digits(s: Seq<char>, radix: int)
    requires
        numeral_value(s, radix) is Some,
    ensures
        s.len() >= 1,
        forall|i: int| 0 <= i < s.len() ==> (#[trigger] digit_value(s[i], radix)) is Some,
    decreases s.len(),
{
    if s.len() > 1 {
        lemma_numeral_is_digits(s.drop_last(), radix);
        assert forall|i: int| 0 <= i < s.len() implies (#[trigger] digit_value(s[i], radix))
            is Some by {
            if i < s.len() - 1 {
                assert(s[i] == s.drop_last()[i]);
            }
        }
    }
}

proof fn lemma_numeral_is_not_negative(s: Seq<char>, radix: int)
    requires
        numeral_value(s, radix) is Some,
        radix == 10 || radix == 16,
    ensures
        numeral_value(s, radix)->Some_0 >= 0,
    decreases s.len(),
{
    if s.len() > 1 {
        lemma_numeral_is_not_negative(s.drop_last(), radix);
        let v = numeral_value(s.drop_last(), radix)->Some_0;
        assert(v * radix >= 0) by (nonlinear_arith)
            requires
                v >= 0,
                radix > 0,
        ;
    }
}

proof fn lemma_unsigned_is_plain(s: Seq<char>, radix: int)
    requires
        unsigned_value(s, radix) is Some,
        radix == 10 || radix == 16,
    ensures
        s.len() >= 1,
        unsigned_value(s, radix)->Some_0 >= 0,
        forall|i: int|
            0 <= i < s.len() ==> (#[trigger] s[i]) == '+' || digit_value(s[i], radix) is Some,
{
    if s.len() >= 1 && s[0] == '+' {
        let digits = s.skip(1);
        lemma_numeral_is_digits(digits, radix);
        lemma_numeral_is_not_negative(digits, radix);
        assert forall|i: int| 0 <= i < s.len() implies (#[trigger] s[i]) == '+' || digit_value(
            s[i],
            radix,
        ) is Some by {
            if i >= 1 {
                assert(s[i] == digits[i - 1]);
                assert(digit_value(digits[i - 1], radix) is Some);
            }
        }
    } else {
        lemma_numeral_is_digits(s, radix);
        lemma_numeral_is_not_negative(s, radix);
        assert forall|i: int| 0 <= i < s.len() implies (#[trigger] s[i]) == '+' || digit_value(
            s[i],
            radix,
        ) is Some by {
            assert(digit_value(s[i], radix) is Some);
        }
    }
}

proof fn lemma_number_is_plain(s: Seq<char>)
    requires
        number_value(s) is Some,
    ensures
        s.len() >= 1,
        number_value(s)->Some_0 >= 0,
        comma_free(s),
        ascii_text(s),
        named_color(s) is None,
        comma_fields(s) == seq![s],
{
    if s.len() >= 2 && s[0] == '0' && s[1] == 'x' {
        let rest = s.skip(2);
        lemma_unsigned_is_plain(rest, 16);
        assert forall|i: int| 0 <= i < s.len() implies (#[trigger] s[i]) != ',' && s[i] as int
            <= 127 by {
            if i >= 2 {
                assert(s[i] == rest[i - 2]);
                assert(rest[i - 2] == '+' || digit_value(rest[i - 2], 16) is Some);
            }
        }
    } else {
        lemma_unsigned_is_plain(s, 10);
        assert forall|i: int| 0 <= i < s.len() implies (#[trigger] s[i]) != ',' && s[i] as int
            <= 127 by {
            assert(s[i] == '+' || digit_value(s[i], 10) is Some);
        }
        assert(s[0] == '+' || digit_value(s[0], 10) is Some);
    }
    lemma_no_comma_is_one_field(s);
    if named_color(s) is Some {
        lemma_named_is_a_name(s);
        let color = choose|color: Color| is_named(color) && #[trigger] spells(s, color_name(color));
        lemma_name_has_no_comma(s, color);
    }
}

proof fn lemma_triple_has_three_fields(r: Seq<char>, g: Seq<char>, b: Seq<char>)
    requires
        comma_free(r),
        comma_free(g),
        comma_free(b),
    ensures
        comma_fields(triple(r, g, b)) == seq![r, g, b],
        named_color(triple(r, g, b)) is None,
{
    let s = triple(r, g, b);
    lemma_no_comma_is_one_field(r);
    lemma_field_after_comma(r, g);
    lemma_field_after_comma(r + seq![','] + g, b);
    assert(comma_fields(s) =~= seq![r, g, b]);
    assert(s[r.len() as int] == ',');
    if named_color(s) is Some {
        lemma_named_is_a_name(s);
        let color = choose|color: Color| is_named(color) && #[trigger] spells(s, color_name(color));
        lemma_name_has_no_comma(s, color);
    }
}

/// Each of the eight names, in whatever case, must parse as its colour.
pub proof fn lemma_names_are_settled(s: Seq<char>, color: Color)
    requires
        is_named(color),
        spells(s, color_name(color)),
    ensures
        Color::spec_documented(s) == Some(Some(color)),
{
    let name = color_name(color);
    assert(ascii_lower(s[0]) == name[0]);
    assert(ascii_lower(s[1]) == name[1]);
}

/// One number, in decimal digits or in hexadecimal digits after `0x`, must
/// parse as the palette colour of its value, and must be refused where the
/// value is over 255. A `+` before the digits counts for nothing.
pub proof fn lemma_numbers_are_settled(s: Seq<char>, n: int)
    requires
        number_value(s) == Some(n),
    ensures
        0 <= n,
        n <= 255 ==> Color::spec_documented(s) == Some(Some(Color::Ansi256(n as u8))),
        n > 255 ==> Color::spec_documented(s) == Some(None::<Color>),
{
    lemma_number_is_plain(s);
}

/// Three fields with a comma after the first and after the second must
/// parse as the colour that has their values for red, green and blue, and
/// must be refused where one of them is no number or is over 255.
pub proof fn lemma_triples_are_settled(r: Seq<char>, g: Seq<char>, b: Seq<char>)
    requires
        comma_free(r),
        comma_free(g),
        comma_free(b),
    ensures
        Color::spec_documented(triple(r, g, b)) == Some(
            rgb(component(r), component(g), component(b)),
        ),
{
    lemma_triple_has_three_fields(r, g, b);
}

/// A text with one comma, or with more than two, must be refused.
pub proof fn lemma_wrong_counts_are_refused(s: Seq<char>)
    requires
        comma_fields(s).len() != 1,
        comma_fields(s).len() != 3,
    ensures
        Color::spec_documented(s) == Some(None::<Color>),
{
    if named_color(s) is Some {
        lemma_named_is_a_name(s);
        let color = choose|color: Color| is_named(color) && #[trigger] spells(s, color_name(color));
        lemma_name_has_no_comma(s, color);
        lemma_no_comma_is_one_field(s);
    }
}

/// A text in ASCII without a comma that is no name and no number must be
/// refused.
pub proof fn lemma_other_words_are_refused(s: Seq<char>)
    requires
        ascii_text(s),
        comma_free(s),
        named_color(s) is None,
        number_value(s) is None,
    ensures
        Color::spec_documented(s) == Some(None::<Color>),
{
    lemma_no_comma_is_one_field(s);
}

/// A text in ASCII that begins with a minus sign must be refused: no
/// number is negative, and none is wrapped into the range.
pub proof fn lemma_negative_numbers_are_refused(s: Seq<char>)
    requires
        ascii_text(s),
        s.len() >= 1,
        s[0] == '-',
    ensures
        Color::spec_documented(s) == Some(None::<Color>),
        component(s) is None,
{
    if number_value(s) is Some {
        lemma_unsigned_is_plain(s, 10);
        assert(s[0] == '+' || digit_value(s[0], 10) is Some);
    }
    if named_color(s) is Some {
        lemma_named_is_a_name(s);
        let color = choose|color: Color| is_named(color) && #[trigger] spells(s, color_name(color));
        lemma_name_has_no_comma(s, color);
        assert(ascii_lower(s[0]) == color_name(color)[0]);
    }
    if comma_fields(s).len() == 3 {
        let fields = comma_fields(s);
        lemma_first_field_begins_the_text(s);
        if number_value(fields[0]) is Some {
            lemma_number_is_plain(fields[0]);
            if fields[0].len() >= 2 && fields[0][0] == '0' && fields[0][1] == 'x' {
            } else {
                lemma_unsigned_is_plain(fields[0], 10);
                assert(fields[0][0] == '+' || digit_value(fields[0][0], 10) is Some);
            }
        }
    }
}

proof fn lemma_first_field_begins_the_text(s: Seq<char>)
    requires
        s.len() >= 1,
        s[0] != ',',
    ensures
        comma_fields(s).len() >= 1,
        comma_fields(s)[0].len() >= 1,
        comma_fields(s)[0][0] == s[0],
    decreases s.len(),
{
    if s.len() == 1 {
        assert(s.drop_last() =~= Seq::<char>::empty());
        assert(comma_fields(s.drop_last()) =~= seq![Seq::<char>::empty()]);
    } else {
        lemma_first_field_begins_the_text(s.drop_last());
        let before = comma_fields(s.drop_last());
        assert(s.drop_last()[0] == s[0]);
        if s.last() != ',' && before.len() == 1 {
            assert(before.last().push(s.last())[0] == before[0][0]);
        }
    }
}

/// The syntax settles every text in ASCII, one way or the other.
pub proof fn lemma_ascii_texts_are_settled(s: Seq<char>)
    requires
        ascii_text(s),
    ensures
        Color::spec_documented(s) is Some,
{
}

/// The syntax never asks for a colour that this library does not name.
pub proof fn lemma_documented_colors_are_named(s: Seq<char>)
    ensures
        documented_color(s) != Some(Some(TermColor::Unknown)),
        Color::spec_documented(s) != Some(Some(Color::__Nonexhaustive)),
{
}

} // verus!
