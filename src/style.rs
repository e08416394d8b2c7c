//! Pen configuration: colour and line width, and how toolbar input sets them.
use vstd::prelude::*;

verus! {

/// Thinnest line the pen draws, in pixels.
pub const MIN_WIDTH: u32 = 1;

/// Thickest line the pen draws, in pixels.
pub const MAX_WIDTH: u32 = 20;

/// Any parsed value at or above this one clamps to `MAX_WIDTH`.
const PARSE_CAP: u32 = 21;

pub open spec fn is_digit(c: char) -> bool {
    '0' <= c && c <= '9'
}

pub open spec fn digit_value(c: char) -> int {
    (c as int) - ('0' as int)
}

pub open spec fn all_digits(s: Seq<char>) -> bool {
    forall|i: int| 0 <= i < s.len() ==> is_digit(#[trigger] s[i])
}

/// The number a run of decimal digits denotes (most significant first).
pub open spec fn decimal_value(s: Seq<char>) -> int
    decreases s.len(),
{
    if s.len() == 0 {
        0
    } else {
        decimal_value(s.drop_last()) * 10 + digit_value(s.last())
    }
}

/// The digits of an unsigned integer literal: an optional `+` sign followed by
/// at least one decimal digit.
pub open spec fn literal_digits(s: Seq<char>) -> Seq<char> {
    if s.len() > 0 && s[0] == '+' {
        s.drop_first()
    } else {
        s
    }
}

/// The integer that the input text denotes, if it is an unsigned integer literal.
pub open spec fn parse_unsigned(s: Seq<char>) -> Option<int> {
    let d = literal_digits(s);
    if d.len() > 0 && all_digits(d) {
        Some(decimal_value(d))
    } else {
        None
    }
}

pub open spec fn clamp_width(n: int) -> int {
    if n < MIN_WIDTH {
        MIN_WIDTH as int
    } else if n > MAX_WIDTH {
        MAX_WIDTH as int
    } else {
        n
    }
}

/// The line width a toolbar input sets: the number it denotes, clamped to
/// `[MIN_WIDTH, MAX_WIDTH]`; none when the input is not a number.
pub open spec fn width_of_input(s: Seq<char>) -> Option<int> {
    match parse_unsigned(s) {
        Some(n) => Some(clamp_width(n)),
        None => None,
    }
}

proof fn lemma_decimal_value_nonneg(s: Seq<char>)
    requires
        all_digits(s),
    ensures
        decimal_value(s) >= 0,
    decreases s.len(),
{
    if s.len() > 0 {
        assert(all_digits(s.drop_last()));
        lemma_decimal_value_nonneg(s.drop_last());
        assert(is_digit(s[s.len() - 1]));
    }
}

/// Reads a width from toolbar input text and clamps it to the pen's range.
pub fn width_from_input(s: &str) -> (r: Option<u32>)
    ensures
        match width_of_input(s@) {
            Some(w) => r == Some(w as u32),
            None => r is None,
        },
{
    let len = s.unicode_len();
    let mut start: usize = 0;
    if len > 0 && s.get_char(0) == '+' {
        start = 1;
    }
    if start >= len {
        proof {
            assert(literal_digits(s@).len() == 0);
        }
        return None;
    }
    let ghost d = literal_digits(s@);
    assert(d =~= s@.subrange(start as int, len as int));
    let mut acc: u32 = 0;
    let mut i: usize = start;
    while i < len
        invariant
            start <= i <= len,
            len == s@.len(),
            d == s@.subrange(start as int, len as int),
            d == literal_digits(s@),
            all_digits(s@.subrange(start as int, i as int)),
            acc as int == if decimal_value(s@.subrange(start as int, i as int)) < PARSE_CAP {
                decimal_value(s@.subrange(start as int, i as int))
            } else {
                PARSE_CAP as int
            },
        decreases len - i,
    {
        let c = s.get_char(i);
        if !('0' <= c && c <= '9') {
            proof {
                assert(d[i - start] == c);
                assert(!is_digit(d[i - start]));
                assert(!all_digits(d));
            }
            return None;
        }
        let ghost prev = s@.subrange(start as int, i as int);
        let ghost next = s@.subrange(start as int, i + 1);
        proof {
            assert(next.drop_last() =~= prev);
            assert(next.last() == c);
            assert(all_digits(next));
            lemma_decimal_value_nonneg(prev);
        }
        let v: u32 = acc * 10 + (c as u32 - '0' as u32);
        acc = if v < PARSE_CAP { v } else { PARSE_CAP };
        i = i + 1;
    }
    assert(s@.subrange(start as int, len as int) == d);
    let w = if acc < MIN_WIDTH {
        MIN_WIDTH
    } else if acc > MAX_WIDTH {
        MAX_WIDTH
    } else {
        acc
    };
    Some(w)
}

/// What a pen configuration holds: its colour text and its line width.
pub struct StyleView {
    pub color: Seq<char>,
    pub width: int,
}

/// The current pen: a CSS colour and a line width that always lies in
/// `[MIN_WIDTH, MAX_WIDTH]`.
pub struct StrokeStyle {
    color: String,
    width_px: u32,
}

impl View for StrokeStyle {
    type V = StyleView;

    closed spec fn view(&self) -> StyleView {
        StyleView { color: self.color@, width: self.width_px as int }
    }
}

impl StrokeStyle {
    #[verifier::type_invariant]
    spec fn width_in_range(&self) -> bool {
        MIN_WIDTH <= self.width_px <= MAX_WIDTH
    }

    /// A black pen, one pixel wide.
    pub fn new() -> (r: Self)
        ensures
            r@.color == "#000000"@,
            r@.width == 1,
    {
        StrokeStyle { color: String::from_str("#000000"), width_px: 1 }
    }

    pub fn color(&self) -> (r: &String)
        ensures
            r@ == self@.color,
    {
        &self.color
    }

    pub fn width_px(&self) -> (r: u32)
        ensures
            r == self@.width,
            MIN_WIDTH <= r <= MAX_WIDTH,
    {
        proof {
            use_type_invariant(self);
        }
        self.width_px
    }

    /// Takes the colour that the colour input reports, as it is.
    pub fn set_color(&mut self, color: String)
        ensures
            final(self)@ == (StyleView { color: color@, width: old(self)@.width }),
            MIN_WIDTH <= final(self)@.width <= MAX_WIDTH,
        no_unwind
    {
        proof {
            use_type_invariant(&*self);
        }
        self.color = color;
    }

    /// Sets the line width, which must lie in the pen's range.
    pub fn set_width_px(&mut self, width_px: u32)
        requires
            MIN_WIDTH <= width_px <= MAX_WIDTH,
        ensures
            final(self)@ == (StyleView { color: old(self)@.color, width: width_px as int }),
        no_unwind
    {
        self.width_px = width_px;
    }
}

} // verus!
