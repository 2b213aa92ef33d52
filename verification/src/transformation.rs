//! Digit-by-digit rendering of integer magnitudes in the superscript and
//! subscript Unicode digit alphabets.
use vstd::prelude::*;

verus! {

/// Which of the two digit alphabets a glyph is drawn from: superscript for
/// numerators, subscript for denominators.
#[derive(Clone, Copy, PartialEq, Eq, Structural)]
pub enum Script {
    Superscript,
    Subscript,
}

/// The glyph for one decimal digit (`0 <= digit <= 9`) in the given script.
pub open spec fn spec_digit_glyph(script: Script, digit: int) -> char {
    match script {
        Script::Superscript => if digit == 0 {
            '\u{2070}'
        } else if digit == 1 {
            '\u{00B9}'
        } else if digit == 2 {
            '\u{00B2}'
        } else if digit == 3 {
            '\u{00B3}'
        } else if digit == 4 {
            '\u{2074}'
        } else if digit == 5 {
            '\u{2075}'
        } else if digit == 6 {
            '\u{2076}'
        } else if digit == 7 {
            '\u{2077}'
        } else if digit == 8 {
            '\u{2078}'
        } else {
            '\u{2079}'
        },
        Script::Subscript => if digit == 0 {
            '\u{2080}'
        } else if digit == 1 {
            '\u{2081}'
        } else if digit == 2 {
            '\u{2082}'
        } else if digit == 3 {
            '\u{2083}'
        } else if digit == 4 {
            '\u{2084}'
        } else if digit == 5 {
            '\u{2085}'
        } else if digit == 6 {
            '\u{2086}'
        } else if digit == 7 {
            '\u{2087}'
        } else if digit == 8 {
            '\u{2088}'
        } else {
            '\u{2089}'
        },
    }
}

/// The minus glyph of the given script.
pub open spec fn spec_minus_glyph(script: Script) -> char {
    match script {
        Script::Superscript => '\u{207B}',
        Script::Subscript => '\u{208B}',
    }
}

/// The decimal digit glyphs of a magnitude, most significant digit first;
/// the magnitude zero is a single zero glyph.
pub open spec fn spec_magnitude_glyphs(script: Script, magnitude: nat) -> Seq<char>
    decreases magnitude,
{
    if magnitude < 10 {
        seq![spec_digit_glyph(script, magnitude as int)]
    } else {
        spec_magnitude_glyphs(script, magnitude / 10) + seq![
            spec_digit_glyph(script, (magnitude % 10) as int),
        ]
    }
}

/// The glyphs of a signed value: a minus glyph when the value is negative,
/// then the digit glyphs of its absolute value.
pub open spec fn spec_signed_glyphs(script: Script, value: int) -> Seq<char> {
    if value < 0 {
        seq![spec_minus_glyph(script)] + spec_magnitude_glyphs(script, (-value) as nat)
    } else {
        spec_magnitude_glyphs(script, value as nat)
    }
}

impl Script {
    /// The glyph for one decimal digit in this script.
    pub fn digit_glyph(self, digit: u8) -> (glyph: char)
        requires
            digit < 10,
        ensures
            glyph == spec_digit_glyph(self, digit as int),
    {
        match self {
            Script::Superscript => match digit {
                0 => '\u{2070}',
                1 => '\u{00B9}',
                2 => '\u{00B2}',
                3 => '\u{00B3}',
                4 => '\u{2074}',
                5 => '\u{2075}',
                6 => '\u{2076}',
                7 => '\u{2077}',
                8 => '\u{2078}',
                _ => '\u{2079}',
            },
            Script::Subscript => match digit {
                0 => '\u{2080}',
                1 => '\u{2081}',
                2 => '\u{2082}',
                3 => '\u{2083}',
                4 => '\u{2084}',
                5 => '\u{2085}',
                6 => '\u{2086}',
                7 => '\u{2087}',
                8 => '\u{2088}',
                _ => '\u{2089}',
            },
        }
    }

    /// The minus glyph of this script.
    pub fn minus_glyph(self) -> (glyph: char)
        ensures
            glyph == spec_minus_glyph(self),
    {
        match self {
            Script::Superscript => '\u{207B}',
            Script::Subscript => '\u{208B}',
        }
    }

    /// Appends the digit glyphs of a magnitude, most significant first.
    pub fn push_magnitude(self, out: &mut Vec<char>, magnitude: u64)
        ensures
            final(out)@ == old(out)@ + spec_magnitude_glyphs(self, magnitude as nat),
        decreases magnitude,
    {
        if magnitude >= 10 {
            self.push_magnitude(out, magnitude / 10);
        }
        out.push(self.digit_glyph((magnitude % 10) as u8));
    }

    /// Appends the glyphs of a signed value: the minus glyph when the value
    /// is negative, then the digit glyphs of its absolute value. The absolute
    /// value is taken in unsigned arithmetic, so the most negative value is
    /// rendered like every other.
    pub fn push_signed(self, out: &mut Vec<char>, value: i64)
        ensures
            final(out)@ == old(out)@ + spec_signed_glyphs(self, value as int),
    {
        if value < 0 {
            out.push(self.minus_glyph());
            let magnitude: u64 = if value == i64::MIN {
                9223372036854775808
            } else {
                (-value) as u64
            };
            self.push_magnitude(out, magnitude);
            assert(out@ =~= old(out)@ + spec_signed_glyphs(self, value as int));
        } else {
            self.push_magnitude(out, value as u64);
        }
    }
}

} // verus!
