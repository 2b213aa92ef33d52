//! Renders a pair of signed integers as a Unicode "vulgar fraction".
//!
//! A handful of common fractions have precomposed single-character glyphs
//! (such as the one for one half); every other pair is rendered as the
//! superscript form of the numerator, the fraction-slash character, and the
//! subscript form of the denominator.
use vstd::prelude::*;

pub mod parsing;
pub mod single_character_fractions;
pub mod transformation;

verus! {

/// The fraction slash, U+2044, which separates the numerator glyphs from the
/// denominator glyphs in a constructed rendering.
pub const FRACTION_SLASH: char = '\u{2044}';

/// A pair of a numerator and a denominator. The pair is taken as it is:
/// it is not reduced, and a denominator of zero is not rejected.
#[derive(Clone, Copy, PartialEq, Eq, Structural)]
pub struct VulgarFraction {
    pub numerator: i64,
    pub denominator: i64,
}

/// The constructed rendering of a pair that has no precomposed glyph:
/// the superscript glyphs of the numerator, the fraction slash, and the
/// subscript glyphs of the denominator, each side with a minus glyph when
/// negative.
pub open spec fn spec_generic_render(numerator: int, denominator: int) -> Seq<char> {
    transformation::spec_signed_glyphs(transformation::Script::Superscript, numerator) + seq![
        FRACTION_SLASH,
    ] + transformation::spec_signed_glyphs(transformation::Script::Subscript, denominator)
}

/// The rendering of a pair: the single glyph of the precomposed fraction
/// when the table has the exact pair, and the constructed rendering
/// otherwise.
pub open spec fn spec_render(numerator: i64, denominator: i64) -> Seq<char> {
    match single_character_fractions::spec_lookup(numerator, denominator) {
        Some(glyph) => seq![glyph],
        None => spec_generic_render(numerator as int, denominator as int),
    }
}

/// Relies on `String::from_iter` (through `Iterator::collect`): the string
/// holds exactly the characters of the vector, in order.
#[verifier::external_body]
fn chars_to_string(chars: Vec<char>) -> (s: String)
    ensures
        s@ == chars@,
{
    chars.into_iter().collect()
}

impl VulgarFraction {
    /// Builds the pair as given, without reduction or validation.
    pub fn new(numerator: i64, denominator: i64) -> (fraction: Self)
        ensures
            fraction == (VulgarFraction { numerator, denominator }),
    {
        VulgarFraction { numerator, denominator }
    }

    /// Renders the pair as a Unicode vulgar fraction.
    pub fn render(&self) -> (s: String)
        ensures
            s@ == spec_render(self.numerator, self.denominator),
    {
        let mut out: Vec<char> = Vec::new();
        match single_character_fractions::find_single_character_fraction(
            self.numerator,
            self.denominator,
        ) {
            Some(glyph) => {
                out.push(glyph);
            },
            None => {
                transformation::Script::Superscript.push_signed(&mut out, self.numerator);
                out.push(FRACTION_SLASH);
                transformation::Script::Subscript.push_signed(&mut out, self.denominator);
                assert(out@ =~= spec_render(self.numerator, self.denominator));
            },
        }
        chars_to_string(out)
    }
}

/// Every entry of the special table takes precedence over the constructed
/// path: the pair of entry `i` renders as exactly the one glyph the entry
/// stores.
pub proof fn lemma_render_special_entry(i: int)
    requires
        0 <= i < single_character_fractions::spec_single_character_fractions().len(),
    ensures
        spec_render(
            single_character_fractions::spec_single_character_fractions()[i].0.0,
            single_character_fractions::spec_single_character_fractions()[i].0.1,
        ) == seq![single_character_fractions::spec_single_character_fractions()[i].1],
{
    let t = single_character_fractions::spec_single_character_fractions();
    single_character_fractions::lemma_lookup_found(t[i].0.0, t[i].0.1, i);
}

/// A pair that matches no entry of the special table renders as the
/// constructed sequence: superscript numerator, fraction slash, subscript
/// denominator.
pub proof fn lemma_render_generic(numerator: i64, denominator: i64)
    requires
        forall|i: int|
            0 <= i < single_character_fractions::spec_single_character_fractions().len()
                ==> (#[trigger] single_character_fractions::spec_single_character_fractions()[i].0)
                != (numerator, denominator),
    ensures
        spec_render(numerator, denominator) == spec_generic_render(
            numerator as int,
            denominator as int,
        ),
{
    single_character_fractions::lemma_lookup_none(numerator, denominator);
}

} // verus!
