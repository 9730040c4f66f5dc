//! The composition table: a base letter and its accent bits give one
//! precomposed character.

use vstd::prelude::*;

use crate::alphabet::{
    or_nul, ACUTE, CIRCUMFLEX, DIAERESIS, GRAVE, IOTA, ROUGH, SIGMA1, SIGMA2, SIGMA3, SMOOTH,
};

verus! {

// The combinations of two marks that the table knows.
pub const SMOOTH_ACUTE: u16 = SMOOTH | ACUTE;
pub const SMOOTH_GRAVE: u16 = SMOOTH | GRAVE;
pub const ROUGH_ACUTE: u16 = ROUGH | ACUTE;
pub const ROUGH_GRAVE: u16 = ROUGH | GRAVE;
pub const CIRCUMFLEX_ROUGH: u16 = ROUGH | CIRCUMFLEX;
pub const CIRCUMFLEX_SMOOTH: u16 = SMOOTH | CIRCUMFLEX;
pub const DIAERESIS_ACUTE: u16 = DIAERESIS | ACUTE;
pub const DIAERESIS_GRAVE: u16 = DIAERESIS | GRAVE;

/// The precomposed character for a letter with a non-empty set of accent
/// bits, where Unicode has one and the table lists it.
///
/// Where Unicode has no precomposed capital for a combination, the table has
/// no row and the combination is refused.
#[verifier::opaque]
pub open spec fn composition(c: char, accents: u16) -> Option<char> {
    match (c, accents) {
        ('α', SMOOTH) => Some('ἀ'),
        ('ε', SMOOTH) => Some('ἐ'),
        ('ι', SMOOTH) => Some('ἰ'),
        ('η', SMOOTH) => Some('ἠ'),
        ('ο', SMOOTH) => Some('ὀ'),
        ('ω', SMOOTH) => Some('ὠ'),
        ('υ', SMOOTH) => Some('ὐ'),
        ('Α', SMOOTH) => Some('Ἀ'),
        ('Ε', SMOOTH) => Some('Ἐ'),
        ('Ι', SMOOTH) => Some('Ἰ'),
        ('Η', SMOOTH) => Some('Ἠ'),
        ('Ο', SMOOTH) => Some('Ὀ'),
        ('Ω', SMOOTH) => Some('Ὠ'),
        ('α', ROUGH) => Some('ἁ'),
        ('ε', ROUGH) => Some('ἑ'),
        ('ι', ROUGH) => Some('ἱ'),
        ('η', ROUGH) => Some('ἡ'),
        ('ο', ROUGH) => Some('ὁ'),
        ('ω', ROUGH) => Some('ὡ'),
        ('υ', ROUGH) => Some('ὑ'),
        ('ρ', ROUGH) => Some('ῥ'),
        ('Α', ROUGH) => Some('Ἁ'),
        ('Ε', ROUGH) => Some('Ἑ'),
        ('Ι', ROUGH) => Some('Ἱ'),
        ('Η', ROUGH) => Some('Ἡ'),
        ('Ο', ROUGH) => Some('Ὁ'),
        ('Ω', ROUGH) => Some('Ὡ'),
        ('Υ', ROUGH) => Some('Ὑ'),
        ('Ρ', ROUGH) => Some('Ῥ'),
        ('α', ACUTE) => Some('ά'),
        ('ε', ACUTE) => Some('έ'),
        ('ι', ACUTE) => Some('ί'),
        ('η', ACUTE) => Some('ή'),
        ('ο', ACUTE) => Some('ό'),
        ('ω', ACUTE) => Some('ώ'),
        ('υ', ACUTE) => Some('ύ'),
        ('Α', ACUTE) => Some('Ά'),
        ('Ε', ACUTE) => Some('Έ'),
        ('Ι', ACUTE) => Some('Ί'),
        ('Η', ACUTE) => Some('Ή'),
        ('Ο', ACUTE) => Some('Ό'),
        ('Ω', ACUTE) => Some('Ώ'),
        ('Υ', ACUTE) => Some('Ύ'),
        ('α', GRAVE) => Some('ὰ'),
        ('ε', GRAVE) => Some('ὲ'),
        ('ι', GRAVE) => Some('ὶ'),
        ('η', GRAVE) => Some('ὴ'),
        ('ο', GRAVE) => Some('ὸ'),
        ('ω', GRAVE) => Some('ὼ'),
        ('υ', GRAVE) => Some('ὺ'),
        ('Α', GRAVE) => Some('Ὰ'),
        ('Ε', GRAVE) => Some('Ὲ'),
        ('Ι', GRAVE) => Some('Ὶ'),
        ('Η', GRAVE) => Some('Ὴ'),
        ('Ο', GRAVE) => Some('Ὸ'),
        ('Ω', GRAVE) => Some('Ὼ'),
        ('Υ', GRAVE) => Some('Ὺ'),
        ('α', CIRCUMFLEX) => Some('ᾶ'),
        ('ι', CIRCUMFLEX) => Some('ῖ'),
        ('η', CIRCUMFLEX) => Some('ῆ'),
        ('ω', CIRCUMFLEX) => Some('ῶ'),
        ('υ', CIRCUMFLEX) => Some('ῦ'),
        ('α', IOTA) => Some('ᾳ'),
        ('η', IOTA) => Some('ῃ'),
        ('ω', IOTA) => Some('ῳ'),
        ('α', SMOOTH_GRAVE) => Some('ἂ'),
        ('ε', SMOOTH_GRAVE) => Some('ἒ'),
        ('ι', SMOOTH_GRAVE) => Some('ἲ'),
        ('η', SMOOTH_GRAVE) => Some('ἢ'),
        ('ο', SMOOTH_GRAVE) => Some('ὂ'),
        ('ω', SMOOTH_GRAVE) => Some('ὢ'),
        ('υ', SMOOTH_GRAVE) => Some('ὒ'),
        ('Α', SMOOTH_GRAVE) => Some('Ἂ'),
        ('Ε', SMOOTH_GRAVE) => Some('Ἒ'),
        ('Ι', SMOOTH_GRAVE) => Some('Ἲ'),
        ('Η', SMOOTH_GRAVE) => Some('Ἢ'),
        ('Ο', SMOOTH_GRAVE) => Some('Ὂ'),
        ('Ω', SMOOTH_GRAVE) => Some('Ὢ'),
        ('α', ROUGH_GRAVE) => Some('ἃ'),
        ('ε', ROUGH_GRAVE) => Some('ἓ'),
        ('ι', ROUGH_GRAVE) => Some('ἳ'),
        ('η', ROUGH_GRAVE) => Some('ἣ'),
        ('ο', ROUGH_GRAVE) => Some('ὃ'),
        ('ω', ROUGH_GRAVE) => Some('ὣ'),
        ('υ', ROUGH_GRAVE) => Some('ὓ'),
        ('Α', ROUGH_GRAVE) => Some('Ἃ'),
        ('Ε', ROUGH_GRAVE) => Some('Ἓ'),
        ('Ι', ROUGH_GRAVE) => Some('Ἳ'),
        ('Η', ROUGH_GRAVE) => Some('Ἣ'),
        ('Ο', ROUGH_GRAVE) => Some('Ὃ'),
        ('Ω', ROUGH_GRAVE) => Some('Ὣ'),
        ('Υ', ROUGH_GRAVE) => Some('Ὓ'),
        ('α', SMOOTH_ACUTE) => Some('ἄ'),
        ('ε', SMOOTH_ACUTE) => Some('ἔ'),
        ('ι', SMOOTH_ACUTE) => Some('ἴ'),
        ('η', SMOOTH_ACUTE) => Some('ἤ'),
        ('ο', SMOOTH_ACUTE) => Some('ὄ'),
        ('ω', SMOOTH_ACUTE) => Some('ὤ'),
        ('υ', SMOOTH_ACUTE) => Some('ὔ'),
        ('Α', SMOOTH_ACUTE) => Some('Ἄ'),
        ('Ε', SMOOTH_ACUTE) => Some('Ἔ'),
        ('Ι', SMOOTH_ACUTE) => Some('Ἴ'),
        ('Η', SMOOTH_ACUTE) => Some('Ἤ'),
        ('Ο', SMOOTH_ACUTE) => Some('Ὄ'),
        ('Ω', SMOOTH_ACUTE) => Some('Ὤ'),
        ('α', ROUGH_ACUTE) => Some('ἅ'),
        ('ε', ROUGH_ACUTE) => Some('ἕ'),
        ('ι', ROUGH_ACUTE) => Some('ἵ'),
        ('η', ROUGH_ACUTE) => Some('ἥ'),
        ('ο', ROUGH_ACUTE) => Some('ὅ'),
        ('ω', ROUGH_ACUTE) => Some('ὥ'),
        ('υ', ROUGH_ACUTE) => Some('ὕ'),
        ('Α', ROUGH_ACUTE) => Some('Ἅ'),
        ('Ε', ROUGH_ACUTE) => Some('Ἕ'),
        ('Ι', ROUGH_ACUTE) => Some('Ἵ'),
        ('Η', ROUGH_ACUTE) => Some('Ἥ'),
        ('Ο', ROUGH_ACUTE) => Some('Ὅ'),
        ('Ω', ROUGH_ACUTE) => Some('Ὥ'),
        ('Υ', ROUGH_ACUTE) => Some('Ὕ'),
        ('ι', DIAERESIS) => Some('ϊ'),
        ('υ', DIAERESIS) => Some('ϋ'),
        ('Ι', DIAERESIS) => Some('Ϊ'),
        ('Υ', DIAERESIS) => Some('Ϋ'),
        ('ι', DIAERESIS_GRAVE) => Some('ῒ'),
        ('υ', DIAERESIS_GRAVE) => Some('ῢ'),
        ('ι', DIAERESIS_ACUTE) => Some('ΐ'),
        ('υ', DIAERESIS_ACUTE) => Some('ΰ'),
        ('α', CIRCUMFLEX_SMOOTH) => Some('ἆ'),
        ('η', CIRCUMFLEX_SMOOTH) => Some('ἦ'),
        ('ι', CIRCUMFLEX_SMOOTH) => Some('ἶ'),
        ('ω', CIRCUMFLEX_SMOOTH) => Some('ὦ'),
        ('υ', CIRCUMFLEX_SMOOTH) => Some('ὖ'),
        ('Α', CIRCUMFLEX_SMOOTH) => Some('Ἆ'),
        ('Η', CIRCUMFLEX_SMOOTH) => Some('Ἦ'),
        ('Ι', CIRCUMFLEX_SMOOTH) => Some('Ἶ'),
        ('Ω', CIRCUMFLEX_SMOOTH) => Some('Ὦ'),
        ('α', CIRCUMFLEX_ROUGH) => Some('ἇ'),
        ('η', CIRCUMFLEX_ROUGH) => Some('ἧ'),
        ('ι', CIRCUMFLEX_ROUGH) => Some('ἷ'),
        ('ω', CIRCUMFLEX_ROUGH) => Some('ὧ'),
        ('υ', CIRCUMFLEX_ROUGH) => Some('ὗ'),
        ('Α', CIRCUMFLEX_ROUGH) => Some('Ἇ'),
        ('Η', CIRCUMFLEX_ROUGH) => Some('Ἧ'),
        ('Ι', CIRCUMFLEX_ROUGH) => Some('Ἷ'),
        ('Ω', CIRCUMFLEX_ROUGH) => Some('Ὧ'),
        ('Υ', CIRCUMFLEX_ROUGH) => Some('Ὗ'),
        ('σ', SIGMA1) => Some('σ'),
        ('σ', SIGMA2) => Some('ς'),
        ('σ', SIGMA3) => Some('ϲ'),
        ('Σ', SIGMA1) => Some('Σ'),
        ('Σ', SIGMA2) => Some('Σ'),
        ('Σ', SIGMA3) => Some('Ϲ'),
        _ => None,
    }
}

/// A letter with its accent bits: unchanged when there are none, else its
/// entry in the composition table.
pub open spec fn accented(c: char, accents: u16) -> Option<char> {
    if accents == 0 {
        Some(c)
    } else {
        composition(c, accents)
    }
}

/// Composes a letter with its accent bits, or gives `'\0'` where the table has
/// no such pair.
pub fn apply_accent(c: char, accents: u16) -> (r: char)
    ensures
        r == if accents == 0 { c } else { or_nul(composition(c, accents)) },
        r == or_nul(accented(c, accents)),
        c != '\0' ==> (r == '\0' <==> accented(c, accents) is None),
{
    reveal(composition);
    if accents == 0 {
        return c;
    }
    match (c, accents) {
        ('α', SMOOTH) => 'ἀ',
        ('ε', SMOOTH) => 'ἐ',
        ('ι', SMOOTH) => 'ἰ',
        ('η', SMOOTH) => 'ἠ',
        ('ο', SMOOTH) => 'ὀ',
        ('ω', SMOOTH) => 'ὠ',
        ('υ', SMOOTH) => 'ὐ',
        ('Α', SMOOTH) => 'Ἀ',
        ('Ε', SMOOTH) => 'Ἐ',
        ('Ι', SMOOTH) => 'Ἰ',
        ('Η', SMOOTH) => 'Ἠ',
        ('Ο', SMOOTH) => 'Ὀ',
        ('Ω', SMOOTH) => 'Ὠ',
        ('α', ROUGH) => 'ἁ',
        ('ε', ROUGH) => 'ἑ',
        ('ι', ROUGH) => 'ἱ',
        ('η', ROUGH) => 'ἡ',
        ('ο', ROUGH) => 'ὁ',
        ('ω', ROUGH) => 'ὡ',
        ('υ', ROUGH) => 'ὑ',
        ('ρ', ROUGH) => 'ῥ',
        ('Α', ROUGH) => 'Ἁ',
        ('Ε', ROUGH) => 'Ἑ',
        ('Ι', ROUGH) => 'Ἱ',
        ('Η', ROUGH) => 'Ἡ',
        ('Ο', ROUGH) => 'Ὁ',
        ('Ω', ROUGH) => 'Ὡ',
        ('Υ', ROUGH) => 'Ὑ',
        ('Ρ', ROUGH) => 'Ῥ',
        ('α', ACUTE) => 'ά',
        ('ε', ACUTE) => 'έ',
        ('ι', ACUTE) => 'ί',
        ('η', ACUTE) => 'ή',
        ('ο', ACUTE) => 'ό',
        ('ω', ACUTE) => 'ώ',
        ('υ', ACUTE) => 'ύ',
        ('Α', ACUTE) => 'Ά',
        ('Ε', ACUTE) => 'Έ',
        ('Ι', ACUTE) => 'Ί',
        ('Η', ACUTE) => 'Ή',
        ('Ο', ACUTE) => 'Ό',
        ('Ω', ACUTE) => 'Ώ',
        ('Υ', ACUTE) => 'Ύ',
        ('α', GRAVE) => 'ὰ',
        ('ε', GRAVE) => 'ὲ',
        ('ι', GRAVE) => 'ὶ',
        ('η', GRAVE) => 'ὴ',
        ('ο', GRAVE) => 'ὸ',
        ('ω', GRAVE) => 'ὼ',
        ('υ', GRAVE) => 'ὺ',
        ('Α', GRAVE) => 'Ὰ',
        ('Ε', GRAVE) => 'Ὲ',
        ('Ι', GRAVE) => 'Ὶ',
        ('Η', GRAVE) => 'Ὴ',
        ('Ο', GRAVE) => 'Ὸ',
        ('Ω', GRAVE) => 'Ὼ',
        ('Υ', GRAVE) => 'Ὺ',
        ('α', CIRCUMFLEX) => 'ᾶ',
        ('ι', CIRCUMFLEX) => 'ῖ',
        ('η', CIRCUMFLEX) => 'ῆ',
        ('ω', CIRCUMFLEX) => 'ῶ',
        ('υ', CIRCUMFLEX) => 'ῦ',
        ('α', IOTA) => 'ᾳ',
        ('η', IOTA) => 'ῃ',
        ('ω', IOTA) => 'ῳ',
        ('α', SMOOTH_GRAVE) => 'ἂ',
        ('ε', SMOOTH_GRAVE) => 'ἒ',
        ('ι', SMOOTH_GRAVE) => 'ἲ',
        ('η', SMOOTH_GRAVE) => 'ἢ',
        ('ο', SMOOTH_GRAVE) => 'ὂ',
        ('ω', SMOOTH_GRAVE) => 'ὢ',
        ('υ', SMOOTH_GRAVE) => 'ὒ',
        ('Α', SMOOTH_GRAVE) => 'Ἂ',
        ('Ε', SMOOTH_GRAVE) => 'Ἒ',
        ('Ι', SMOOTH_GRAVE) => 'Ἲ',
        ('Η', SMOOTH_GRAVE) => 'Ἢ',
        ('Ο', SMOOTH_GRAVE) => 'Ὂ',
        ('Ω', SMOOTH_GRAVE) => 'Ὢ',
        ('α', ROUGH_GRAVE) => 'ἃ',
        ('ε', ROUGH_GRAVE) => 'ἓ',
        ('ι', ROUGH_GRAVE) => 'ἳ',
        ('η', ROUGH_GRAVE) => 'ἣ',
        ('ο', ROUGH_GRAVE) => 'ὃ',
        ('ω', ROUGH_GRAVE) => 'ὣ',
        ('υ', ROUGH_GRAVE) => 'ὓ',
        ('Α', ROUGH_GRAVE) => 'Ἃ',
        ('Ε', ROUGH_GRAVE) => 'Ἓ',
        ('Ι', ROUGH_GRAVE) => 'Ἳ',
        ('Η', ROUGH_GRAVE) => 'Ἣ',
        ('Ο', ROUGH_GRAVE) => 'Ὃ',
        ('Ω', ROUGH_GRAVE) => 'Ὣ',
        ('Υ', ROUGH_GRAVE) => 'Ὓ',
        ('α', SMOOTH_ACUTE) => 'ἄ',
        ('ε', SMOOTH_ACUTE) => 'ἔ',
        ('ι', SMOOTH_ACUTE) => 'ἴ',
        ('η', SMOOTH_ACUTE) => 'ἤ',
        ('ο', SMOOTH_ACUTE) => 'ὄ',
        ('ω', SMOOTH_ACUTE) => 'ὤ',
        ('υ', SMOOTH_ACUTE) => 'ὔ',
        ('Α', SMOOTH_ACUTE) => 'Ἄ',
        ('Ε', SMOOTH_ACUTE) => 'Ἔ',
        ('Ι', SMOOTH_ACUTE) => 'Ἴ',
        ('Η', SMOOTH_ACUTE) => 'Ἤ',
        ('Ο', SMOOTH_ACUTE) => 'Ὄ',
        ('Ω', SMOOTH_ACUTE) => 'Ὤ',
        ('α', ROUGH_ACUTE) => 'ἅ',
        ('ε', ROUGH_ACUTE) => 'ἕ',
        ('ι', ROUGH_ACUTE) => 'ἵ',
        ('η', ROUGH_ACUTE) => 'ἥ',
        ('ο', ROUGH_ACUTE) => 'ὅ',
        ('ω', ROUGH_ACUTE) => 'ὥ',
        ('υ', ROUGH_ACUTE) => 'ὕ',
        ('Α', ROUGH_ACUTE) => 'Ἅ',
        ('Ε', ROUGH_ACUTE) => 'Ἕ',
        ('Ι', ROUGH_ACUTE) => 'Ἵ',
        ('Η', ROUGH_ACUTE) => 'Ἥ',
        ('Ο', ROUGH_ACUTE) => 'Ὅ',
        ('Ω', ROUGH_ACUTE) => 'Ὥ',
        ('Υ', ROUGH_ACUTE) => 'Ὕ',
        ('ι', DIAERESIS) => 'ϊ',
        ('υ', DIAERESIS) => 'ϋ',
        ('Ι', DIAERESIS) => 'Ϊ',
        ('Υ', DIAERESIS) => 'Ϋ',
        ('ι', DIAERESIS_GRAVE) => 'ῒ',
        ('υ', DIAERESIS_GRAVE) => 'ῢ',
        ('ι', DIAERESIS_ACUTE) => 'ΐ',
        ('υ', DIAERESIS_ACUTE) => 'ΰ',
        ('α', CIRCUMFLEX_SMOOTH) => 'ἆ',
        ('η', CIRCUMFLEX_SMOOTH) => 'ἦ',
        ('ι', CIRCUMFLEX_SMOOTH) => 'ἶ',
        ('ω', CIRCUMFLEX_SMOOTH) => 'ὦ',
        ('υ', CIRCUMFLEX_SMOOTH) => 'ὖ',
        ('Α', CIRCUMFLEX_SMOOTH) => 'Ἆ',
        ('Η', CIRCUMFLEX_SMOOTH) => 'Ἦ',
        ('Ι', CIRCUMFLEX_SMOOTH) => 'Ἶ',
        ('Ω', CIRCUMFLEX_SMOOTH) => 'Ὦ',
        ('α', CIRCUMFLEX_ROUGH) => 'ἇ',
        ('η', CIRCUMFLEX_ROUGH) => 'ἧ',
        ('ι', CIRCUMFLEX_ROUGH) => 'ἷ',
        ('ω', CIRCUMFLEX_ROUGH) => 'ὧ',
        ('υ', CIRCUMFLEX_ROUGH) => 'ὗ',
        ('Α', CIRCUMFLEX_ROUGH) => 'Ἇ',
        ('Η', CIRCUMFLEX_ROUGH) => 'Ἧ',
        ('Ι', CIRCUMFLEX_ROUGH) => 'Ἷ',
        ('Ω', CIRCUMFLEX_ROUGH) => 'Ὧ',
        ('Υ', CIRCUMFLEX_ROUGH) => 'Ὗ',
        ('σ', SIGMA1) => 'σ',
        ('σ', SIGMA2) => 'ς',
        ('σ', SIGMA3) => 'ϲ',
        ('Σ', SIGMA1) => 'Σ',
        ('Σ', SIGMA2) => 'Σ',
        ('Σ', SIGMA3) => 'Ϲ',
        _ => '\0',
    }
}

/// Whether `a` and `b` are the medial and final sigma selectors on capital
/// sigma, which has no final form: both give `Σ`.
pub open spec fn shared_composition(c: char, a: u16, b: u16) -> bool {
    c == 'Σ' && ((a == SIGMA1 && b == SIGMA2) || (a == SIGMA2 && b == SIGMA1))
}

spec fn distinct_in_row(c: char, a: u16, b: u16) -> bool {
    composition(c, a) is Some && composition(c, b) is Some ==> composition(c, a) != composition(
        c,
        b,
    )
}

/// For one letter, two different accent sets that both have an entry in the
/// composition table give two different characters, but for the capital
/// sigma pair that `shared_composition` names.
pub proof fn lemma_composition_distinct(c: char, a: u16, b: u16)
    requires
        a != b,
        !shared_composition(c, a, b),
    ensures
        composition(c, a) is Some && composition(c, b) is Some ==> composition(c, a)
            != composition(c, b),
{
    // The whole table at once is too much for the solver: fixing the letter
    // first leaves one row of a few entries for each branch.
    if c == 'α' {
        assert(distinct_in_row(c, a, b)) by { reveal(composition) }
    } else if c == 'ε' {
        assert(distinct_in_row(c, a, b)) by { reveal(composition) }
    } else if c == 'ι' {
        assert(distinct_in_row(c, a, b)) by { reveal(composition) }
    } else if c == 'η' {
        assert(distinct_in_row(c, a, b)) by { reveal(composition) }
    } else if c == 'ο' {
        assert(distinct_in_row(c, a, b)) by { reveal(composition) }
    } else if c == 'ω' {
        assert(distinct_in_row(c, a, b)) by { reveal(composition) }
    } else if c == 'υ' {
        assert(distinct_in_row(c, a, b)) by { reveal(composition) }
    } else if c == 'Α' {
        assert(distinct_in_row(c, a, b)) by { reveal(composition) }
    } else if c == 'Ε' {
        assert(distinct_in_row(c, a, b)) by { reveal(composition) }
    } else if c == 'Ι' {
        assert(distinct_in_row(c, a, b)) by { reveal(composition) }
    } else if c == 'Η' {
        assert(distinct_in_row(c, a, b)) by { reveal(composition) }
    } else if c == 'Ο' {
        assert(distinct_in_row(c, a, b)) by { reveal(composition) }
    } else if c == 'Ω' {
        assert(distinct_in_row(c, a, b)) by { reveal(composition) }
    } else if c == 'ρ' {
        assert(distinct_in_row(c, a, b)) by { reveal(composition) }
    } else if c == 'Υ' {
        assert(distinct_in_row(c, a, b)) by { reveal(composition) }
    } else if c == 'Ρ' {
        assert(distinct_in_row(c, a, b)) by { reveal(composition) }
    } else if c == 'σ' {
        assert(distinct_in_row(c, a, b)) by { reveal(composition) }
    } else if c == 'Σ' {
        assert(distinct_in_row(c, a, b)) by { reveal(composition) }
    } else {
        assert(composition(c, a) is None) by { reveal(composition) }
    }
}

} // verus!
