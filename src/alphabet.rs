//! Classification of single input bytes: whitespace, letters and accent marks.

use vstd::prelude::*;

use crate::Type;

verus! {

/// Acute accent, written `/`.
pub const ACUTE: u16 = 0x1;
/// Grave accent, written `\`.
pub const GRAVE: u16 = 0x2;
/// Circumflex, written `=` or `^`.
pub const CIRCUMFLEX: u16 = 0x4;
/// Diaeresis, written `+`.
pub const DIAERESIS: u16 = 0x8;
/// Rough breathing, written `(`.
pub const ROUGH: u16 = 0x10;
/// Smooth breathing, written `)`.
pub const SMOOTH: u16 = 0x20;
/// Iota subscript, written `|`.
pub const IOTA: u16 = 0x40;
/// Explicit medial sigma, written `1`.
pub const SIGMA1: u16 = 0x80;
/// Explicit final sigma, written `2`.
pub const SIGMA2: u16 = 0x100;
/// Explicit lunate sigma, written `3`.
pub const SIGMA3: u16 = 0x200;

/// Written before a capital letter, and read past.
pub const ASTERISK: u8 = 0x2a;

/// Closes an elided word.
pub const APOSTROPHE: u8 = 0x27;

/// The bytes that separate words: space, tab, carriage return and line feed.
pub open spec fn is_space(b: u8) -> bool {
    b == 0x20u8 || b == 0x09u8 || b == 0x0du8 || b == 0x0au8
}

/// The character that stands for "no character" in the executable tables.
pub open spec fn or_nul(o: Option<char>) -> char {
    match o {
        Some(c) => c,
        None => '\0',
    }
}

/// The accent bit that a marker byte stands for, or 0 for any other byte.
pub open spec fn mark_of(b: u8) -> u16 {
    if b == 0x2fu8 {
        ACUTE
    } else if b == 0x5cu8 {
        GRAVE
    } else if b == 0x28u8 {
        ROUGH
    } else if b == 0x29u8 {
        SMOOTH
    } else if b == 0x7cu8 {
        IOTA
    } else if b == 0x2bu8 {
        DIAERESIS
    } else if b == 0x3du8 || b == 0x5eu8 {
        CIRCUMFLEX
    } else if b == 0x31u8 {
        SIGMA1
    } else if b == 0x32u8 {
        SIGMA2
    } else if b == 0x33u8 {
        SIGMA3
    } else {
        0
    }
}

/// The letters that both dialects read alike. `t` and `T` give gamma, as
/// `g` and `G` do.
pub open spec fn shared_letter(b: u8) -> Option<char> {
    match b {
        0x61u8 => Some('α'), // a
        0x62u8 => Some('β'), // b
        0x64u8 => Some('δ'), // d
        0x65u8 => Some('ε'), // e
        0x66u8 => Some('φ'), // f
        0x67u8 => Some('γ'), // g
        0x68u8 => Some('η'), // h
        0x69u8 => Some('ι'), // i
        0x6bu8 => Some('κ'), // k
        0x6cu8 => Some('λ'), // l
        0x6du8 => Some('μ'), // m
        0x6eu8 => Some('ν'), // n
        0x6fu8 => Some('ο'), // o
        0x70u8 => Some('π'), // p
        0x71u8 => Some('θ'), // q
        0x72u8 => Some('ρ'), // r
        0x73u8 => Some('σ'), // s
        0x74u8 => Some('γ'), // t
        0x75u8 => Some('υ'), // u
        0x77u8 => Some('ω'), // w
        0x79u8 => Some('ψ'), // y
        0x7au8 => Some('ζ'), // z
        0x41u8 => Some('Α'), // A
        0x42u8 => Some('Β'), // B
        0x44u8 => Some('Δ'), // D
        0x45u8 => Some('Ε'), // E
        0x46u8 => Some('Φ'), // F
        0x47u8 => Some('Γ'), // G
        0x48u8 => Some('Η'), // H
        0x49u8 => Some('Ι'), // I
        0x4bu8 => Some('Κ'), // K
        0x4cu8 => Some('Λ'), // L
        0x4du8 => Some('Μ'), // M
        0x4eu8 => Some('Ν'), // N
        0x4fu8 => Some('Ο'), // O
        0x50u8 => Some('Π'), // P
        0x51u8 => Some('Θ'), // Q
        0x52u8 => Some('Ρ'), // R
        0x53u8 => Some('Σ'), // S
        0x54u8 => Some('Γ'), // T
        0x55u8 => Some('Υ'), // U
        0x57u8 => Some('Ω'), // W
        0x59u8 => Some('Ψ'), // Y
        0x5au8 => Some('Ζ'), // Z
        _ => None,
    }
}

/// The letters whose reading depends on the dialect.
pub open spec fn dialect_letter(b: u8, version: Type) -> Option<char> {
    match version {
        Type::Default => match b {
            0x76u8 => Some('σ'), // v
            0x56u8 => Some('Σ'), // V
            0x6au8 => Some('ς'), // j
            0x4au8 => Some('Σ'), // J
            0x63u8 => Some('χ'), // c
            0x43u8 => Some('χ'), // C
            _ => None,
        },
        Type::TLG => match b {
            0x76u8 => Some('ϝ'), // v
            0x56u8 => Some('Ϝ'), // V
            0x63u8 => Some('ξ'), // c
            0x43u8 => Some('Ξ'), // C
            0x78u8 => Some('χ'), // x
            0x58u8 => Some('Χ'), // X
            _ => None,
        },
    }
}

/// The base Greek letter that a byte stands for in the given dialect.
pub open spec fn letter_of(b: u8, version: Type) -> Option<char> {
    match shared_letter(b) {
        Some(l) => Some(l),
        None => dialect_letter(b, version),
    }
}

/// Whether a byte separates words.
pub fn is_ascii_whitespace(c: u8) -> (r: bool)
    ensures
        r == is_space(c),
{
    c == 0x20u8 || c == 0x0du8 || c == 0x0au8 || c == 0x09u8
}

/// The accent bit that a betacode marker byte stands for, or 0 where the
/// byte is no marker.
pub fn is_valid_betacode_symbol(c: u8) -> (r: u16)
    ensures
        r == mark_of(c),
{
    match c {
        0x2fu8 => ACUTE, // /
        0x5cu8 => GRAVE, // \
        0x28u8 => ROUGH, // (
        0x29u8 => SMOOTH, // )
        0x7cu8 => IOTA, // |
        0x2bu8 => DIAERESIS, // +
        0x3du8 => CIRCUMFLEX, // =
        0x5eu8 => CIRCUMFLEX, // ^
        0x31u8 => SIGMA1, // 1
        0x32u8 => SIGMA2, // 2
        0x33u8 => SIGMA3, // 3
        _ => 0,
    }
}

/// The base Greek letter of a byte in the given dialect, or `'\0'` where the
/// byte is no letter of that dialect.
pub fn lookup_greek_letter(c: u8, version: Type) -> (r: char)
    ensures
        r == or_nul(letter_of(c, version)),
        r != '\0' <==> letter_of(c, version) is Some,
{
    let o = match c {
        0x61u8 => 'α', // a
        0x62u8 => 'β', // b
        0x64u8 => 'δ', // d
        0x65u8 => 'ε', // e
        0x66u8 => 'φ', // f
        0x67u8 => 'γ', // g
        0x68u8 => 'η', // h
        0x69u8 => 'ι', // i
        0x6bu8 => 'κ', // k
        0x6cu8 => 'λ', // l
        0x6du8 => 'μ', // m
        0x6eu8 => 'ν', // n
        0x6fu8 => 'ο', // o
        0x70u8 => 'π', // p
        0x71u8 => 'θ', // q
        0x72u8 => 'ρ', // r
        0x73u8 => 'σ', // s
        0x74u8 => 'γ', // t
        0x75u8 => 'υ', // u
        0x77u8 => 'ω', // w
        0x79u8 => 'ψ', // y
        0x7au8 => 'ζ', // z
        0x41u8 => 'Α', // A
        0x42u8 => 'Β', // B
        0x44u8 => 'Δ', // D
        0x45u8 => 'Ε', // E
        0x46u8 => 'Φ', // F
        0x47u8 => 'Γ', // G
        0x48u8 => 'Η', // H
        0x49u8 => 'Ι', // I
        0x4bu8 => 'Κ', // K
        0x4cu8 => 'Λ', // L
        0x4du8 => 'Μ', // M
        0x4eu8 => 'Ν', // N
        0x4fu8 => 'Ο', // O
        0x50u8 => 'Π', // P
        0x51u8 => 'Θ', // Q
        0x52u8 => 'Ρ', // R
        0x53u8 => 'Σ', // S
        0x54u8 => 'Γ', // T
        0x55u8 => 'Υ', // U
        0x57u8 => 'Ω', // W
        0x59u8 => 'Ψ', // Y
        0x5au8 => 'Ζ', // Z
        _ => '\0',
    };
    if o != '\0' {
        return o;
    }
    match version {
        Type::Default => match c {
            0x76u8 => 'σ', // v
            0x56u8 => 'Σ', // V
            // some betacode systems write j for a final sigma
            0x6au8 => 'ς', // j
            0x4au8 => 'Σ', // J
            0x63u8 => 'χ', // c
            0x43u8 => 'χ', // C
            _ => '\0',
        },
        Type::TLG => match c {
            0x76u8 => 'ϝ', // v
            0x56u8 => 'Ϝ', // V
            0x63u8 => 'ξ', // c
            0x43u8 => 'Ξ', // C
            0x78u8 => 'χ', // x
            0x58u8 => 'Χ', // X
            _ => '\0',
        },
    }
}

} // verus!
