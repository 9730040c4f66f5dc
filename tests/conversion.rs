use betacode2::{
    apply_accent, is_ascii_whitespace, is_valid_betacode_symbol, lookup_greek_letter, to_greek,
    ConversionError, Type,
};

#[test]
fn valid_default_encoding() {
    assert_eq!(to_greek("", Type::Default).unwrap(), "");
    assert_eq!(to_greek(" ", Type::Default).unwrap(), "");
    assert_eq!(to_greek("  ", Type::Default).unwrap(), "");
    assert_eq!(to_greek("a", Type::Default).unwrap(), "α");
    assert_eq!(to_greek("a)", Type::Default).unwrap(), "ἀ");
    assert_eq!(to_greek("s", Type::Default).unwrap(), "ς");
    assert_eq!(to_greek("es", Type::Default).unwrap(), "ες");
    assert_eq!(to_greek("es1", Type::Default).unwrap(), "εσ");
    assert_eq!(to_greek("es2", Type::Default).unwrap(), "ες");
    assert_eq!(to_greek("es3", Type::Default).unwrap(), "εϲ");
    assert_eq!(to_greek("sos", Type::Default).unwrap(), "σος");
    assert_eq!(to_greek("a)bba", Type::Default).unwrap(), "ἀββα");
    assert_eq!(to_greek("a)p'", Type::Default).unwrap(), "ἀπ᾽");
    assert_eq!(to_greek(" d' ", Type::Default).unwrap(), "δ᾽");
    assert_eq!(to_greek(" a(ll", Type::Default).unwrap(), "ἁλλ");
    assert_eq!(to_greek("kai\\ ", Type::Default).unwrap(), "καὶ");
    assert_eq!(to_greek("cri", Type::Default).unwrap(), "χρι");
    assert_eq!(to_greek("criv", Type::Default).unwrap(), "χρις");
    assert_eq!(to_greek("qeo/v", Type::Default).unwrap(), "θεός");
    assert_eq!(to_greek("qeo/s3", Type::Default).unwrap(), "θεόϲ");
}

#[test]
fn invalid_default_encoding() {
    assert!(to_greek("a\\b'a", Type::Default).is_err());
    assert!(to_greek("dε", Type::Default).is_err());
    assert!(to_greek("dε ", Type::Default).is_err());
    assert!(to_greek(" dε", Type::Default).is_err());
    assert!(to_greek(")a", Type::Default).is_err());
    assert!(to_greek("(a", Type::Default).is_err());
    assert!(to_greek("\\a", Type::Default).is_err());
    assert!(to_greek("xri", Type::Default).is_err());
}

#[test]
fn valid_tlg_encoding() {
    assert_eq!(to_greek("qeo/s", Type::TLG).unwrap(), "θεός");
    assert_eq!(to_greek("xri", Type::TLG).unwrap(), "χρι");
    assert_eq!(to_greek("qeo/s1", Type::TLG).unwrap(), "θεόσ");
    assert_eq!(to_greek("qeo/s2", Type::TLG).unwrap(), "θεός");
    assert_eq!(to_greek("qeo/s3", Type::TLG).unwrap(), "θεόϲ");
}

#[test]
fn invalid_tlg_encoding() {
    assert!(to_greek("a\\b'a", Type::TLG).is_err());
    assert!(to_greek("dε", Type::TLG).is_err());
}

#[test]
fn blank_input_is_empty_in_both_dialects() {
    for input in ["", " ", "   ", "\t", "\r\n", " \t\r\n "] {
        assert_eq!(to_greek(input, Type::Default).unwrap(), "");
        assert_eq!(to_greek(input, Type::TLG).unwrap(), "");
    }
}

#[test]
fn dialects_share_the_accented_vowels() {
    assert_eq!(to_greek("qeo/v", Type::Default).unwrap(), "θεός");
    assert_eq!(to_greek("qeo/s", Type::TLG).unwrap(), "θεός");
    assert_eq!(to_greek("qeo/v", Type::TLG).unwrap(), "θεόϝ");
}

#[test]
fn bare_terminal_sigma_takes_final_form() {
    assert_eq!(to_greek("s", Type::Default).unwrap(), "ς");
    assert_eq!(to_greek("sos", Type::Default).unwrap(), "σος");
    assert_eq!(to_greek("ss", Type::Default).unwrap(), "σς");
    assert_eq!(to_greek("s ", Type::TLG).unwrap(), "ς");
}

#[test]
fn explicit_sigma_form_overrides_position() {
    assert_eq!(to_greek("es1", Type::Default).unwrap(), "εσ");
    assert_eq!(to_greek("es2", Type::Default).unwrap(), "ες");
    assert_eq!(to_greek("es3", Type::Default).unwrap(), "εϲ");
    assert_eq!(to_greek("s2e", Type::Default).unwrap(), "ςε");
    assert_eq!(to_greek("S3", Type::Default).unwrap(), "Ϲ");
}

#[test]
fn apostrophe_becomes_elision_mark() {
    assert_eq!(to_greek(" d' ", Type::Default).unwrap(), "δ᾽");
    assert_eq!(to_greek("a)ll'", Type::TLG).unwrap(), "ἀλλ᾽");
}

#[test]
fn marker_without_letter_is_unexpected_character() {
    assert_eq!(
        to_greek(")a", Type::Default),
        Err(ConversionError::UnexpectedCharacter(')', 0))
    );
    assert_eq!(
        to_greek("\\a", Type::Default),
        Err(ConversionError::UnexpectedCharacter('\\', 0))
    );
    assert_eq!(
        to_greek("  *=a", Type::Default),
        Err(ConversionError::UnexpectedCharacter('=', 0))
    );
}

#[test]
fn letter_outside_dialect_is_unexpected_character() {
    assert_eq!(
        to_greek("xri", Type::Default),
        Err(ConversionError::UnexpectedCharacter('x', 0))
    );
    assert_eq!(to_greek("xri", Type::TLG).unwrap(), "χρι");
    assert_eq!(
        to_greek("j", Type::TLG),
        Err(ConversionError::UnexpectedCharacter('j', 0))
    );
}

#[test]
fn conversion_is_deterministic() {
    for version in [Type::Default, Type::TLG] {
        for input in ["qeo/s", "a\\b'a", "e=", "xri", " d' "] {
            assert_eq!(to_greek(input, version), to_greek(input, version));
        }
    }
}

#[test]
fn composition_table_distinct_per_letter() {
    let marks: [u16; 8] = [0x1, 0x2, 0x4, 0x10, 0x20, 0x40, 0x11, 0x21];
    let mut seen: Vec<char> = Vec::new();
    for m in marks {
        let g = apply_accent('α', m);
        assert_ne!(g, '\0');
        assert_eq!(g, apply_accent('α', m));
        assert!(!seen.contains(&g));
        seen.push(g);
    }
    assert_eq!(apply_accent('Σ', 0x80), apply_accent('Σ', 0x100));
    assert_ne!(apply_accent('σ', 0x80), apply_accent('σ', 0x100));
}

#[test]
fn unknown_accent_combination_names_the_letter() {
    assert_eq!(
        to_greek("e=", Type::Default),
        Err(ConversionError::UnexpectedAccent('ε', 0))
    );
    assert_eq!(
        to_greek("qe=", Type::Default),
        Err(ConversionError::UnexpectedAccent('ε', 1))
    );
    assert_eq!(
        to_greek("e=a", Type::TLG),
        Err(ConversionError::UnexpectedAccent('ε', 0))
    );
    assert_eq!(
        to_greek("k/", Type::Default),
        Err(ConversionError::UnexpectedAccent('κ', 0))
    );
    assert_eq!(
        to_greek("w=|", Type::Default),
        Err(ConversionError::UnexpectedAccent('ω', 0))
    );
    // Unicode has no capital upsilon with smooth breathing alone
    assert_eq!(
        to_greek("U)", Type::Default),
        Err(ConversionError::UnexpectedAccent('Υ', 0))
    );
    assert_eq!(
        to_greek("I+/", Type::TLG),
        Err(ConversionError::UnexpectedAccent('Ι', 0))
    );
}

#[test]
fn non_ascii_byte_is_unexpected_character() {
    assert_eq!(
        to_greek("dε", Type::Default),
        Err(ConversionError::UnexpectedCharacter(0xce as char, 1))
    );
    assert_eq!(
        to_greek(" dε", Type::TLG),
        Err(ConversionError::UnexpectedCharacter(0xce as char, 2))
    );
}

#[test]
fn trailing_bytes_must_be_whitespace() {
    assert_eq!(
        to_greek("a\\b'a", Type::Default),
        Err(ConversionError::UnexpectedCharacter('a', 4))
    );
    assert_eq!(
        to_greek("a b", Type::Default),
        Err(ConversionError::UnexpectedCharacter('b', 2))
    );
    assert_eq!(
        to_greek("a,", Type::Default),
        Err(ConversionError::UnexpectedCharacter(',', 1))
    );
    assert_eq!(
        to_greek("a''", Type::Default),
        Err(ConversionError::UnexpectedCharacter('\'', 2))
    );
    assert_eq!(
        to_greek("a\0", Type::Default),
        Err(ConversionError::UnexpectedCharacter('\0', 1))
    );
}

#[test]
fn accents_compose_into_one_character() {
    assert_eq!(to_greek("a|", Type::Default).unwrap(), "ᾳ");
    assert_eq!(to_greek("i+/", Type::Default).unwrap(), "\u{1fd3}");
    assert_eq!(to_greek("u(=", Type::Default).unwrap(), "ὗ");
    assert_eq!(to_greek("r(", Type::Default).unwrap(), "ῥ");
    assert_eq!(to_greek("*a)", Type::Default).unwrap(), "ἀ");
    assert_eq!(
        to_greek("*)A", Type::Default),
        Err(ConversionError::UnexpectedCharacter(')', 0))
    );
    assert_eq!(to_greek("*E)/", Type::Default).unwrap(), "Ἔ");
    assert_eq!(to_greek("A)", Type::Default).unwrap(), "Ἀ");
    assert_eq!(to_greek("Pa", Type::TLG).unwrap(), "Πα");
}

#[test]
fn omicron_takes_breathings_and_accents() {
    assert_eq!(to_greek("o(", Type::Default).unwrap(), "ὁ");
    assert_eq!(to_greek("o)", Type::Default).unwrap(), "ὀ");
    assert_eq!(to_greek("o\\", Type::TLG).unwrap(), "ὸ");
    assert_eq!(to_greek("o(/", Type::Default).unwrap(), "ὅ");
    assert_eq!(to_greek("O(", Type::Default).unwrap(), "Ὁ");
    assert_eq!(to_greek("O/", Type::Default).unwrap(), "Ό");
}

#[test]
fn smooth_and_rough_grave_rows_are_distinct() {
    assert_eq!(to_greek("e)\\", Type::Default).unwrap(), "\u{1f12}");
    assert_eq!(to_greek("e)/", Type::Default).unwrap(), "\u{1f14}");
    assert_eq!(to_greek("W)\\", Type::Default).unwrap(), "\u{1f6a}");
    assert_eq!(to_greek("W)/", Type::Default).unwrap(), "\u{1f6c}");
    assert_eq!(to_greek("E(\\", Type::Default).unwrap(), "\u{1f1b}");
    assert_eq!(to_greek("E)\\", Type::Default).unwrap(), "\u{1f1a}");
}

#[test]
fn letter_classifier_by_dialect() {
    assert_eq!(lookup_greek_letter(b't', Type::Default), 'γ');
    assert_eq!(lookup_greek_letter(b'g', Type::TLG), 'γ');
    assert_eq!(lookup_greek_letter(b'v', Type::Default), 'σ');
    assert_eq!(lookup_greek_letter(b'v', Type::TLG), 'ϝ');
    assert_eq!(lookup_greek_letter(b'j', Type::Default), 'ς');
    assert_eq!(lookup_greek_letter(b'c', Type::Default), 'χ');
    assert_eq!(lookup_greek_letter(b'C', Type::TLG), 'Ξ');
    assert_eq!(lookup_greek_letter(b'X', Type::TLG), 'Χ');
    assert_eq!(lookup_greek_letter(b'x', Type::Default), '\0');
    assert_eq!(lookup_greek_letter(b'P', Type::Default), 'Π');
    assert_eq!(lookup_greek_letter(b'P', Type::TLG), 'Π');
    assert_eq!(lookup_greek_letter(b'A', Type::TLG), 'Α');
    assert_eq!(lookup_greek_letter(b'/', Type::TLG), '\0');
}

#[test]
fn symbol_and_space_classifiers() {
    assert_eq!(is_valid_betacode_symbol(b'/'), 0x1);
    assert_eq!(is_valid_betacode_symbol(b'='), is_valid_betacode_symbol(b'^'));
    assert_eq!(is_valid_betacode_symbol(b'3'), 0x200);
    assert_eq!(is_valid_betacode_symbol(b'a'), 0);
    assert!(is_ascii_whitespace(b' '));
    assert!(is_ascii_whitespace(b'\t'));
    assert!(is_ascii_whitespace(b'\r'));
    assert!(is_ascii_whitespace(b'\n'));
    assert!(!is_ascii_whitespace(b'a'));
    assert!(!is_ascii_whitespace(0));
}
