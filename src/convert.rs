//! The conversion of a whole betacode string: trimming, the scan that gathers
//! each letter with its accent marks, the last flush and the tail check.

use vstd::prelude::*;
use vstd::string::StringSliceAdditionalSpecFns;

use crate::alphabet::{
    is_ascii_whitespace, is_space, is_valid_betacode_symbol, letter_of, lookup_greek_letter,
    mark_of, APOSTROPHE, ASTERISK,
};
use crate::compose::{accented, apply_accent};
use crate::{ConversionError, Type};

verus! {

/// A letter read but not yet written out: the letter, the byte position where
/// it starts, and the accent bits gathered after it.
pub type Pending = Option<(char, usize, u16)>;

/// The elision mark written for a trailing apostrophe.
pub const ELISION: char = '᾽';

/// The first position from `i` on, below `hi`, that holds no whitespace, or
/// `hi` where there is none.
pub open spec fn skip_space(s: Seq<u8>, i: int, hi: int) -> int
    decreases hi - i,
{
    if i < hi && is_space(s[i]) {
        skip_space(s, i + 1, hi)
    } else {
        i
    }
}

/// The end of `s[..hi]` without its trailing whitespace.
pub open spec fn trim_end(s: Seq<u8>, hi: int) -> int
    decreases hi,
{
    if 0 < hi && is_space(s[hi - 1]) {
        trim_end(s, hi - 1)
    } else {
        hi
    }
}

/// The scan of `s[i..hi]` from the given pending letter and output. It stops at
/// `hi`, at whitespace, or at a byte that is neither letter nor marker, and then
/// gives the position where it stopped with what is pending and written.
pub open spec fn scan(s: Seq<u8>, version: Type, hi: int, i: int, pending: Pending, out: Seq<
    char,
>) -> Result<(int, Pending, Seq<char>), ConversionError>
    decreases hi - i,
{
    if i < 0 || i >= hi {
        Ok((i, pending, out))
    } else {
        let c = s[i];
        if c == ASTERISK {
            scan(s, version, hi, i + 1, pending, out)
        } else if c > 127 {
            Err(ConversionError::UnexpectedCharacter(c as char, i as usize))
        } else if letter_of(c, version) is Some {
            let next = Some((letter_of(c, version)->0, i as usize, 0u16));
            match pending {
                None => scan(s, version, hi, i + 1, next, out),
                Some((p, start, accents)) => match accented(p, accents) {
                    Some(g) => scan(s, version, hi, i + 1, next, out.push(g)),
                    None => Err(ConversionError::UnexpectedAccent(p, start)),
                },
            }
        } else if is_space(c) {
            Ok((i, pending, out))
        } else if mark_of(c) != 0 {
            match pending {
                None => Err(ConversionError::UnexpectedCharacter(c as char, 0)),
                Some((p, start, accents)) => scan(
                    s,
                    version,
                    hi,
                    i + 1,
                    Some((p, start, accents | mark_of(c))),
                    out,
                ),
            }
        } else {
            Ok((i, pending, out))
        }
    }
}

/// Writes out the letter still pending when the scan ends. A bare sigma there
/// ends a word and takes its final form.
pub open spec fn flush_last(pending: Pending, out: Seq<char>) -> Result<Seq<char>, ConversionError> {
    match pending {
        None => Ok(out),
        Some((p, start, accents)) => if accents == 0 && p == 'σ' {
            Ok(out.push('ς'))
        } else {
            match accented(p, accents) {
                Some(g) => Ok(out.push(g)),
                None => Err(ConversionError::UnexpectedAccent(p, start)),
            }
        },
    }
}

/// What follows the scan: one apostrophe becomes the elision mark, and every
/// byte after it up to `hi` must be whitespace.
pub open spec fn finish_tail(s: Seq<u8>, hi: int, stop: int, out: Seq<char>) -> Result<
    Seq<char>,
    ConversionError,
> {
    let (from, out) = if 0 <= stop < hi && s[stop] == APOSTROPHE {
        (stop + 1, out.push(ELISION))
    } else {
        (stop, out)
    };
    let k = skip_space(s, from, hi);
    if 0 <= k < hi {
        Err(ConversionError::UnexpectedCharacter(s[k] as char, k as usize))
    } else {
        Ok(out)
    }
}

/// The Greek text of the betacode bytes `s`, or the first error in them.
pub open spec fn betacode_to_greek(s: Seq<u8>, version: Type) -> Result<Seq<char>, ConversionError> {
    let lo = skip_space(s, 0, s.len() as int);
    if lo >= s.len() {
        Ok(Seq::empty())
    } else {
        let hi = trim_end(s, s.len() as int);
        match scan(s, version, hi, lo, None, Seq::empty()) {
            Err(e) => Err(e),
            Ok((stop, pending, out)) => match flush_last(pending, out) {
                Err(e) => Err(e),
                Ok(out) => finish_tail(s, hi, stop, out),
            },
        }
    }
}

/// The value of a conversion's result.
pub open spec fn conversion_of(r: Result<String, ConversionError>) -> Result<
    Seq<char>,
    ConversionError,
> {
    match r {
        Ok(s) => Ok(s@),
        Err(e) => Err(e),
    }
}

/// Relies on String::push: appends one character at the end.
#[verifier::external_body]
fn push_char(s: &mut String, c: char)
    ensures
        final(s)@ == old(s)@.push(c),
{
    s.push(c);
}

proof fn lemma_trim_end_bounds(s: Seq<u8>, hi: int, lo: int)
    requires
        0 <= lo < hi <= s.len(),
        !is_space(s[lo]),
    ensures
        lo < trim_end(s, hi) <= hi,
    decreases hi,
{
    if 0 < hi && is_space(s[hi - 1]) {
        lemma_trim_end_bounds(s, hi - 1, lo);
    }
}

/// Runs the scan over `text[lo..hi]` from no pending letter and an empty
/// output.
fn scan_letters(text: &[u8], version: Type, lo: usize, hi: usize) -> (r: Result<
    (usize, Pending, String),
    ConversionError,
>)
    requires
        lo <= hi <= text@.len(),
    ensures
        match r {
            Ok((stop, pending, word)) => scan(text@, version, hi as int, lo as int, None, Seq::empty())
                == Ok::<(int, Pending, Seq<char>), ConversionError>((stop as int, pending, word@))
                && stop <= hi && (pending matches Some((p, _, _)) ==> p != '\0'),
            Err(e) => scan(text@, version, hi as int, lo as int, None, Seq::empty()) == Err::<
                (int, Pending, Seq<char>),
                ConversionError,
            >(e),
        },
{
    let ghost s = text@;
    let mut word = String::new();
    let mut i: usize = lo;
    let mut pending: Pending = None;
    loop
        invariant
            s == text@,
            lo <= i <= hi,
            hi <= s.len(),
            scan(s, version, hi as int, i as int, pending, word@) == scan(
                s,
                version,
                hi as int,
                lo as int,
                None,
                Seq::empty(),
            ),
            pending matches Some((p, _, _)) ==> p != '\0',
        ensures
            scan(s, version, hi as int, lo as int, None, Seq::empty()) == Ok::<
                (int, Pending, Seq<char>),
                ConversionError,
            >((i as int, pending, word@)),
            i <= hi,
        decreases hi - i,
    {
        if i == hi {
            break;
        }
        let c = text[i];
        if c == ASTERISK {
            i += 1;
            continue;
        }
        if c > 127 {
            // non-ASCII bytes never belong to betacode
            return Err(ConversionError::UnexpectedCharacter(c as char, i));
        }
        let l = lookup_greek_letter(c, version);
        if l != '\0' {
            // a new letter writes out the one before it
            if let Some((p, start, accents)) = pending {
                let e = apply_accent(p, accents);
                if e == '\0' {
                    return Err(ConversionError::UnexpectedAccent(p, start));
                }
                push_char(&mut word, e);
            }
            pending = Some((l, i, 0));
            i += 1;
            continue;
        }
        if is_ascii_whitespace(c) {
            break;
        }
        let mark = is_valid_betacode_symbol(c);
        if mark != 0 {
            match pending {
                None => {
                    // an accent mark with no letter before it
                    return Err(ConversionError::UnexpectedCharacter(c as char, 0));
                },
                Some((p, start, accents)) => {
                    pending = Some((p, start, accents | mark));
                },
            }
            i += 1;
            continue;
        }
        break;
    }
    Ok((i, pending, word))
}

/// Writes out the last pending letter, then reads the tail of `text[stop..hi]`.
fn finish_word(text: &[u8], hi: usize, stop: usize, pending: Pending, word: String) -> (r: Result<
    String,
    ConversionError,
>)
    requires
        stop <= hi <= text@.len(),
        pending matches Some((p, _, _)) ==> p != '\0',
    ensures
        conversion_of(r) == match flush_last(pending, word@) {
            Err(e) => Err(e),
            Ok(out) => finish_tail(text@, hi as int, stop as int, out),
        },
{
    let ghost s = text@;
    let mut word = word;
    if let Some((p, start, accents)) = pending {
        if accents == 0 && p == 'σ' {
            push_char(&mut word, 'ς');
        } else {
            let e = apply_accent(p, accents);
            if e == '\0' {
                return Err(ConversionError::UnexpectedAccent(p, start));
            }
            push_char(&mut word, e);
        }
    }
    let mut i = stop;
    if i < hi && text[i] == APOSTROPHE {
        push_char(&mut word, ELISION);
        i += 1;
    }
    let ghost from = i as int;
    while i < hi && is_ascii_whitespace(text[i])
        invariant
            s == text@,
            from <= i <= hi,
            hi <= s.len(),
            skip_space(s, i as int, hi as int) == skip_space(s, from, hi as int),
        decreases hi - i,
    {
        i += 1;
    }
    if i < hi {
        return Err(ConversionError::UnexpectedCharacter(text[i] as char, i));
    }
    Ok(word)
}

/// Convert a betacode ASCII string into a Greek Unicode string.
///
/// Leading and trailing whitespace is ignored. One word is read: a letter
/// followed by its accent marks, then the next letter, and so on; an
/// apostrophe may close it. Any other byte is an error.
pub fn to_greek(input: &str, version: Type) -> (r: Result<String, ConversionError>)
    ensures
        conversion_of(r) == betacode_to_greek(input.spec_bytes(), version),
{
    let text = input.as_bytes();
    let ghost s = text@;
    let len = text.len();

    let mut lo: usize = 0;
    while lo < len && is_ascii_whitespace(text[lo])
        invariant
            s == text@,
            len == s.len(),
            0 <= lo <= len,
            skip_space(s, lo as int, len as int) == skip_space(s, 0, len as int),
        decreases len - lo,
    {
        lo += 1;
    }
    if lo == len {
        return Ok(String::new());
    }

    let mut hi: usize = len;
    proof {
        lemma_trim_end_bounds(s, len as int, lo as int);
    }
    while is_ascii_whitespace(text[hi - 1])
        invariant
            s == text@,
            len == s.len(),
            lo < hi <= len,
            !is_space(s[lo as int]),
            trim_end(s, hi as int) == trim_end(s, len as int),
            lo < trim_end(s, len as int),
        decreases hi,
    {
        hi -= 1;
    }

    match scan_letters(text, version, lo, hi) {
        Err(e) => Err(e),
        Ok((stop, pending, word)) => finish_word(text, hi, stop, pending, word),
    }
}

proof fn lemma_skip_blank(s: Seq<u8>, i: int, hi: int)
    requires
        0 <= i <= hi <= s.len(),
        forall|k: int| i <= k < hi ==> is_space(s[k]),
    ensures
        skip_space(s, i, hi) == hi,
    decreases hi - i,
{
    if i < hi {
        lemma_skip_blank(s, i + 1, hi);
    }
}

/// Empty input, or input of whitespace alone, converts to the empty string in
/// either dialect.
pub proof fn lemma_blank_input(input: &str, version: Type)
    requires
        forall|k: int| 0 <= k < input.spec_bytes().len() ==> is_space(input.spec_bytes()[k]),
    ensures
        betacode_to_greek(input.spec_bytes(), version) == Ok::<Seq<char>, ConversionError>(
            Seq::empty(),
        ),
{
    let s = input.spec_bytes();
    lemma_skip_blank(s, 0, s.len() as int);
}

/// Conversion is deterministic: two conversions of the same text in the same
/// dialect give the same Greek text or the same error.
pub proof fn lemma_conversion_deterministic(
    a: &str,
    b: &str,
    version: Type,
    ra: Result<String, ConversionError>,
    rb: Result<String, ConversionError>,
)
    requires
        a@ == b@,
        conversion_of(ra) == betacode_to_greek(a.spec_bytes(), version),
        conversion_of(rb) == betacode_to_greek(b.spec_bytes(), version),
    ensures
        conversion_of(ra) == conversion_of(rb),
{
}

} // verus!
