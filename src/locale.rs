//! Supported languages, resolved once from a language code.
use vstd::prelude::*;
use vstd::string::*;

verus! {

/// A supported language, or the fallback used for any other code.
#[derive(Clone, Copy, Debug, PartialEq, Eq, Structural)]
pub enum Locale {
    Ru,
    En,
    Th,
    Zh,
    Fallback,
}

pub open spec fn locale_of(code: Seq<char>) -> Locale {
    if code == seq!['r', 'u'] {
        Locale::Ru
    } else if code == seq!['e', 'n'] {
        Locale::En
    } else if code == seq!['t', 'h'] {
        Locale::Th
    } else if code == seq!['z', 'h'] {
        Locale::Zh
    } else {
        Locale::Fallback
    }
}

fn is_code(code: &str, a: char, b: char) -> (r: bool)
    ensures
        r == (code@ == seq![a, b]),
{
    let n = code.unicode_len();
    if n != 2 {
        return false;
    }
    let c0 = code.get_char(0);
    let c1 = code.get_char(1);
    if c0 == a && c1 == b {
        assert(code@ =~= seq![a, b]);
        true
    } else {
        false
    }
}

impl Locale {
    /// The locale of a language code; unknown codes give the fallback.
    pub fn from_code(code: &str) -> (r: Locale)
        ensures
            r == locale_of(code@),
    {
        if is_code(code, 'r', 'u') {
            Locale::Ru
        } else if is_code(code, 'e', 'n') {
            Locale::En
        } else if is_code(code, 't', 'h') {
            Locale::Th
        } else if is_code(code, 'z', 'h') {
            Locale::Zh
        } else {
            Locale::Fallback
        }
    }
}

} // verus!
