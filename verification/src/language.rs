//! The display language of the texts that the bot posts.
use vstd::prelude::*;
use vstd::string::*;

use crate::text::to_chars;

verus! {

/// The language in which banners, dialogs and replies are written.
#[derive(Clone, Copy, Debug, PartialEq, Eq, Structural)]
pub enum Language {
    English,
    Japanese,
}

/// What `str::to_uppercase` returns for the text `s`.
pub uninterp spec fn uppercase_of(s: Seq<char>) -> Seq<char>;

/// `str::to_uppercase` of the standard library: the upper-case form of `s`
/// by the Unicode case mapping, which depends on the characters of `s` alone.
/// The mapping is not spelled out here; only its result is given a name.
#[verifier::external_body]
fn uppercase(s: &str) -> (r: String)
    ensures
        r@ == uppercase_of(s@),
{
    s.to_uppercase()
}

impl Language {
    /// The language that an upper-cased setting selects: English for `EN`,
    /// Japanese for everything else.
    pub open spec fn of_uppercased(upper: Seq<char>) -> Language {
        if upper == seq!['E', 'N'] {
            Language::English
        } else {
            Language::Japanese
        }
    }

    /// The language that a setting selects. The setting is compared without
    /// regard to case; an absent setting selects Japanese.
    pub open spec fn of_setting(setting: Option<Seq<char>>) -> Language {
        match setting {
            Some(s) => Self::of_uppercased(uppercase_of(s)),
            None => Language::Japanese,
        }
    }

    /// Selects the language from a setting that is already in upper case.
    pub fn from_uppercased(upper: &str) -> (r: Language)
        ensures
            r == Self::of_uppercased(upper@),
    {
        let chars = to_chars(upper);
        if chars.len() == 2 && chars[0] == 'E' && chars[1] == 'N' {
            assert(upper@ =~= seq!['E', 'N']);
            Language::English
        } else {
            Language::Japanese
        }
    }

    /// Selects the language from the configured setting, if there is one.
    pub fn from_setting(setting: Option<&str>) -> (r: Language)
        ensures
            r == Self::of_setting(
                match setting {
                    Some(s) => Some(s@),
                    None => None,
                },
            ),
    {
        match setting {
            Some(s) => {
                let upper = uppercase(s);
                Self::from_uppercased(upper.as_str())
            },
            None => Language::Japanese,
        }
    }

    /// Whether the language is English.
    pub fn is_english(&self) -> (r: bool)
        ensures
            r == (*self == Language::English),
    {
        match self {
            Language::English => true,
            Language::Japanese => false,
        }
    }
}

} // verus!
