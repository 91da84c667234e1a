//! The fixed set of language tags a message can carry.

use vstd::prelude::*;
use vstd::string::StringExecFns;
use crate::strutil::str_eq;

verus! {

/// The languages the board serves. Assigned to a message at creation and
/// immutable afterwards.
#[derive(Clone, Copy, Debug, PartialEq, Eq, Hash, Structural)]
pub enum Langs {
    English,
    Spanish,
    French,
    Italian,
    Portuguese,
    German,
}

/// The canonical name of a language, as it appears in requests and storage.
pub open spec fn spec_lang_name(l: Langs) -> Seq<char> {
    match l {
        Langs::English => "English"@,
        Langs::Spanish => "Spanish"@,
        Langs::French => "French"@,
        Langs::Italian => "Italian"@,
        Langs::Portuguese => "Portuguese"@,
        Langs::German => "German"@,
    }
}

/// The language whose canonical name is `s`, if any.
pub open spec fn spec_lang_of_str(s: Seq<char>) -> Option<Langs> {
    if s == "English"@ {
        Option::Some(Langs::English)
    } else if s == "Spanish"@ {
        Option::Some(Langs::Spanish)
    } else if s == "French"@ {
        Option::Some(Langs::French)
    } else if s == "Italian"@ {
        Option::Some(Langs::Italian)
    } else if s == "Portuguese"@ {
        Option::Some(Langs::Portuguese)
    } else if s == "German"@ {
        Option::Some(Langs::German)
    } else {
        Option::None
    }
}

impl Langs {
    /// Parses a canonical language name; any other string yields `None`.
    pub fn from_str_internal(s: &str) -> (r: Option<Langs>)
        ensures
            r == spec_lang_of_str(s@),
    {
        if str_eq(s, "English") {
            Option::Some(Langs::English)
        } else if str_eq(s, "Spanish") {
            Option::Some(Langs::Spanish)
        } else if str_eq(s, "French") {
            Option::Some(Langs::French)
        } else if str_eq(s, "Italian") {
            Option::Some(Langs::Italian)
        } else if str_eq(s, "Portuguese") {
            Option::Some(Langs::Portuguese)
        } else if str_eq(s, "German") {
            Option::Some(Langs::German)
        } else {
            Option::None
        }
    }

    /// Returns the canonical name of the language.
    pub fn to_string(&self) -> (r: String)
        ensures
            r@ == spec_lang_name(*self),
    {
        match self {
            Langs::English => "English".to_owned(),
            Langs::Spanish => "Spanish".to_owned(),
            Langs::French => "French".to_owned(),
            Langs::Italian => "Italian".to_owned(),
            Langs::Portuguese => "Portuguese".to_owned(),
            Langs::German => "German".to_owned(),
        }
    }
}

impl From<String> for Langs {
    /// Parses a canonical language name; an unknown name falls back to
    /// English, matching how stored values are read back.
    fn from(s: String) -> (r: Langs) {
        match Langs::from_str_internal(s.as_str()) {
            Option::Some(l) => l,
            Option::None => Langs::English,
        }
    }
}

impl core::str::FromStr for Langs {
    type Err = String;

    /// Parses a canonical language name; an unknown name is reported back
    /// in the error.
    fn from_str(s: &str) -> Result<Langs, String> {
        match Langs::from_str_internal(s) {
            Option::Some(l) => Ok(l),
            Option::None => Err("Unknown language: ".to_owned().concat(s)),
        }
    }
}

impl vstd::std_specs::convert::FromSpecImpl<String> for Langs {
    open spec fn obeys_from_spec() -> bool {
        true
    }

    open spec fn from_spec(s: String) -> Langs {
        match spec_lang_of_str(s@) {
            Option::Some(l) => l,
            Option::None => Langs::English,
        }
    }
}

} // verus!
