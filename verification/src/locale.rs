//! The language of the user interface.

use vstd::prelude::*;

verus! {

/// A language that the supervisor has texts for.
#[derive(Clone, Copy, Debug, PartialEq, Eq, Structural)]
pub enum Language {
    English,
    SimplifiedChinese,
    TraditionalChinese,
}

/// The language that a locale name stands for: `en`, `cn` and `ct` name the
/// three languages, and every other name falls back to `cn`.
pub open spec fn language_for(name: Seq<char>) -> Language {
    if name == "en"@ {
        Language::English
    } else if name == "ct"@ {
        Language::TraditionalChinese
    } else {
        Language::SimplifiedChinese
    }
}

/// The locale in use.
#[derive(Clone, Copy, Debug, PartialEq, Eq, Structural)]
pub struct Locale(pub Language);

impl Locale {
    /// The locale for the name of a language.
    pub fn new(name: &str) -> (locale: Locale)
        ensures
            locale.0 == language_for(name@),
    {
        let name = name.to_owned();
        if name == "en".to_owned() {
            Locale(Language::English)
        } else if name == "ct".to_owned() {
            Locale(Language::TraditionalChinese)
        } else {
            Locale(Language::SimplifiedChinese)
        }
    }

    /// The name of the language of this locale.
    pub fn name(&self) -> (name: &'static str)
        ensures
            language_for(name@) == self.0,
    {
        proof {
            reveal_strlit("en");
            reveal_strlit("ct");
            reveal_strlit("cn");
            assert("ct"@ != "en"@) by {
                assert("ct"@[0] != "en"@[0]);
            }
            assert("cn"@ != "en"@) by {
                assert("cn"@[0] != "en"@[0]);
            }
            assert("cn"@ != "ct"@) by {
                assert("cn"@[1] != "ct"@[1]);
            }
        }
        match self.0 {
            Language::English => "en",
            Language::TraditionalChinese => "ct",
            Language::SimplifiedChinese => "cn",
        }
    }
}

} // verus!
