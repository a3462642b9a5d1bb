//! The options of a run, as far as the library decides on them.

use vstd::prelude::*;

use crate::text::lowercase_of;
use crate::text::to_lower;

verus! {

/// A language to generate constants in.
#[derive(Debug, Clone, Copy, PartialEq, Eq, Structural)]
pub enum Language {
    C,
    Cpp,
    Rust,
}

impl Language {
    /// The language that a lower-case word names.
    pub open spec fn of_lowercase(word: Seq<char>) -> Option<Language> {
        if word == "c"@ {
            Some(Language::C)
        } else if word == "cpp"@ || word == "cxx"@ || word == "c++"@ {
            Some(Language::Cpp)
        } else if word == "rust"@ {
            Some(Language::Rust)
        } else {
            None
        }
    }

    /// The language that a word names, whatever its case.
    pub open spec fn of_text(word: Seq<char>) -> Option<Language> {
        Language::of_lowercase(lowercase_of(word))
    }

    /// What is said of a word that names no language.
    pub open spec fn unsupported() -> Seq<char> {
        "unsupported language, supported languages are: C, Cpp, Rust"@
    }

    /// The name of the language.
    pub open spec fn label(self) -> Seq<char> {
        match self {
            Language::C => "C"@,
            Language::Cpp => "Cpp"@,
            Language::Rust => "Rust"@,
        }
    }

    /// Reads a language from a word in lower case.
    pub fn from_lowercase(word: &str) -> (r: Option<Language>)
        ensures
            r == Language::of_lowercase(word@),
    {
        let w = word.to_owned();
        if w == "c".to_owned() {
            Some(Language::C)
        } else if w == "cpp".to_owned() || w == "cxx".to_owned() || w == "c++".to_owned() {
            Some(Language::Cpp)
        } else if w == "rust".to_owned() {
            Some(Language::Rust)
        } else {
            None
        }
    }

    /// Reads a language from a word, whatever its case. A word that names
    /// none is answered with the list of the languages.
    pub fn from_str(s: &str) -> (r: Result<Language, String>)
        ensures
            match r {
                Ok(language) => Language::of_text(s@) == Some(language),
                Err(message) => Language::of_text(s@) is None && message@
                    == Language::unsupported(),
            },
    {
        let lower = to_lower(s);
        match Language::from_lowercase(lower.as_str()) {
            Some(language) => Ok(language),
            None => Err(
                "unsupported language, supported languages are: C, Cpp, Rust".to_owned(),
            ),
        }
    }

    /// The name of the language.
    pub fn name(&self) -> (r: &'static str)
        ensures
            r@ == self.label(),
    {
        match self {
            Language::C => "C",
            Language::Cpp => "Cpp",
            Language::Rust => "Rust",
        }
    }
}

} // verus!
