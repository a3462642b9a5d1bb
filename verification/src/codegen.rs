//! Generating a file of constants from a component of a netlist.

use vstd::prelude::*;

use crate::args::Language;
use crate::netlist::AssociatedComponent;
use crate::netlist::Correlation;
use crate::netlist::Sheet;
use crate::netlist::SheetMetadata;

pub mod c;

verus! {

/// A generator of constants for one family of languages.
#[derive(Debug, Clone, Copy, PartialEq, Eq, Structural)]
pub enum CodeGenerator {
    /// A header that C and C++ can both include.
    C,
}

/// The generator for a language, if there is one.
pub open spec fn generator_for(lang: Language) -> Option<CodeGenerator> {
    match lang {
        Language::C => Some(CodeGenerator::C),
        Language::Cpp => Some(CodeGenerator::C),
        Language::Rust => None,
    }
}

/// The generator for a language: C and C++ share one, Rust has none.
pub fn get_generator(lang: Language) -> (r: Option<CodeGenerator>)
    ensures
        r == generator_for(lang),
{
    match lang {
        Language::C => Some(CodeGenerator::C),
        Language::Cpp => Some(CodeGenerator::C),
        Language::Rust => None,
    }
}

impl CodeGenerator {
    /// The file that this generator writes for a component.
    pub open spec fn output(
        self,
        sheet: SheetMetadata,
        component: Correlation,
        date: Seq<char>,
        time: Seq<char>,
    ) -> Result<Seq<char>, c::GenerateFailure> {
        match self {
            CodeGenerator::C => c::header_text(sheet, component, date, time),
        }
    }

    /// Generates the file of constants for a component. `date` and `time`
    /// say when, in the words that the file is to carry.
    pub fn generate(
        &self,
        sheet: &Sheet,
        component: &AssociatedComponent,
        date: &str,
        time: &str,
    ) -> (r: Result<String, c::GenerateError>)
        ensures
            c::generated(r) == self.output(sheet@, component@, date@, time@),
    {
        match self {
            CodeGenerator::C => c::generate(sheet, component, date, time),
        }
    }
}

} // verus!
