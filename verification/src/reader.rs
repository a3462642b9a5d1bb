//! From the text of a netlist file to a document.

use lexpr::Value;
use vstd::prelude::*;

use crate::pattern::pattern_is_valid;
use crate::pattern::pattern_replaced;
use crate::pattern::replace_all;
use crate::sexpr::Sexp;
use crate::sexpr::Tree;

verus! {

/// A value of the `lexpr` crate.
#[verifier::external_type_specification]
#[verifier::external_body]
pub struct ExValue(lexpr::Value);

/// A pair of the `lexpr` crate.
#[verifier::external_type_specification]
#[verifier::external_body]
pub struct ExPair(lexpr::Cons);

/// The `lexpr` crate's account of why a text is no s-expression.
#[verifier::external_type_specification]
#[verifier::external_body]
pub struct ExSyntaxError(lexpr::parse::Error);

/// The document that the `lexpr` crate reads from a text with its default
/// options; `None` where the text is no single s-expression.
pub uninterp spec fn parsed_text(text: Seq<char>) -> Option<Tree>;

/// Why a netlist text could not be read.
#[derive(Debug, PartialEq, Eq)]
pub enum ReadError {
    /// The pattern that finds timestamps did not compile.
    Pattern,
    /// The text is no s-expression; the message says where and why.
    Syntax(String),
}

/// The pattern that finds a `(tstamp ...)` form, with the two blanks before
/// it if there are any.
pub const TIMESTAMP_PATTERN: &'static str = "(  )?\\(tstamp .*?\\)";

/// The netlist text without its timestamps.
pub open spec fn without_timestamps(text: Seq<char>) -> Seq<char> {
    pattern_replaced(TIMESTAMP_PATTERN@, text, ""@)
}

/// Turns a chain of pairs of `lexpr` into one of the library, element by
/// element: `Cons::to_ref_vec` hands out the elements and what ends the
/// chain.
#[verifier::external_body]
fn chain_of(pair: &lexpr::Cons) -> Sexp {
    let (items, end) = pair.to_ref_vec();
    items.into_iter().rev().fold(
        sexp_of(end),
        |rest, item| Sexp::Cons(Box::new(sexp_of(item)), Box::new(rest)),
    )
}

/// Turns a value of `lexpr` into one of the library, variant by variant. A
/// number becomes the text that `lexpr` prints it with.
#[verifier::external_body]
fn sexp_of(value: &Value) -> Sexp {
    match value {
        Value::Nil => Sexp::Nil,
        Value::Null => Sexp::Null,
        Value::Bool(b) => Sexp::Bool(*b),
        Value::Number(n) => Sexp::Number(n.to_string()),
        Value::Char(c) => Sexp::Char(*c),
        Value::String(s) => Sexp::Str(s.to_string()),
        Value::Symbol(s) => Sexp::Symbol(s.to_string()),
        Value::Keyword(s) => Sexp::Keyword(s.to_string()),
        Value::Bytes(b) => Sexp::Bytes(b.to_vec()),
        Value::Cons(pair) => chain_of(pair),
        Value::Vector(items) => Sexp::Vector(items.iter().map(sexp_of).collect()),
    }
}

/// Calls `lexpr::from_str`. Trusted: it succeeds exactly where `parsed_text`
/// has a document, and then returns that document.
#[verifier::external_body]
fn read_tree(text: &str) -> (r: Result<Sexp, lexpr::parse::Error>)
    ensures
        r is Ok == parsed_text(text@) is Some,
        r matches Ok(doc) ==> parsed_text(text@) == Some(doc@),
{
    match lexpr::from_str(text) {
        Ok(value) => Ok(sexp_of(&value)),
        Err(e) => Err(e),
    }
}

/// Calls `to_string` on an error of `lexpr`: its message.
#[verifier::external_body]
fn syntax_message(error: &lexpr::parse::Error) -> String {
    error.to_string()
}

/// Removes every `(tstamp ...)` form from a netlist text, so that two
/// netlists that differ in their timestamps alone read as the same document.
pub fn strip_timestamps(text: &str) -> (r: Result<String, ReadError>)
    ensures
        r is Ok == pattern_is_valid(TIMESTAMP_PATTERN@),
        r matches Ok(s) ==> s@ == without_timestamps(text@),
        r matches Err(e) ==> e is Pattern,
{
    match replace_all(TIMESTAMP_PATTERN, text, "") {
        Ok(s) => Ok(s),
        Err(_) => Err(ReadError::Pattern),
    }
}

/// Reads a document from an s-expression text.
pub fn parse_document(text: &str) -> (r: Result<Sexp, ReadError>)
    ensures
        r is Ok == parsed_text(text@) is Some,
        r matches Ok(doc) ==> parsed_text(text@) == Some(doc@),
        r matches Err(e) ==> e is Syntax,
{
    match read_tree(text) {
        Ok(doc) => Ok(doc),
        Err(e) => Err(ReadError::Syntax(syntax_message(&e))),
    }
}

/// Reads a document from the text of a netlist file: the text without its
/// timestamps is parsed.
pub fn read_document(text: &str) -> (r: Result<Sexp, ReadError>)
    ensures
        r is Ok == (pattern_is_valid(TIMESTAMP_PATTERN@) && parsed_text(
            without_timestamps(text@),
        ) is Some),
        r matches Ok(doc) ==> parsed_text(without_timestamps(text@)) == Some(doc@),
        r matches Err(e) ==> (e is Pattern <==> !pattern_is_valid(TIMESTAMP_PATTERN@)),
{
    match strip_timestamps(text) {
        Ok(clean) => parse_document(clean.as_str()),
        Err(e) => Err(e),
    }
}

} // verus!
