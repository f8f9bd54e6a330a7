//! Character classification and string materialization.
//!
//! Unicode alphanumericity and whitespace are decided by std; their results
//! are pure functions of the character alone, named here by uninterpreted
//! spec functions so that contracts can speak of them exactly.

use vstd::prelude::*;

verus! {

/// What `char::is_alphanumeric` returns for `c`.
pub uninterp spec fn alphanumeric(c: char) -> bool;

/// What `char::is_whitespace` returns for `c`.
pub uninterp spec fn whitespace(c: char) -> bool;

/// Relies on char::is_alphanumeric: the result depends on the character alone.
#[verifier::external_body]
pub fn char_is_alphanumeric(c: char) -> (r: bool)
    ensures
        r == alphanumeric(c),
{
    c.is_alphanumeric()
}

/// Relies on char::is_whitespace: the result depends on the character alone.
#[verifier::external_body]
pub fn char_is_whitespace(c: char) -> (r: bool)
    ensures
        r == whitespace(c),
{
    c.is_whitespace()
}

/// Relies on String's FromIterator over chars: the resulting string holds
/// exactly the given characters, in order.
#[verifier::external_body]
pub fn chars_to_string(v: &Vec<char>) -> (r: String)
    ensures
        r@ == v@,
{
    v.iter().collect()
}

/// Relies on str::chars: the iterator yields exactly the string's characters,
/// in order.
#[verifier::external_body]
pub fn str_to_chars(s: &str) -> (r: Vec<char>)
    ensures
        r@ == s@,
{
    s.chars().collect()
}

/// The three character runs that word-boundary jumps distinguish.
#[derive(Clone, Copy, PartialEq, Eq, Structural, Debug)]
pub enum CharClass {
    /// A space character proper.
    Space,
    /// An alphanumeric (identifier) character.
    Word,
    /// Anything else: punctuation, newlines, other whitespace.
    Punct,
}

/// The class of `c`: spaces first, then alphanumerics, then the rest.
pub open spec fn class_of(c: char) -> CharClass {
    if c == ' ' {
        CharClass::Space
    } else if alphanumeric(c) {
        CharClass::Word
    } else {
        CharClass::Punct
    }
}

/// Executable form of `class_of`.
pub fn char_class(c: char) -> (r: CharClass)
    ensures
        r == class_of(c),
{
    if c == ' ' {
        CharClass::Space
    } else if char_is_alphanumeric(c) {
        CharClass::Word
    } else {
        CharClass::Punct
    }
}

} // verus!
