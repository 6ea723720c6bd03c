//! The lexical facts that the pass takes from `oxc`, and two string helpers
//! of the standard library. Nothing in this file is proved: each function
//! states what the called code is documented to do.
use vstd::prelude::*;

verus! {

/// Whether a character may start an identifier, as
/// `oxc::syntax::identifier::is_identifier_start` decides it.
pub uninterp spec fn identifier_start(c: char) -> bool;

/// Whether a character may continue an identifier, as
/// `oxc::syntax::identifier::is_identifier_part` decides it.
pub uninterp spec fn identifier_part(c: char) -> bool;

/// A string is an identifier name when it is not empty, its first character
/// may start an identifier and every later one may continue it.
pub open spec fn identifier_name(s: Seq<char>) -> bool {
    &&& s.len() > 0
    &&& identifier_start(s[0])
    &&& forall|i: int| 1 <= i < s.len() ==> identifier_part(#[trigger] s[i])
}

/// Calls `oxc::syntax::identifier::is_identifier_start`. The result is a
/// function of the character alone (a table for ASCII, the Unicode
/// `ID_Start` property otherwise); the contract only gives it its name.
#[verifier::external_body]
pub(crate) fn is_identifier_start(c: char) -> (r: bool)
    ensures
        r == identifier_start(c),
{
    oxc::syntax::identifier::is_identifier_start(c)
}

/// Calls `oxc::syntax::identifier::is_identifier_part`. The result is a
/// function of the character alone (a table for ASCII; `ID_Continue` and the
/// two zero-width joiners otherwise); the contract only gives it its name.
#[verifier::external_body]
pub(crate) fn is_identifier_part(c: char) -> (r: bool)
    ensures
        r == identifier_part(c),
{
    oxc::syntax::identifier::is_identifier_part(c)
}

/// Calls `oxc::syntax::identifier::is_identifier_name`, which rejects the
/// empty string, tests the first character as an identifier start and all
/// the others as identifier parts.
#[verifier::external_body]
pub(crate) fn is_identifier_name(name: &str) -> (r: bool)
    ensures
        r == identifier_name(name@),
{
    oxc::syntax::identifier::is_identifier_name(name)
}

/// Calls `oxc::semantic::ScopeFlags::is_block` on the flags with these bits:
/// true when no flag is set, or the strict-mode flag (bit 0) alone.
#[verifier::external_body]
pub(crate) fn scope_bits_are_block(bits: u16) -> (r: bool)
    ensures
        r == (bits == 0 || bits == 1),
{
    oxc::semantic::ScopeFlags::from_bits_retain(bits).is_block()
}

/// Calls `oxc::semantic::ScopeFlags::is_top` on the flags with these bits:
/// true when the top flag (bit 1) is set.
#[verifier::external_body]
pub(crate) fn scope_bits_are_top(bits: u16) -> (r: bool)
    ensures
        r == (bits & 2 == 2),
{
    oxc::semantic::ScopeFlags::from_bits_retain(bits).is_top()
}

/// Calls `String::push`, which appends one character.
#[verifier::external_body]
pub(crate) fn push_char(s: &mut String, c: char)
    ensures
        final(s)@ == old(s)@.push(c),
{
    s.push(c)
}

/// Calls `str::strip_prefix`: the rest of `s` behind `prefix` when `s` starts
/// with it, and nothing otherwise.
#[verifier::external_body]
pub(crate) fn strip_prefix<'a>(s: &'a str, prefix: &str) -> (r: Option<&'a str>)
    ensures
        r is Some <==> prefix@.is_prefix_of(s@),
        r matches Some(rest) ==> rest@ == s@.subrange(prefix@.len() as int, s@.len() as int),
{
    s.strip_prefix(prefix)
}

} // verus!
