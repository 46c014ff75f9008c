//! Which strings can be identifiers, and how one is made from a string.
//!
//! A name of ASCII letters, digits and underscores that does not begin with a
//! digit is an identifier everywhere. Whether a name with characters beyond
//! ASCII is one depends on the Unicode tables of whoever reads it, so such a
//! name is handed to the parser, which answers for itself.
use vstd::prelude::*;
use proc_macro2::Ident;
use crate::tokens::ident_text;

verus! {

pub open spec fn is_ascii_letter(c: char) -> bool {
    ('a' <= c && c <= 'z') || ('A' <= c && c <= 'Z')
}

pub open spec fn is_ascii_digit(c: char) -> bool {
    '0' <= c && c <= '9'
}

/// A character that can begin an identifier: a letter or the underscore.
pub open spec fn is_ident_start(c: char) -> bool {
    is_ascii_letter(c) || c == '_'
}

/// A character that can go on an identifier: a letter, a digit or the
/// underscore.
pub open spec fn is_ident_continue(c: char) -> bool {
    is_ascii_letter(c) || is_ascii_digit(c) || c == '_'
}

/// A string that can be an identifier: not empty, a letter or an underscore
/// first, and letters, digits and underscores after it.
pub open spec fn is_ident(s: Seq<char>) -> bool {
    &&& s.len() > 0
    &&& is_ident_start(s[0])
    &&& forall|i: int| 1 <= i < s.len() ==> is_ident_continue(#[trigger] s[i])
}

/// A string that has the shape of an identifier as far as ASCII goes: not
/// empty, no ASCII character in it but letters, digits and underscores, and
/// no digit first. A character beyond ASCII can stand anywhere in it.
pub open spec fn is_ident_shaped(s: Seq<char>) -> bool {
    &&& s.len() > 0
    &&& (s[0] > '\x7f' || is_ident_start(s[0]))
    &&& forall|i: int| 1 <= i < s.len() ==> (#[trigger] s[i]) > '\x7f' || is_ident_continue(s[i])
}

/// Whether a string spells an identifier, given what the parser read it as:
/// a plain ASCII name does whatever the parser says; any other string of the
/// shape does where the parser read it as an identifier of that very text;
/// a string that has not the shape does not.
pub open spec fn spells_ident(s: Seq<char>, parsed: Option<Seq<char>>) -> bool {
    is_ident(s) || (is_ident_shaped(s) && parsed == Some(s))
}

/// Tells whether a character can begin an identifier.
pub fn can_start(c: char) -> (r: bool)
    ensures
        r == is_ident_start(c),
{
    ('a' <= c && c <= 'z') || ('A' <= c && c <= 'Z') || c == '_'
}

/// Tells whether a character can go on an identifier.
pub fn can_continue(c: char) -> (r: bool)
    ensures
        r == is_ident_continue(c),
{
    ('a' <= c && c <= 'z') || ('A' <= c && c <= 'Z') || ('0' <= c && c <= '9') || c == '_'
}

/// Tells whether a string can be an identifier.
pub fn is_ident_like(name: &str) -> (r: bool)
    ensures
        r == is_ident(name@),
{
    let n: usize = name.unicode_len();
    if n == 0 {
        return false;
    }
    if !can_start(name.get_char(0)) {
        return false;
    }
    let mut i: usize = 1;
    while i < n
        invariant
            1 <= i <= n,
            n == name@.len(),
            forall|j: int| 1 <= j < i ==> is_ident_continue(#[trigger] name@[j]),
        decreases n - i,
    {
        if !can_continue(name.get_char(i)) {
            return false;
        }
        i += 1;
    }
    true
}

/// Tells whether a string has the shape of an identifier as far as ASCII
/// goes.
pub fn is_ident_shaped_like(name: &str) -> (r: bool)
    ensures
        r == is_ident_shaped(name@),
{
    let n: usize = name.unicode_len();
    if n == 0 {
        return false;
    }
    let first = name.get_char(0);
    if !(first > '\x7f' || can_start(first)) {
        return false;
    }
    let mut i: usize = 1;
    while i < n
        invariant
            1 <= i <= n,
            n == name@.len(),
            forall|j: int| 1 <= j < i ==> (#[trigger] name@[j]) > '\x7f' || is_ident_continue(name@[j]),
        decreases n - i,
    {
        let c = name.get_char(i);
        if !(c > '\x7f' || can_continue(c)) {
            return false;
        }
        i += 1;
    }
    true
}

/// `syn::parse_str` for an identifier: the identifier that the whole string
/// reads as, or none where it does not read as one. It does not panic.
/// Nothing is stated of what it answers: that depends on who reads, a
/// compiler in the middle of an expansion or the parser of `proc_macro2`
/// outside of one.
#[verifier::external_body]
pub(crate) fn parse_ident(text: &str) -> (ident: Option<Ident>) {
    syn::parse_str::<Ident>(text).ok()
}

/// `ToString::to_string` of an identifier: its text.
#[verifier::external_body]
pub(crate) fn ident_string(ident: &Ident) -> (text: String)
    ensures
        text@ == ident_text(*ident),
{
    ident.to_string()
}

/// `Ident::new` at the call site's span: an identifier of the given text. It
/// panics on a string that is no valid identifier, which `requires` leaves
/// out: a name of ASCII letters, digits and underscores that does not begin
/// with a digit is valid to the check of `proc_macro2` and to a compiler's,
/// and both keep it as it is.
#[verifier::external_body]
pub(crate) fn new_ident(name: &str) -> (ident: Ident)
    requires
        is_ident(name@),
    ensures
        ident_text(ident) == name@,
{
    Ident::new(name, proc_macro2::Span::call_site())
}

} // verus!
