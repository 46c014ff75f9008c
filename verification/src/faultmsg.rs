//! What can go wrong in an expansion.
use vstd::prelude::*;
use crate::tokens::is_plain;

verus! {

/// Why an expansion failed.
#[derive(Clone, Copy, Debug, PartialEq, Eq, Structural)]
pub enum Problem {
    /// The item is an enum or a union.
    NotAStruct,
    /// The struct has no fields at all.
    UnitStruct,
    /// The struct's fields are positional.
    UnnamedFields,
    /// An entry of a list of named fields has no name.
    UnnamedField,
    /// The arguments of an attribute are of no recognised form.
    InvalidAttribute,
    /// Tokens follow a recognised form in the arguments of an attribute.
    TokensFollowNewName,
}

impl Problem {
    /// The wording of each problem.
    pub open spec fn text(self) -> Seq<char> {
        match self {
            Problem::NotAStruct => "can only derive for a struct with named fields, not for an enum or a union"@,
            Problem::UnitStruct => "can only derive for a struct with named fields, not for a unit struct"@,
            Problem::UnnamedFields => "can only derive for a struct with named fields, not for a tuple struct"@,
            Problem::UnnamedField => "struct field must be named"@,
            Problem::InvalidAttribute => "invalid attribute"@,
            Problem::TokensFollowNewName => "tokens are not meant to follow new name"@,
        }
    }

    /// Every wording is plain: printable ASCII, without double quotes and
    /// backslashes.
    pub proof fn lemma_text_is_plain(self)
        ensures
            is_plain(self.text()),
    {
        reveal_strlit("can only derive for a struct with named fields, not for an enum or a union");
        reveal_strlit("can only derive for a struct with named fields, not for a unit struct");
        reveal_strlit("can only derive for a struct with named fields, not for a tuple struct");
        reveal_strlit("struct field must be named");
        reveal_strlit("invalid attribute");
        reveal_strlit("tokens are not meant to follow new name");
    }

    /// The problem in words, for a diagnostic.
    pub fn message(&self) -> (msg: String)
        ensures
            msg@ == self.text(),
            is_plain(msg@),
    {
        proof {
            self.lemma_text_is_plain();
        }
        match self {
            Problem::NotAStruct => String::from_str("can only derive for a struct with named fields, not for an enum or a union"),
            Problem::UnitStruct => String::from_str("can only derive for a struct with named fields, not for a unit struct"),
            Problem::UnnamedFields => String::from_str("can only derive for a struct with named fields, not for a tuple struct"),
            Problem::UnnamedField => String::from_str("struct field must be named"),
            Problem::InvalidAttribute => String::from_str("invalid attribute"),
            Problem::TokensFollowNewName => String::from_str("tokens are not meant to follow new name"),
        }
    }
}

} // verus!
