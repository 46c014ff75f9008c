//! Two expansions over named structs: one gives every field a read-only
//! accessor, the other gives the struct a single method that consumes it and
//! hands back all of its fields as a tuple, in the order of declaration.
use vstd::prelude::*;
use proc_macro2::TokenStream;
use crate::faultmsg::Problem;
use crate::syntax::{DataView, DeclaredItem, DeclaredItemView, FieldsView};
use crate::tokens::{diagnostic, diagnostic_tokens, stream_tokens, string_literal, Tok};

pub mod tokens;
pub mod ident;
pub mod faultmsg;
pub mod syntax;
pub mod extract;
pub mod fragment;
pub mod attribute;
pub mod dissolve;
pub mod getters;

verus! {

/// What an expansion that failed hands back: a diagnostic with the problem's
/// wording between double quotes, and nothing else.
pub open spec fn problem_tokens(problem: Problem) -> Seq<Tok> {
    diagnostic_tokens(string_literal(problem.text()))
}

/// What the accessors' expansion hands back for an item: the `impl` block
/// with the accessors, or the diagnostic of the problem.
pub open spec fn getters_expansion(item: DeclaredItemView) -> Seq<Tok> {
    match crate::getters::named_struct_of(item) {
        Ok(ns) => crate::getters::getters_tokens(ns),
        Err(problem) => problem_tokens(problem),
    }
}

/// What the expansion that takes a struct apart hands back for an item: the
/// `impl` block with the method, or the diagnostic of the problem.
pub open spec fn dissolve_expansion(item: DeclaredItemView) -> Seq<Tok> {
    match crate::dissolve::named_struct_of(item) {
        Ok(ns) => crate::dissolve::dissolve_tokens(ns),
        Err(problem) => problem_tokens(problem),
    }
}

/// The problem of an item that is no struct with named fields.
pub open spec fn shape_problem(data: DataView) -> Problem
    recommends
        !(data matches DataView::Struct(FieldsView::Named(_))),
{
    match data {
        DataView::Struct(FieldsView::Unit) => Problem::UnitStruct,
        DataView::Struct(_) => Problem::UnnamedFields,
        DataView::Enum => Problem::NotAStruct,
        DataView::Union => Problem::NotAStruct,
    }
}

/// Neither expansion writes a method for an item that is no struct with named
/// fields: an enum or a union is no struct, a unit struct has no fields, a
/// tuple struct has no names; each hands back the diagnostic of that problem
/// and nothing else.
pub proof fn lemma_only_named_structs_expand(item: DeclaredItemView)
    requires
        !(item.data matches DataView::Struct(FieldsView::Named(_))),
    ensures
        item.data is Enum || item.data is Union ==> shape_problem(item.data)
            == Problem::NotAStruct,
        item.data == DataView::Struct(FieldsView::Unit) ==> shape_problem(item.data)
            == Problem::UnitStruct,
        item.data == DataView::Struct(FieldsView::Unnamed) ==> shape_problem(item.data)
            == Problem::UnnamedFields,
        crate::getters::named_struct_of(item) == Err::<crate::getters::NamedStructView, Problem>(
            shape_problem(item.data),
        ),
        crate::dissolve::named_struct_of(item) == Err::<crate::dissolve::NamedStructView, Problem>(
            shape_problem(item.data),
        ),
        getters_expansion(item) == problem_tokens(shape_problem(item.data)),
        dissolve_expansion(item) == problem_tokens(shape_problem(item.data)),
{
}

/// Writes a read-only accessor for every named field of a struct, all in one
/// `impl` block of the struct. Each accessor has the name of its field and
/// returns a reference to it, unless an attribute of the field skips or
/// renames it.
pub fn getters(input: &DeclaredItem) -> (out: TokenStream)
    ensures
        stream_tokens(out) == getters_expansion(input@),
{
    match crate::getters::NamedStruct::try_from(input) {
        Ok(ns) => ns.emit(),
        Err(problem) => {
            let message = problem.message();
            diagnostic(message.as_str())
        },
    }
}

/// Writes a method `dissolve` that consumes a struct with named fields and
/// returns a tuple of all of its fields, in one `impl` block of the struct.
/// An attribute of the struct renames the method.
pub fn dissolve(input: &DeclaredItem) -> (out: TokenStream)
    ensures
        stream_tokens(out) == dissolve_expansion(input@),
{
    match crate::dissolve::NamedStruct::try_from(input) {
        Ok(ns) => ns.emit(),
        Err(problem) => {
            let message = problem.message();
            diagnostic(message.as_str())
        },
    }
}

} // verus!
