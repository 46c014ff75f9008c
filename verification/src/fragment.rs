//! The pieces that both expansions build their `impl` block from.
use vstd::prelude::*;
use proc_macro2::{Ident, TokenStream};
use syn::Generics;
use crate::ident::{is_ident, new_ident};
use crate::tokens::{
    empty_stream, ident_text, impl_generics_tokens, push_group, push_ident, push_punct,
    push_stream, split_generics, stream_tokens, type_generics_tokens, where_clause_tokens,
    Delimiter, Spacing, Tok,
};

verus! {

/// A comma that stands alone.
pub open spec fn comma() -> Tok {
    Tok::Punct(',', Spacing::Alone)
}

/// The parts one after the other, a comma between each two of them.
pub open spec fn comma_joined(parts: Seq<Seq<Tok>>) -> Seq<Tok>
    decreases parts.len(),
{
    if parts.len() == 0 {
        Seq::empty()
    } else if parts.len() == 1 {
        parts[0]
    } else {
        comma_joined(parts.drop_last()) + seq![comma()] + parts.last()
    }
}

/// What stands between the parentheses of a tuple of these parts: the parts
/// with commas between them, and behind a single part one comma more, without
/// which the parentheses would be no tuple.
pub open spec fn tuple_inner(parts: Seq<Seq<Tok>>) -> Seq<Tok> {
    if parts.len() == 1 {
        comma_joined(parts).push(comma())
    } else {
        comma_joined(parts)
    }
}

/// The arrow before a return type.
pub open spec fn arrow() -> Seq<Tok> {
    seq![Tok::Punct('-', Spacing::Joint), Tok::Punct('>', Spacing::Alone)]
}

/// An `impl` block for a type: `impl`, the generics with their bounds, the
/// type's name, the generics' names, the `where` clause, and the body in
/// braces.
pub open spec fn impl_block_tokens(
    impl_generics: Seq<Tok>,
    name: Seq<char>,
    type_generics: Seq<Tok>,
    where_clause: Seq<Tok>,
    body: Seq<Tok>,
) -> Seq<Tok> {
    seq![Tok::Ident("impl"@)] + impl_generics + seq![Tok::Ident(name)] + type_generics
        + where_clause + seq![Tok::Group(Delimiter::Brace, body)]
}

/// Joining the first `i + 1` parts is joining the first `i` and adding a
/// comma and the next part.
pub proof fn lemma_joined_step(parts: Seq<Seq<Tok>>, i: int)
    requires
        0 <= i < parts.len(),
    ensures
        comma_joined(parts.take(i + 1)) == if i == 0 {
            parts[0]
        } else {
            comma_joined(parts.take(i)) + seq![comma()] + parts[i]
        },
{
    let upto = parts.take(i + 1);
    assert(upto.last() == parts[i]);
    assert(upto.drop_last() =~= parts.take(i));
    assert(upto[0] == parts[0]);
}

/// Adds a word at the end of a stream.
pub(crate) fn push_word(ts: &mut TokenStream, word: &str)
    requires
        is_ident(word@),
    ensures
        stream_tokens(*final(ts)) == stream_tokens(*old(ts)).push(Tok::Ident(word@)),
{
    let ident = new_ident(word);
    push_ident(ts, &ident);
}

/// Adds the two characters of an arrow at the end of a stream.
pub(crate) fn push_arrow(ts: &mut TokenStream)
    ensures
        stream_tokens(*final(ts)) == stream_tokens(*old(ts)) + arrow(),
{
    push_punct(ts, '-', Spacing::Joint);
    push_punct(ts, '>', Spacing::Alone);
    assert(stream_tokens(*ts) =~= stream_tokens(*old(ts)) + arrow());
}

/// Builds the `impl` block of a type with the given generics and name around
/// a body.
pub fn impl_block(generics: &Generics, name: &Ident, body: TokenStream) -> (out: TokenStream)
    ensures
        stream_tokens(out) == impl_block_tokens(
            impl_generics_tokens(*generics),
            ident_text(*name),
            type_generics_tokens(*generics),
            where_clause_tokens(*generics),
            stream_tokens(body),
        ),
{
    let (for_impl, for_type, where_clause) = split_generics(generics);
    let mut out = empty_stream();
    proof {
        reveal_strlit("impl");
    }
    push_word(&mut out, "impl");
    push_stream(&mut out, for_impl);
    push_ident(&mut out, name);
    push_stream(&mut out, for_type);
    push_stream(&mut out, where_clause);
    push_group(&mut out, Delimiter::Brace, body);
    assert(stream_tokens(out) =~= impl_block_tokens(
        impl_generics_tokens(*generics),
        ident_text(*name),
        type_generics_tokens(*generics),
        where_clause_tokens(*generics),
        stream_tokens(body),
    ));
    out
}

} // verus!
