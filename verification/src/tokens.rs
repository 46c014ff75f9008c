//! Token streams: what they hold, as a value, and the calls that fill them.
use vstd::prelude::*;
use proc_macro2::{Ident, TokenStream};
use quote::{ToTokens, TokenStreamExt};
use syn::{Generics, Type};

verus! {

/// Whether a punctuation character is glued to the one that follows it.
#[derive(Clone, Copy, Debug, PartialEq, Eq)]
pub enum Spacing {
    Alone,
    Joint,
}

/// The brackets around a group of tokens.
#[derive(Clone, Copy, Debug, PartialEq, Eq)]
pub enum Delimiter {
    Parenthesis,
    Brace,
    Bracket,
    Hidden,
}

/// One token tree, as a value: an identifier by its text, a punctuation
/// character with its spacing, a literal by its text as it is written, or a
/// delimited group with the trees inside it.
pub enum Tok {
    Ident(Seq<char>),
    Punct(char, Spacing),
    Literal(Seq<char>),
    Group(Delimiter, Seq<Tok>),
}

#[verifier::external_type_specification]
#[verifier::external_body]
pub struct ExTokenStream(TokenStream);

#[verifier::external_type_specification]
#[verifier::external_body]
pub struct ExIdent(Ident);

#[verifier::external_type_specification]
#[verifier::external_body]
pub struct ExType(Type);

#[verifier::external_type_specification]
#[verifier::external_body]
pub struct ExGenerics(Generics);

/// The token trees that a stream holds, in order.
pub uninterp spec fn stream_tokens(ts: TokenStream) -> Seq<Tok>;

/// The text of an identifier, as `to_string` gives it.
pub uninterp spec fn ident_text(ident: Ident) -> Seq<char>;

/// The tokens that a type prints as.
pub uninterp spec fn type_tokens(ty: Type) -> Seq<Tok>;

/// The tokens of a generic parameter list as it stands behind `impl`: with
/// bounds, without defaults.
pub uninterp spec fn impl_generics_tokens(generics: Generics) -> Seq<Tok>;

/// The tokens of a generic parameter list as it stands behind the name of the
/// type: the parameters' names only.
pub uninterp spec fn type_generics_tokens(generics: Generics) -> Seq<Tok>;

/// The tokens of the `where` clause of a generic parameter list; none where
/// it has no such clause.
pub uninterp spec fn where_clause_tokens(generics: Generics) -> Seq<Tok>;

/// A character that stands for itself in a string literal: a printable ASCII
/// character that is neither the double quote nor the backslash.
pub open spec fn is_plain_char(c: char) -> bool {
    ' ' <= c && c <= '~' && c != '"' && c != '\\'
}

/// A string of such characters.
pub open spec fn is_plain(s: Seq<char>) -> bool {
    forall|i: int| 0 <= i < s.len() ==> is_plain_char(#[trigger] s[i])
}

/// The text of the string literal that stands for a plain string: the string
/// between two double quotes.
pub open spec fn string_literal(value: Seq<char>) -> Seq<char> {
    seq!['"'] + value + seq!['"']
}

/// The characters that can be punctuation in a token stream.
pub open spec fn is_punct_char(ch: char) -> bool {
    ch == '!' || ch == '#' || ch == '$' || ch == '%' || ch == '&' || ch == '\'' || ch == '*'
        || ch == '+' || ch == ',' || ch == '-' || ch == '.' || ch == '/' || ch == ':' || ch == ';'
        || ch == '<' || ch == '=' || ch == '>' || ch == '?' || ch == '@' || ch == '^' || ch == '|'
        || ch == '~'
}

/// `TokenStream::new`: a stream that holds nothing.
#[verifier::external_body]
pub(crate) fn empty_stream() -> (ts: TokenStream)
    ensures
        stream_tokens(ts) == Seq::<Tok>::empty(),
{
    TokenStream::new()
}

/// `ToTokens::to_tokens` of an identifier: the stream gets one more tree at
/// its end, an identifier of the same text.
#[verifier::external_body]
pub(crate) fn push_ident(ts: &mut TokenStream, ident: &Ident)
    ensures
        stream_tokens(*final(ts)) == stream_tokens(*old(ts)).push(Tok::Ident(ident_text(*ident))),
{
    ident.to_tokens(ts);
}

/// `Punct::new`, handed to `TokenStreamExt::append`: the stream gets one more
/// tree at its end, that character with that spacing. `Punct::new` panics on
/// a character that is no punctuation, which `requires` leaves out.
#[verifier::external_body]
pub(crate) fn push_punct(ts: &mut TokenStream, ch: char, spacing: Spacing)
    requires
        is_punct_char(ch),
    ensures
        stream_tokens(*final(ts)) == stream_tokens(*old(ts)).push(Tok::Punct(ch, spacing)),
{
    let spacing = match spacing {
        Spacing::Alone => proc_macro2::Spacing::Alone,
        Spacing::Joint => proc_macro2::Spacing::Joint,
    };
    ts.append(proc_macro2::Punct::new(ch, spacing));
}

/// `Group::new`, handed to `TokenStreamExt::append`: the stream gets one more
/// tree at its end, a group with those brackets around what `inner` holds.
#[verifier::external_body]
pub(crate) fn push_group(ts: &mut TokenStream, delimiter: Delimiter, inner: TokenStream)
    ensures
        stream_tokens(*final(ts)) == stream_tokens(*old(ts)).push(
            Tok::Group(delimiter, stream_tokens(inner)),
        ),
{
    let delimiter = match delimiter {
        Delimiter::Parenthesis => proc_macro2::Delimiter::Parenthesis,
        Delimiter::Brace => proc_macro2::Delimiter::Brace,
        Delimiter::Bracket => proc_macro2::Delimiter::Bracket,
        Delimiter::Hidden => proc_macro2::Delimiter::None,
    };
    ts.append(proc_macro2::Group::new(delimiter, inner));
}

/// `Extend::extend` with one stream: the trees of `more` follow those that
/// the stream held.
#[verifier::external_body]
pub(crate) fn push_stream(ts: &mut TokenStream, more: TokenStream)
    ensures
        stream_tokens(*final(ts)) == stream_tokens(*old(ts)) + stream_tokens(more),
{
    ts.extend([more]);
}

/// `ToTokens::to_tokens` of a type: the tokens that the type prints as follow
/// those that the stream held.
#[verifier::external_body]
pub(crate) fn push_type(ts: &mut TokenStream, ty: &Type)
    ensures
        stream_tokens(*final(ts)) == stream_tokens(*old(ts)) + type_tokens(*ty),
{
    ty.to_tokens(ts);
}

/// `Generics::split_for_impl`, each of its three parts printed into a stream
/// of its own: the list behind `impl`, the list behind the type's name, and
/// the `where` clause.
#[verifier::external_body]
pub(crate) fn split_generics(generics: &Generics) -> (parts: (TokenStream, TokenStream, TokenStream))
    ensures
        stream_tokens(parts.0) == impl_generics_tokens(*generics),
        stream_tokens(parts.1) == type_generics_tokens(*generics),
        stream_tokens(parts.2) == where_clause_tokens(*generics),
{
    let (for_impl, for_type, where_clause) = generics.split_for_impl();
    (for_impl.to_token_stream(), for_type.to_token_stream(), where_clause.to_token_stream())
}

/// The name of the macro of `core` that fails the compilation with a
/// message.
pub open spec fn failing_macro() -> Seq<char> {
    "compile"@ + "_error"@
}

/// The tokens of a diagnostic: the path of the failing macro from `::core`,
/// an exclamation mark, and in braces one literal, given by its text.
pub open spec fn diagnostic_tokens(literal: Seq<char>) -> Seq<Tok> {
    seq![
        Tok::Punct(':', Spacing::Joint),
        Tok::Punct(':', Spacing::Alone),
        Tok::Ident("core"@),
        Tok::Punct(':', Spacing::Joint),
        Tok::Punct(':', Spacing::Alone),
        Tok::Ident(failing_macro()),
        Tok::Punct('!', Spacing::Alone),
        Tok::Group(Delimiter::Brace, seq![Tok::Literal(literal)]),
    ]
}

/// `syn::Error::new` at the call site's span and, of the error it gives,
/// `to_compile_error`: a diagnostic whose literal is the message as a string
/// literal. Of a plain message that literal is the message between two
/// double quotes, whoever writes it; how other characters are escaped is not
/// the same everywhere, so `requires` leaves them out.
#[verifier::external_body]
pub(crate) fn diagnostic(message: &str) -> (ts: TokenStream)
    requires
        is_plain(message@),
    ensures
        stream_tokens(ts) == diagnostic_tokens(string_literal(message@)),
{
    syn::Error::new(proc_macro2::Span::call_site(), message).to_compile_error()
}

/// `Clone::clone` of an identifier keeps its text.
pub assume_specification[ <proc_macro2::Ident as Clone>::clone ](ident: &proc_macro2::Ident) -> (copy: proc_macro2::Ident)
    ensures
        ident_text(copy) == ident_text(*ident),
;

/// `Clone::clone` of a type keeps the tokens that it prints as.
pub assume_specification[ <syn::Type as Clone>::clone ](ty: &syn::Type) -> (copy: syn::Type)
    ensures
        type_tokens(copy) == type_tokens(*ty),
;

} // verus!
