//! Reading attributes: which of them are meant for an expansion, what their
//! arguments say, and which one counts where several are meant.
use vstd::prelude::*;
use proc_macro2::Ident;
use crate::faultmsg::Problem;
use crate::syntax::{arg_views, ArgTok, ArgToken, AttrStyle, Attribute, AttributeView};
use crate::tokens::ident_text;

verus! {

/// An attribute is meant for an expansion where it stands before its item
/// and its name is the expansion's marker.
pub open spec fn is_marked(attr: AttributeView, marker: Seq<char>) -> bool {
    attr.style == AttrStyle::Outer && attr.name == Some(marker)
}

/// None of the attributes is meant for the expansion with this marker.
pub open spec fn none_marked(attrs: Seq<AttributeView>, marker: Seq<char>) -> bool {
    forall|i: int| 0 <= i < attrs.len() ==> !is_marked(#[trigger] attrs[i], marker)
}

/// Arguments that begin with the form `rename = "name"`: the word, the equals
/// sign, a string literal.
pub open spec fn is_rename_form(args: Seq<ArgTok>) -> bool {
    args.len() >= 3 && args[0] == ArgTok::Ident("rename"@) && args[1] == ArgTok::Punct('=')
        && args[2] is Str
}

/// What arguments of the form `rename = "name"` say: the new name. Tokens
/// behind the literal are a problem of their own; anything else that departs
/// from the form makes the attribute invalid, and so does a new name that
/// spells no identifier.
pub open spec fn rename_of(args: Seq<ArgTok>) -> Result<Seq<char>, Problem> {
    if is_rename_form(args) {
        if args.len() > 3 {
            Err(Problem::TokensFollowNewName)
        } else if args[2]->Str_0.names {
            Ok(args[2]->Str_0.value)
        } else {
            Err(Problem::InvalidAttribute)
        }
    } else {
        Err(Problem::InvalidAttribute)
    }
}

/// What the attributes of one item say to an expansion. They are read in
/// their order; those that are not meant for it are passed over; the first
/// one that is meant for it and cannot be read is the problem; where all can
/// be read, the last one counts.
pub open spec fn last_marked<T>(
    attrs: Seq<AttributeView>,
    marker: Seq<char>,
    read: spec_fn(AttributeView) -> Result<T, Problem>,
) -> Result<Option<T>, Problem>
    decreases attrs.len(),
{
    if attrs.len() == 0 {
        Ok(None)
    } else {
        match last_marked(attrs.drop_last(), marker, read) {
            Err(problem) => Err(problem),
            Ok(earlier) => if is_marked(attrs.last(), marker) {
                match read(attrs.last()) {
                    Ok(directive) => Ok(Some(directive)),
                    Err(problem) => Err(problem),
                }
            } else {
                Ok(earlier)
            },
        }
    }
}

/// A problem among the first attributes is the problem of the whole list.
pub proof fn lemma_problem_stays<T>(
    attrs: Seq<AttributeView>,
    marker: Seq<char>,
    read: spec_fn(AttributeView) -> Result<T, Problem>,
    k: int,
)
    requires
        0 <= k <= attrs.len(),
        last_marked(attrs.take(k), marker, read) is Err,
    ensures
        last_marked(attrs, marker, read) == last_marked(attrs.take(k), marker, read),
    decreases attrs.len(),
{
    if k == attrs.len() {
        assert(attrs.take(k) =~= attrs);
    } else {
        assert(attrs.drop_last().take(k) =~= attrs.take(k));
        lemma_problem_stays(attrs.drop_last(), marker, read, k);
    }
}

/// Reading one attribute more.
pub proof fn lemma_marked_step<T>(
    attrs: Seq<AttributeView>,
    marker: Seq<char>,
    read: spec_fn(AttributeView) -> Result<T, Problem>,
    k: int,
)
    requires
        0 <= k < attrs.len(),
        last_marked(attrs.take(k), marker, read) is Ok,
    ensures
        last_marked(attrs.take(k + 1), marker, read) == if is_marked(attrs[k], marker) {
            match read(attrs[k]) {
                Ok(directive) => Ok::<Option<T>, Problem>(Some(directive)),
                Err(problem) => Err(problem),
            }
        } else {
            last_marked(attrs.take(k), marker, read)
        },
{
    let upto = attrs.take(k + 1);
    assert(upto.drop_last() =~= attrs.take(k));
    assert(upto.last() == attrs[k]);
}

/// Tells whether an attribute is meant for the expansion with this marker.
pub fn has_marker(attr: &Attribute, marker: &str) -> (r: bool)
    ensures
        r == is_marked(attr@, marker@),
{
    match attr.style {
        AttrStyle::Inner => false,
        AttrStyle::Outer => match &attr.name {
            Some(name) => same_text(name, marker),
            None => false,
        },
    }
}

/// Tells whether a string reads as a given word.
pub fn same_text(text: &String, word: &str) -> (r: bool)
    ensures
        r == (text@ == word@),
{
    let word = String::from_str(word);
    *text == word
}

/// Tells whether a token is a given word.
pub fn is_word(token: &ArgToken, word: &str) -> (r: bool)
    ensures
        r == (token@ == ArgTok::Ident(word@)),
{
    match token {
        ArgToken::Ident(text) => same_text(text, word),
        _ => false,
    }
}

/// Tells whether a token is a given punctuation character.
pub fn is_punct(token: &ArgToken, ch: char) -> (r: bool)
    ensures
        r == (token@ == ArgTok::Punct(ch)),
{
    match token {
        ArgToken::Punct(c) => *c == ch,
        _ => false,
    }
}

/// Reads arguments of the form `rename = "name"` and hands out the identifier
/// that the new name spells.
pub fn new_name(args: &Vec<ArgToken>) -> (r: Result<Ident, Problem>)
    ensures
        match r {
            Ok(name) => rename_of(arg_views(args@)) == Ok::<Seq<char>, Problem>(ident_text(name)),
            Err(problem) => rename_of(arg_views(args@)) == Err::<Seq<char>, Problem>(problem),
        },
{
    if args.len() < 3 || !is_word(&args[0], "rename") || !is_punct(&args[1], '=') {
        return Err(Problem::InvalidAttribute);
    }
    match &args[2] {
        ArgToken::Str(lit) => {
            if args.len() > 3 {
                Err(Problem::TokensFollowNewName)
            } else {
                match lit.name() {
                    Some(name) => Ok(name.clone()),
                    None => Err(Problem::InvalidAttribute),
                }
            }
        },
        _ => Err(Problem::InvalidAttribute),
    }
}

/// Arguments that do not begin with the form `rename = "name"` are invalid,
/// and tokens behind that form are the problem that is named after them.
pub proof fn lemma_rename_problems(args: Seq<ArgTok>)
    ensures
        !is_rename_form(args) ==> rename_of(args) == Err::<Seq<char>, Problem>(
            Problem::InvalidAttribute,
        ),
        is_rename_form(args) && args.len() > 3 ==> rename_of(args) == Err::<Seq<char>, Problem>(
            Problem::TokensFollowNewName,
        ),
{
}

/// Arguments of the form `rename = "name"` and nothing more give the new
/// name, where it spells an identifier.
pub proof fn lemma_rename_is_read(args: Seq<ArgTok>)
    requires
        is_rename_form(args),
        args.len() == 3,
        args[2]->Str_0.names,
    ensures
        rename_of(args) == Ok::<Seq<char>, Problem>(args[2]->Str_0.value),
{
}

/// Where several attributes are meant for an expansion and all of them can be
/// read, the last one counts: what stands before it changes nothing.
pub proof fn lemma_last_one_counts<T>(
    attrs: Seq<AttributeView>,
    marker: Seq<char>,
    read: spec_fn(AttributeView) -> Result<T, Problem>,
)
    requires
        attrs.len() > 0,
        is_marked(attrs.last(), marker),
        last_marked(attrs, marker, read) is Ok,
    ensures
        last_marked(attrs, marker, read) == last_marked(seq![attrs.last()], marker, read),
        read(attrs.last()) is Ok,
        last_marked(attrs, marker, read) == Ok::<Option<T>, Problem>(
            Some(read(attrs.last())->Ok_0),
        ),
{
    let alone = seq![attrs.last()];
    assert(alone.drop_last() =~= Seq::<AttributeView>::empty());
    assert(alone.last() == attrs.last());
    assert(last_marked(alone.drop_last(), marker, read) == Ok::<Option<T>, Problem>(None));
}

/// The first attribute that is meant for an expansion and cannot be read
/// decides: its problem is the problem of the whole list, whatever follows.
pub proof fn lemma_first_problem_counts<T>(
    attrs: Seq<AttributeView>,
    marker: Seq<char>,
    read: spec_fn(AttributeView) -> Result<T, Problem>,
    k: int,
)
    requires
        0 <= k < attrs.len(),
        last_marked(attrs.take(k), marker, read) is Ok,
        is_marked(attrs[k], marker),
        read(attrs[k]) is Err,
    ensures
        last_marked(attrs, marker, read) == Err::<Option<T>, Problem>(read(attrs[k])->Err_0),
{
    lemma_marked_step(attrs, marker, read, k);
    lemma_problem_stays(attrs, marker, read, k + 1);
}

/// Attributes that are not meant for an expansion say nothing to it.
pub proof fn lemma_unmarked_say_nothing<T>(
    attrs: Seq<AttributeView>,
    marker: Seq<char>,
    read: spec_fn(AttributeView) -> Result<T, Problem>,
)
    requires
        none_marked(attrs, marker),
    ensures
        last_marked(attrs, marker, read) == Ok::<Option<T>, Problem>(None),
    decreases attrs.len(),
{
    if attrs.len() > 0 {
        lemma_unmarked_say_nothing(attrs.drop_last(), marker, read);
    }
}

} // verus!
