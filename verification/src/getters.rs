//! The expansion that gives a struct its accessors: for every field that is
//! not skipped, one public method that lends the field out.
use vstd::prelude::*;
use proc_macro2::{Ident, TokenStream};
use syn::Type;
use crate::attribute::{
    has_marker, is_rename_form, is_word, last_marked, lemma_marked_step, lemma_problem_stays,
    lemma_unmarked_say_nothing, new_name, none_marked, rename_of,
};
use crate::extract::{named_fields, named_fields_of, named_struct};
use crate::faultmsg::Problem;
use crate::fragment::{arrow, impl_block, impl_block_tokens, push_arrow, push_word};
use crate::syntax::{
    arg_views, attribute_views, field_views, ArgTok, ArgToken, Attribute, AttributeView,
    DeclaredItem, DeclaredItemView, FieldDecl, FieldDeclView,
};
use crate::tokens::{
    empty_stream, ident_text, push_group, push_ident, push_punct, push_stream, push_type,
    stream_tokens, type_tokens, Delimiter, Spacing, Tok,
};

verus! {

/// What an attribute asks for a field's accessor.
pub enum Action {
    /// Write no accessor for the field.
    Skip,
    /// Give the accessor this name in place of the field's.
    Rename(Ident),
}

/// Such a request as a value.
pub enum Directive {
    Skip,
    Rename(Seq<char>),
}

impl View for Action {
    type V = Directive;

    open spec fn view(&self) -> Directive {
        match self {
            Action::Skip => Directive::Skip,
            Action::Rename(name) => Directive::Rename(ident_text(*name)),
        }
    }
}

/// Arguments that begin with the word `skip`.
pub open spec fn is_skip_form(args: Seq<ArgTok>) -> bool {
    args.len() >= 1 && args[0] == ArgTok::Ident("skip"@)
}

/// What the arguments of one attribute ask for: `skip` alone, or
/// `rename = "name"`. Tokens behind either form are a problem of their own;
/// anything else is invalid.
pub open spec fn action_of(args: Seq<ArgTok>) -> Result<Directive, Problem> {
    if is_skip_form(args) {
        if args.len() > 1 {
            Err(Problem::TokensFollowNewName)
        } else {
            Ok(Directive::Skip)
        }
    } else {
        match rename_of(args) {
            Ok(name) => Ok(Directive::Rename(name)),
            Err(problem) => Err(problem),
        }
    }
}

/// What one attribute that is meant for this expansion asks for: without
/// arguments in brackets it is invalid.
pub open spec fn action_in(attr: AttributeView) -> Result<Directive, Problem> {
    match attr.args {
        Some(args) => action_of(args),
        None => Err(Problem::InvalidAttribute),
    }
}

/// What the attributes of a field ask for, if anything.
pub open spec fn get_action_of(attrs: Seq<AttributeView>) -> Result<Option<Directive>, Problem> {
    last_marked(attrs, "getter"@, |attr: AttributeView| action_in(attr))
}

pub open spec fn action_view(action: Option<Action>) -> Option<Directive> {
    match action {
        Some(action) => Some(action@),
        None => None,
    }
}

impl Action {
    /// Reads the arguments of one attribute.
    pub fn parse(input: &Vec<ArgToken>) -> (r: Result<Action, Problem>)
        ensures
            match r {
                Ok(action) => action_of(arg_views(input@)) == Ok::<Directive, Problem>(action@),
                Err(problem) => action_of(arg_views(input@)) == Err::<Directive, Problem>(problem),
            },
    {
        if input.len() >= 1 && is_word(&input[0], "skip") {
            if input.len() > 1 {
                Err(Problem::TokensFollowNewName)
            } else {
                Ok(Action::Skip)
            }
        } else {
            match new_name(input) {
                Ok(name) => Ok(Action::Rename(name)),
                Err(problem) => Err(problem),
            }
        }
    }
}

/// Looks through the attributes of a field for what they ask of its accessor.
pub fn get_action_from(attributes: &Vec<Attribute>) -> (r: Result<Option<Action>, Problem>)
    ensures
        match r {
            Ok(action) => get_action_of(attribute_views(attributes@)) == Ok::<
                Option<Directive>,
                Problem,
            >(action_view(action)),
            Err(problem) => get_action_of(attribute_views(attributes@)) == Err::<
                Option<Directive>,
                Problem,
            >(problem),
        },
{
    let ghost attrs = attribute_views(attributes@);
    let ghost read = |attr: AttributeView| action_in(attr);
    let mut current: Option<Action> = None;
    let mut i: usize = 0;
    while i < attributes.len()
        invariant
            i <= attributes.len(),
            attrs == attribute_views(attributes@),
            read == (|attr: AttributeView| action_in(attr)),
            last_marked(attrs.take(i as int), "getter"@, read) == Ok::<Option<Directive>, Problem>(
                action_view(current),
            ),
        decreases attributes.len() - i,
    {
        proof {
            lemma_marked_step(attrs, "getter"@, read, i as int);
        }
        let attr = &attributes[i];
        if has_marker(attr, "getter") {
            let parsed = match &attr.args {
                Some(args) => Action::parse(args),
                None => Err(Problem::InvalidAttribute),
            };
            match parsed {
                Ok(action) => {
                    current = Some(action);
                },
                Err(problem) => {
                    proof {
                        lemma_problem_stays(attrs, "getter"@, read, i + 1);
                    }
                    return Err(problem);
                },
            }
        }
        i += 1;
    }
    assert(attrs.take(i as int) =~= attrs);
    Ok(current)
}

/// One field that gets an accessor: its type, its name, and the name of the
/// accessor.
pub struct Field {
    ty: Type,
    name: Ident,
    getter: Ident,
}

/// Such a field as a value.
pub struct FieldView {
    pub name: Seq<char>,
    pub getter: Seq<char>,
    pub ty: Seq<Tok>,
}

impl View for Field {
    type V = FieldView;

    closed spec fn view(&self) -> FieldView {
        FieldView {
            name: ident_text(self.name),
            getter: ident_text(self.getter),
            ty: type_tokens(self.ty),
        }
    }
}

pub open spec fn views_of(fields: Seq<Field>) -> Seq<FieldView> {
    fields.map_values(|f: Field| f@)
}

pub open spec fn kept_view(kept: Option<Field>) -> Option<FieldView> {
    match kept {
        Some(field) => Some(field@),
        None => None,
    }
}

/// What becomes of one entry of a list of fields. It must have a name and
/// valid attributes. Skipped, it gets no accessor; renamed, one of the new
/// name; else one of its own name.
pub open spec fn field_of(field: FieldDeclView) -> Result<Option<FieldView>, Problem> {
    match field.ident {
        None => Err(Problem::UnnamedField),
        Some(name) => match get_action_of(field.attrs) {
            Err(problem) => Err(problem),
            Ok(Some(Directive::Skip)) => Ok(None),
            Ok(Some(Directive::Rename(getter))) => Ok(
                Some(FieldView { name, getter, ty: field.ty }),
            ),
            Ok(None) => Ok(Some(FieldView { name, getter: name, ty: field.ty })),
        },
    }
}

/// What becomes of a list of fields: the fields that get an accessor, in
/// their order. The first entry with a problem is the problem of the list.
pub open spec fn fields_of(fields: Seq<FieldDeclView>) -> Result<Seq<FieldView>, Problem>
    decreases fields.len(),
{
    if fields.len() == 0 {
        Ok(Seq::empty())
    } else {
        match fields_of(fields.drop_last()) {
            Err(problem) => Err(problem),
            Ok(earlier) => match field_of(fields.last()) {
                Err(problem) => Err(problem),
                Ok(Some(field)) => Ok(earlier.push(field)),
                Ok(None) => Ok(earlier),
            },
        }
    }
}

/// A problem among the first fields is the problem of the whole list.
pub proof fn lemma_fields_problem_stays(fields: Seq<FieldDeclView>, k: int)
    requires
        0 <= k <= fields.len(),
        fields_of(fields.take(k)) is Err,
    ensures
        fields_of(fields) == fields_of(fields.take(k)),
    decreases fields.len(),
{
    if k == fields.len() {
        assert(fields.take(k) =~= fields);
    } else {
        assert(fields.drop_last().take(k) =~= fields.take(k));
        lemma_fields_problem_stays(fields.drop_last(), k);
    }
}

/// Reading one field more.
pub proof fn lemma_fields_step(fields: Seq<FieldDeclView>, k: int)
    requires
        0 <= k < fields.len(),
        fields_of(fields.take(k)) is Ok,
    ensures
        fields_of(fields.take(k + 1)) == match field_of(fields[k]) {
            Err(problem) => Err::<Seq<FieldView>, Problem>(problem),
            Ok(Some(field)) => Ok(fields_of(fields.take(k))->Ok_0.push(field)),
            Ok(None) => fields_of(fields.take(k)),
        },
{
    let upto = fields.take(k + 1);
    assert(upto.drop_last() =~= fields.take(k));
    assert(upto.last() == fields[k]);
}

/// One accessor: public, named as asked, borrowing `self`, returning a
/// reference to the field's type, with a reference to the field as its body.
pub open spec fn accessor_tokens(field: FieldView) -> Seq<Tok> {
    seq![
        Tok::Ident("pub"@),
        Tok::Ident("fn"@),
        Tok::Ident(field.getter),
        Tok::Group(
            Delimiter::Parenthesis,
            seq![Tok::Punct('&', Spacing::Alone), Tok::Ident("self"@)],
        ),
    ] + arrow() + seq![Tok::Punct('&', Spacing::Alone)] + field.ty + seq![
        Tok::Group(
            Delimiter::Brace,
            seq![
                Tok::Punct('&', Spacing::Alone),
                Tok::Ident("self"@),
                Tok::Punct('.', Spacing::Alone),
                Tok::Ident(field.name),
            ],
        ),
    ]
}

/// The accessors of the fields, one after the other in the fields' order.
pub open spec fn accessors_tokens(fields: Seq<FieldView>) -> Seq<Tok>
    decreases fields.len(),
{
    if fields.len() == 0 {
        Seq::empty()
    } else {
        accessors_tokens(fields.drop_last()) + accessor_tokens(fields.last())
    }
}

impl Field {
    /// Reads one entry of a list of fields.
    pub fn from_field(field: &FieldDecl) -> (r: Result<Option<Field>, Problem>)
        ensures
            match r {
                Ok(kept) => field_of(field@) == Ok::<Option<FieldView>, Problem>(kept_view(kept)),
                Err(problem) => field_of(field@) == Err::<Option<FieldView>, Problem>(problem),
            },
    {
        let name = match &field.ident {
            Some(name) => name.clone(),
            None => return Err(Problem::UnnamedField),
        };
        match get_action_from(&field.attrs) {
            Err(problem) => Err(problem),
            Ok(Some(Action::Skip)) => Ok(None),
            Ok(Some(Action::Rename(getter))) => Ok(
                Some(Field { ty: field.ty.clone(), name, getter }),
            ),
            Ok(None) => {
                let getter = name.clone();
                Ok(Some(Field { ty: field.ty.clone(), name, getter }))
            },
        }
    }

    /// Reads a list of fields and keeps those that get an accessor, in their
    /// order.
    pub fn from_fields_named(fields_named: &Vec<FieldDecl>) -> (r: Result<Vec<Field>, Problem>)
        ensures
            match r {
                Ok(kept) => fields_of(field_views(fields_named@)) == Ok::<Seq<FieldView>, Problem>(
                    views_of(kept@),
                ),
                Err(problem) => fields_of(field_views(fields_named@)) == Err::<
                    Seq<FieldView>,
                    Problem,
                >(problem),
            },
    {
        let ghost decls = field_views(fields_named@);
        let mut kept: Vec<Field> = Vec::new();
        let mut i: usize = 0;
        assert(views_of(kept@) =~= Seq::<FieldView>::empty());
        while i < fields_named.len()
            invariant
                i <= fields_named.len(),
                decls == field_views(fields_named@),
                fields_of(decls.take(i as int)) == Ok::<Seq<FieldView>, Problem>(views_of(kept@)),
            decreases fields_named.len() - i,
        {
            proof {
                lemma_fields_step(decls, i as int);
            }
            let ghost before = views_of(kept@);
            match Field::from_field(&fields_named[i]) {
                Ok(Some(field)) => {
                    kept.push(field);
                    assert(views_of(kept@) =~= before.push(field@));
                },
                Ok(None) => {},
                Err(problem) => {
                    proof {
                        lemma_fields_problem_stays(decls, i + 1);
                    }
                    return Err(problem);
                },
            }
            i += 1;
        }
        assert(decls.take(i as int) =~= decls);
        Ok(kept)
    }

    /// Writes the accessor of this field.
    pub fn emit(&self) -> (out: TokenStream)
        ensures
            stream_tokens(out) == accessor_tokens(self@),
    {
        proof {
            reveal_strlit("self");
            reveal_strlit("pub");
            reveal_strlit("fn");
        }
        let mut receiver = empty_stream();
        push_punct(&mut receiver, '&', Spacing::Alone);
        push_word(&mut receiver, "self");

        let mut body = empty_stream();
        push_punct(&mut body, '&', Spacing::Alone);
        push_word(&mut body, "self");
        push_punct(&mut body, '.', Spacing::Alone);
        push_ident(&mut body, &self.name);

        let mut out = empty_stream();
        push_word(&mut out, "pub");
        push_word(&mut out, "fn");
        push_ident(&mut out, &self.getter);
        push_group(&mut out, Delimiter::Parenthesis, receiver);
        let ghost start = stream_tokens(out);
        assert(stream_tokens(receiver) =~= seq![Tok::Punct('&', Spacing::Alone), Tok::Ident("self"@)]);
        assert(start =~= seq![
            Tok::Ident("pub"@),
            Tok::Ident("fn"@),
            Tok::Ident(self@.getter),
            Tok::Group(
                Delimiter::Parenthesis,
                seq![Tok::Punct('&', Spacing::Alone), Tok::Ident("self"@)],
            ),
        ]);
        push_arrow(&mut out);
        push_punct(&mut out, '&', Spacing::Alone);
        let ghost head = stream_tokens(out);
        assert(head =~= start + arrow() + seq![Tok::Punct('&', Spacing::Alone)]);
        assert(head =~= seq![
            Tok::Ident("pub"@),
            Tok::Ident("fn"@),
            Tok::Ident(self@.getter),
            Tok::Group(
                Delimiter::Parenthesis,
                seq![Tok::Punct('&', Spacing::Alone), Tok::Ident("self"@)],
            ),
        ] + arrow() + seq![Tok::Punct('&', Spacing::Alone)]);
        push_type(&mut out, &self.ty);
        push_group(&mut out, Delimiter::Brace, body);
        assert(stream_tokens(body) =~= seq![
            Tok::Punct('&', Spacing::Alone),
            Tok::Ident("self"@),
            Tok::Punct('.', Spacing::Alone),
            Tok::Ident(self@.name),
        ]);
        assert(stream_tokens(out) =~= head + self@.ty + seq![
            Tok::Group(Delimiter::Brace, stream_tokens(body)),
        ]);
        out
    }
}

/// A struct with named fields, ready to be given its accessors.
pub struct NamedStruct<'a> {
    declared: &'a DeclaredItem,
    name: Ident,
    fields: Vec<Field>,
}

/// Such a struct as a value.
pub struct NamedStructView {
    pub name: Seq<char>,
    pub impl_generics: Seq<Tok>,
    pub type_generics: Seq<Tok>,
    pub where_clause: Seq<Tok>,
    pub fields: Seq<FieldView>,
}

impl<'a> View for NamedStruct<'a> {
    type V = NamedStructView;

    closed spec fn view(&self) -> NamedStructView {
        NamedStructView {
            name: ident_text(self.name),
            impl_generics: self.declared@.impl_generics,
            type_generics: self.declared@.type_generics,
            where_clause: self.declared@.where_clause,
            fields: views_of(self.fields@),
        }
    }
}

/// What an item gives where it is a struct with named fields: its name and
/// generics, and the fields that get an accessor. The item's kind is looked
/// at first, then its fields one by one.
pub open spec fn named_struct_of(item: DeclaredItemView) -> Result<NamedStructView, Problem> {
    match named_fields_of(item.data) {
        Err(problem) => Err(problem),
        Ok(named) => match fields_of(named) {
            Err(problem) => Err(problem),
            Ok(fields) => Ok(
                NamedStructView {
                    name: item.name,
                    impl_generics: item.impl_generics,
                    type_generics: item.type_generics,
                    where_clause: item.where_clause,
                    fields,
                },
            ),
        },
    }
}

/// The whole fragment: an `impl` block of the struct that holds the
/// accessors.
pub open spec fn getters_tokens(ns: NamedStructView) -> Seq<Tok> {
    impl_block_tokens(
        ns.impl_generics,
        ns.name,
        ns.type_generics,
        ns.where_clause,
        accessors_tokens(ns.fields),
    )
}

impl<'a> NamedStruct<'a> {
    /// Writes the `impl` block with the accessors.
    pub fn emit(&self) -> (out: TokenStream)
        ensures
            stream_tokens(out) == getters_tokens(self@),
    {
        let ghost fields = views_of(self.fields@);
        let n: usize = self.fields.len();
        let mut methods = empty_stream();
        let mut i: usize = 0;
        while i < n
            invariant
                i <= n,
                n == self.fields@.len(),
                fields == views_of(self.fields@),
                stream_tokens(methods) == accessors_tokens(fields.take(i as int)),
            decreases n - i,
        {
            let accessor = self.fields[i].emit();
            push_stream(&mut methods, accessor);
            proof {
                let upto = fields.take(i + 1);
                assert(upto.drop_last() =~= fields.take(i as int));
                assert(upto.last() == fields[i as int]);
            }
            i += 1;
        }
        assert(fields.take(n as int) =~= fields);
        impl_block(&self.declared.generics, &self.name, methods)
    }

    /// Reads an item: it must be a struct with named fields, each of them
    /// with a name and valid attributes.
    pub fn try_from(node: &'a DeclaredItem) -> (r: Result<NamedStruct<'a>, Problem>)
        ensures
            match r {
                Ok(ns) => named_struct_of(node@) == Ok::<NamedStructView, Problem>(ns@),
                Err(problem) => named_struct_of(node@) == Err::<NamedStructView, Problem>(problem),
            },
    {
        let struct_data = match named_struct(node) {
            Ok(fields) => fields,
            Err(problem) => return Err(problem),
        };
        let named = match named_fields(struct_data) {
            Ok(named) => named,
            Err(problem) => return Err(problem),
        };
        let fields = match Field::from_fields_named(named) {
            Ok(fields) => fields,
            Err(problem) => return Err(problem),
        };
        Ok(NamedStruct { declared: node, name: node.ident.clone(), fields })
    }
}

/// What a list of fields in two parts gives: what the first part gives and,
/// behind it, what the second gives; the first part's problem comes first.
pub proof fn lemma_fields_concat(a: Seq<FieldDeclView>, b: Seq<FieldDeclView>)
    ensures
        fields_of(a + b) == match fields_of(a) {
            Err(problem) => Err::<Seq<FieldView>, Problem>(problem),
            Ok(first) => match fields_of(b) {
                Err(problem) => Err(problem),
                Ok(second) => Ok(first + second),
            },
        },
    decreases b.len(),
{
    if b.len() == 0 {
        assert(a + b =~= a);
        if let Ok(first) = fields_of(a) {
            assert(first + Seq::<FieldView>::empty() =~= first);
        }
    } else {
        assert((a + b).drop_last() =~= a + b.drop_last());
        assert((a + b).last() == b.last());
        lemma_fields_concat(a, b.drop_last());
        if let Ok(first) = fields_of(a) {
            if let Ok(earlier) = fields_of(b.drop_last()) {
                if let Ok(Some(field)) = field_of(b.last()) {
                    assert((first + earlier).push(field) =~= first + earlier.push(field));
                }
            }
        }
    }
}

/// The accessor that a field gets, if any, as a list of one or none.
pub open spec fn kept_seq(kept: Option<FieldView>) -> Seq<FieldView> {
    match kept {
        Some(field) => seq![field],
        None => Seq::empty(),
    }
}

/// What a list of fields gives, seen from one of its fields: what the fields
/// before it give, then its own accessor if it gets one, then what the
/// fields behind it give.
pub proof fn lemma_fields_around(fields: Seq<FieldDeclView>, i: int)
    requires
        0 <= i < fields.len(),
    ensures
        fields_of(fields) == match fields_of(fields.take(i)) {
            Err(problem) => Err::<Seq<FieldView>, Problem>(problem),
            Ok(before) => match field_of(fields[i]) {
                Err(problem) => Err(problem),
                Ok(kept) => match fields_of(fields.skip(i + 1)) {
                    Err(problem) => Err(problem),
                    Ok(behind) => Ok(before + kept_seq(kept) + behind),
                },
            },
        },
{
    assert(fields =~= fields.take(i + 1) + fields.skip(i + 1));
    lemma_fields_concat(fields.take(i + 1), fields.skip(i + 1));
    if let Ok(before) = fields_of(fields.take(i)) {
        lemma_fields_step(fields, i);
        if let Ok(kept) = field_of(fields[i]) {
            assert(before + kept_seq(kept) =~= match kept {
                Some(field) => before.push(field),
                None => before,
            });
        }
    } else {
        assert(fields.take(i + 1).take(i) =~= fields.take(i));
        lemma_fields_problem_stays(fields.take(i + 1), i);
    }
}

/// A field without its attributes.
pub open spec fn unmarked(field: FieldDeclView) -> FieldDeclView {
    FieldDeclView { attrs: Seq::empty(), ident: field.ident, ty: field.ty }
}

/// The accessor of a field that no attribute speaks of: named as the field.
pub open spec fn own_accessor(field: FieldDeclView) -> FieldView {
    FieldView { name: field.ident->Some_0, getter: field.ident->Some_0, ty: field.ty }
}

/// Arguments that begin with neither form are invalid, and tokens behind
/// either form are the problem that is named after them.
pub proof fn lemma_action_problems(args: Seq<ArgTok>)
    ensures
        !is_skip_form(args) && !is_rename_form(args) ==> action_of(args) == Err::<
            Directive,
            Problem,
        >(Problem::InvalidAttribute),
        is_skip_form(args) && args.len() > 1 ==> action_of(args) == Err::<Directive, Problem>(
            Problem::TokensFollowNewName,
        ),
        is_rename_form(args) && args.len() > 3 ==> action_of(args) == Err::<Directive, Problem>(
            Problem::TokensFollowNewName,
        ),
{
    reveal_strlit("skip");
    reveal_strlit("rename");
    assert("skip"@.len() != "rename"@.len());
}

/// A struct whose fields all have a name and no attribute that is meant for
/// this expansion (other attributes, such as documentation, may stand on
/// them) gets one accessor for each field, in the fields' order, each named
/// as its field and of its field's type.
pub proof fn lemma_one_accessor_for_each_field(fields: Seq<FieldDeclView>)
    requires
        forall|i: int|
            0 <= i < fields.len() ==> (#[trigger] fields[i]).ident is Some && none_marked(
                fields[i].attrs,
                "getter"@,
            ),
    ensures
        fields_of(fields) is Ok,
        fields_of(fields)->Ok_0.len() == fields.len(),
        forall|i: int|
            0 <= i < fields.len() ==> #[trigger] fields_of(fields)->Ok_0[i] == own_accessor(
                fields[i],
            ),
    decreases fields.len(),
{
    if fields.len() > 0 {
        lemma_one_accessor_for_each_field(fields.drop_last());
        lemma_unmarked_say_nothing(
            fields.last().attrs,
            "getter"@,
            |attr: AttributeView| action_in(attr),
        );
        assert(field_of(fields.last()) == Ok::<Option<FieldView>, Problem>(
            Some(own_accessor(fields.last())),
        ));
        assert forall|i: int| 0 <= i < fields.len() implies #[trigger] fields_of(fields)->Ok_0[i]
            == own_accessor(fields[i]) by {
            if i < fields.len() - 1 {
                assert(fields.drop_last()[i] == fields[i]);
            }
        }
    }
}

/// A struct with named fields that all have a name and no attribute that is
/// meant for this expansion expands to an `impl` block with as many accessors
/// as the struct has fields: the accessor of each field, in the fields'
/// order.
pub proof fn lemma_plain_struct_gets_every_accessor(
    item: DeclaredItemView,
    named: Seq<FieldDeclView>,
)
    requires
        item.data == crate::syntax::DataView::Struct(crate::syntax::FieldsView::Named(named)),
        forall|i: int|
            0 <= i < named.len() ==> (#[trigger] named[i]).ident is Some && none_marked(
                named[i].attrs,
                "getter"@,
            ),
    ensures
        named_struct_of(item) is Ok,
        ({
            let ns = named_struct_of(item)->Ok_0;
            &&& ns.fields.len() == named.len()
            &&& forall|i: int|
                0 <= i < named.len() ==> #[trigger] ns.fields[i] == own_accessor(named[i])
            &&& getters_tokens(ns) == impl_block_tokens(
                item.impl_generics,
                item.name,
                item.type_generics,
                item.where_clause,
                accessors_tokens(ns.fields),
            )
        }),
{
    lemma_one_accessor_for_each_field(named);
}

/// A field marked `skip` is as good as absent: the struct gets what it would
/// get without the field, and where it has a problem, the same problem.
pub proof fn lemma_skipped_field_is_as_absent(fields: Seq<FieldDeclView>, i: int)
    requires
        0 <= i < fields.len(),
        fields[i].ident is Some,
        get_action_of(fields[i].attrs) == Ok::<Option<Directive>, Problem>(Some(Directive::Skip)),
    ensures
        fields_of(fields) == fields_of(fields.remove(i)),
{
    lemma_fields_around(fields, i);
    assert(fields.remove(i) =~= fields.take(i) + fields.skip(i + 1));
    lemma_fields_concat(fields.take(i), fields.skip(i + 1));
    if let Ok(before) = fields_of(fields.take(i)) {
        if let Ok(behind) = fields_of(fields.skip(i + 1)) {
            assert(before + Seq::<FieldView>::empty() + behind =~= before + behind);
        }
    }
}

/// A field marked `skip` loses its accessor, and no other accessor changes:
/// what the struct gets is what it would get without the mark, less the
/// accessor of that field.
pub proof fn lemma_skip_removes_one_accessor(fields: Seq<FieldDeclView>, i: int)
    requires
        0 <= i < fields.len(),
        fields[i].ident is Some,
        get_action_of(fields[i].attrs) == Ok::<Option<Directive>, Problem>(Some(Directive::Skip)),
        fields_of(fields.update(i, unmarked(fields[i]))) is Ok,
    ensures
        fields_of(fields.take(i)) is Ok,
        ({
            let plain = fields_of(fields.update(i, unmarked(fields[i])))->Ok_0;
            let at = fields_of(fields.take(i))->Ok_0.len() as int;
            &&& at < plain.len()
            &&& plain[at] == own_accessor(fields[i])
            &&& fields_of(fields) == Ok::<Seq<FieldView>, Problem>(plain.remove(at))
        }),
{
    let other = fields.update(i, unmarked(fields[i]));
    assert(other.take(i) =~= fields.take(i));
    assert(other.skip(i + 1) =~= fields.skip(i + 1));
    lemma_fields_around(fields, i);
    lemma_fields_around(other, i);
    assert(field_of(other[i]) == Ok::<Option<FieldView>, Problem>(Some(own_accessor(fields[i]))));
    let before = fields_of(fields.take(i))->Ok_0;
    let behind = fields_of(fields.skip(i + 1))->Ok_0;
    let plain = fields_of(other)->Ok_0;
    assert(plain =~= before + seq![own_accessor(fields[i])] + behind);
    assert(plain.remove(before.len() as int) =~= before + Seq::<FieldView>::empty() + behind);
}

/// A field marked `rename` gets an accessor of the new name, for the same
/// field and of the same type, and no other accessor changes: what the struct
/// gets is what it would get without the mark, but for the name of that one
/// accessor. The accessor itself differs from the one that the field would get
/// without the mark in its third token alone, the name behind `pub fn`.
pub proof fn lemma_rename_changes_one_name(
    fields: Seq<FieldDeclView>,
    i: int,
    new_name: Seq<char>,
)
    requires
        0 <= i < fields.len(),
        fields[i].ident is Some,
        get_action_of(fields[i].attrs) == Ok::<Option<Directive>, Problem>(
            Some(Directive::Rename(new_name)),
        ),
        fields_of(fields.update(i, unmarked(fields[i]))) is Ok,
    ensures
        fields_of(fields.take(i)) is Ok,
        ({
            let plain = fields_of(fields.update(i, unmarked(fields[i])))->Ok_0;
            let at = fields_of(fields.take(i))->Ok_0.len() as int;
            &&& at < plain.len()
            &&& plain[at] == own_accessor(fields[i])
            &&& fields_of(fields) == Ok::<Seq<FieldView>, Problem>(
                plain.update(
                    at,
                    FieldView {
                        name: fields[i].ident->Some_0,
                        getter: new_name,
                        ty: fields[i].ty,
                    },
                ),
            )
        }),
        accessor_tokens(
            FieldView { name: fields[i].ident->Some_0, getter: new_name, ty: fields[i].ty },
        ) == accessor_tokens(own_accessor(fields[i])).update(2, Tok::Ident(new_name)),
{
    let other = fields.update(i, unmarked(fields[i]));
    assert(other.take(i) =~= fields.take(i));
    assert(other.skip(i + 1) =~= fields.skip(i + 1));
    lemma_fields_around(fields, i);
    lemma_fields_around(other, i);
    assert(field_of(other[i]) == Ok::<Option<FieldView>, Problem>(Some(own_accessor(fields[i]))));
    let renamed = FieldView { name: fields[i].ident->Some_0, getter: new_name, ty: fields[i].ty };
    let before = fields_of(fields.take(i))->Ok_0;
    let behind = fields_of(fields.skip(i + 1))->Ok_0;
    let plain = fields_of(other)->Ok_0;
    assert(plain =~= before + seq![own_accessor(fields[i])] + behind);
    assert(plain.update(before.len() as int, renamed) =~= before + seq![renamed] + behind);
    assert(accessor_tokens(renamed) =~= accessor_tokens(own_accessor(fields[i])).update(
        2,
        Tok::Ident(new_name),
    ));
}

} // verus!
