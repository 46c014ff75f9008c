//! The expansion that takes a struct apart: one method that consumes the
//! struct and returns its fields as a tuple, in the order of declaration.
use vstd::prelude::*;
use proc_macro2::{Ident, TokenStream};
use syn::Type;
use crate::attribute::{
    has_marker, last_marked, lemma_marked_step, lemma_problem_stays, new_name, rename_of,
};
use crate::extract::{named_fields, named_fields_of, named_struct};
use crate::faultmsg::Problem;
use crate::fragment::{
    arrow, comma_joined, impl_block, impl_block_tokens, lemma_joined_step, push_arrow,
    push_word, tuple_inner,
};
use crate::syntax::{
    arg_views, attribute_views, field_views, ArgToken, Attribute, AttributeView, DeclaredItem,
    DeclaredItemView, FieldDecl, FieldDeclView,
};
use crate::tokens::{
    empty_stream, ident_text, push_group, push_ident, push_punct, push_type, stream_tokens,
    type_tokens, Delimiter, Spacing, Tok,
};

verus! {

/// One field of the struct: its type and its name.
pub struct Field {
    ty: Type,
    name: Ident,
}

/// A field as a value: its name, and the tokens of its type.
pub struct FieldView {
    pub name: Seq<char>,
    pub ty: Seq<Tok>,
}

impl View for Field {
    type V = FieldView;

    closed spec fn view(&self) -> FieldView {
        FieldView { name: ident_text(self.name), ty: type_tokens(self.ty) }
    }
}

/// What is kept of one entry of a list of fields; an entry without a name is a
/// problem.
pub open spec fn field_of(field: FieldDeclView) -> Result<FieldView, Problem> {
    match field.ident {
        Some(name) => Ok(FieldView { name, ty: field.ty }),
        None => Err(Problem::UnnamedField),
    }
}

/// What is kept of a list of fields: every entry, in its place, where every
/// entry has a name.
pub open spec fn fields_of(fields: Seq<FieldDeclView>) -> Result<Seq<FieldView>, Problem> {
    if forall|i: int| 0 <= i < fields.len() ==> (#[trigger] fields[i]).ident is Some {
        Ok(fields.map_values(|f: FieldDeclView| FieldView { name: f.ident->Some_0, ty: f.ty }))
    } else {
        Err(Problem::UnnamedField)
    }
}

pub open spec fn views_of(fields: Seq<Field>) -> Seq<FieldView> {
    fields.map_values(|f: Field| f@)
}

impl Field {
    /// Keeps the name and the type of one entry of a list of fields.
    pub fn from_field(field: &FieldDecl) -> (r: Result<Field, Problem>)
        ensures
            match r {
                Ok(kept) => field_of(field@) == Ok::<FieldView, Problem>(kept@),
                Err(problem) => field_of(field@) == Err::<FieldView, Problem>(problem),
            },
    {
        match &field.ident {
            Some(name) => Ok(Field { ty: field.ty.clone(), name: name.clone() }),
            None => Err(Problem::UnnamedField),
        }
    }

    /// Keeps the names and the types of a list of fields, in their order.
    pub fn from_fields_named(fields_named: &Vec<FieldDecl>) -> (r: Result<Vec<Field>, Problem>)
        ensures
            match r {
                Ok(kept) => fields_of(field_views(fields_named@)) == Ok::<Seq<FieldView>, Problem>(
                    views_of(kept@),
                ),
                Err(problem) => fields_of(field_views(fields_named@)) == Err::<
                    Seq<FieldView>,
                    Problem,
                >(problem),
            },
    {
        let ghost decls = field_views(fields_named@);
        let mut kept: Vec<Field> = Vec::new();
        let mut i: usize = 0;
        while i < fields_named.len()
            invariant
                i <= fields_named.len(),
                decls == field_views(fields_named@),
                kept@.len() == i,
                forall|j: int| 0 <= j < i ==> field_of(#[trigger] decls[j]) == Ok::<FieldView, Problem>(kept@[j]@),
            decreases fields_named.len() - i,
        {
            match Field::from_field(&fields_named[i]) {
                Ok(field) => {
                    kept.push(field);
                },
                Err(problem) => {
                    assert(decls[i as int].ident is None);
                    return Err(problem);
                },
            }
            i += 1;
        }
        assert(views_of(kept@) =~= decls.map_values(
            |f: FieldDeclView| FieldView { name: f.ident->Some_0, ty: f.ty },
        ));
        Ok(kept)
    }
}

/// The new name that an attribute of the struct gives to the method.
pub struct Rename {
    name: Ident,
}

impl Rename {
    /// Reads the arguments of one attribute: only `rename = "name"` is
    /// valid.
    pub fn parse(input: &Vec<ArgToken>) -> (r: Result<Rename, Problem>)
        ensures
            match r {
                Ok(rename) => rename_of(arg_views(input@)) == Ok::<Seq<char>, Problem>(
                    rename.text(),
                ),
                Err(problem) => rename_of(arg_views(input@)) == Err::<Seq<char>, Problem>(problem),
            },
    {
        match new_name(input) {
            Ok(name) => Ok(Rename { name }),
            Err(problem) => Err(problem),
        }
    }

    /// The new name.
    pub closed spec fn text(&self) -> Seq<char> {
        ident_text(self.name)
    }
}

/// What one attribute that is meant for this expansion says: without
/// arguments in brackets it is invalid.
pub open spec fn rename_in(attr: AttributeView) -> Result<Seq<char>, Problem> {
    match attr.args {
        Some(args) => rename_of(args),
        None => Err(Problem::InvalidAttribute),
    }
}

/// The new name of the method, if the struct's attributes give one.
pub open spec fn dissolve_rename_of(attrs: Seq<AttributeView>) -> Result<
    Option<Seq<char>>,
    Problem,
> {
    last_marked(attrs, "dissolve"@, |attr: AttributeView| rename_in(attr))
}

pub open spec fn name_text(name: Option<Ident>) -> Option<Seq<char>> {
    match name {
        Some(ident) => Some(ident_text(ident)),
        None => None,
    }
}

/// Looks through the attributes of the struct for a new name of the method.
pub fn dissolve_rename_from(attributes: &Vec<Attribute>) -> (r: Result<Option<Ident>, Problem>)
    ensures
        match r {
            Ok(name) => dissolve_rename_of(attribute_views(attributes@)) == Ok::<
                Option<Seq<char>>,
                Problem,
            >(name_text(name)),
            Err(problem) => dissolve_rename_of(attribute_views(attributes@)) == Err::<
                Option<Seq<char>>,
                Problem,
            >(problem),
        },
{
    let ghost attrs = attribute_views(attributes@);
    let ghost read = |attr: AttributeView| rename_in(attr);
    let mut current: Option<Ident> = None;
    let mut i: usize = 0;
    while i < attributes.len()
        invariant
            i <= attributes.len(),
            attrs == attribute_views(attributes@),
            read == (|attr: AttributeView| rename_in(attr)),
            last_marked(attrs.take(i as int), "dissolve"@, read) == Ok::<
                Option<Seq<char>>,
                Problem,
            >(name_text(current)),
        decreases attributes.len() - i,
    {
        proof {
            lemma_marked_step(attrs, "dissolve"@, read, i as int);
        }
        let attr = &attributes[i];
        if has_marker(attr, "dissolve") {
            let parsed = match &attr.args {
                Some(args) => Rename::parse(args),
                None => Err(Problem::InvalidAttribute),
            };
            match parsed {
                Ok(rename) => {
                    current = Some(rename.name);
                },
                Err(problem) => {
                    proof {
                        lemma_problem_stays(attrs, "dissolve"@, read, i + 1);
                    }
                    return Err(problem);
                },
            }
        }
        i += 1;
    }
    assert(attrs.take(i as int) =~= attrs);
    Ok(current)
}

/// A struct with named fields, ready to be given its method.
pub struct NamedStruct<'a> {
    declared: &'a DeclaredItem,
    name: Ident,
    fields: Vec<Field>,
    dissolve_rename: Option<Ident>,
}

/// Such a struct as a value.
pub struct NamedStructView {
    pub name: Seq<char>,
    pub impl_generics: Seq<Tok>,
    pub type_generics: Seq<Tok>,
    pub where_clause: Seq<Tok>,
    pub fields: Seq<FieldView>,
    pub rename: Option<Seq<char>>,
}

impl<'a> View for NamedStruct<'a> {
    type V = NamedStructView;

    closed spec fn view(&self) -> NamedStructView {
        NamedStructView {
            name: ident_text(self.name),
            impl_generics: self.declared@.impl_generics,
            type_generics: self.declared@.type_generics,
            where_clause: self.declared@.where_clause,
            fields: views_of(self.fields@),
            rename: name_text(self.dissolve_rename),
        }
    }
}

/// What an item gives where it is a struct with named fields: its name and
/// generics, its fields, and the new name of the method if it has one. The
/// item's kind is looked at first, then its fields, then its attributes.
pub open spec fn named_struct_of(item: DeclaredItemView) -> Result<NamedStructView, Problem> {
    match named_fields_of(item.data) {
        Err(problem) => Err(problem),
        Ok(named) => match fields_of(named) {
            Err(problem) => Err(problem),
            Ok(fields) => match dissolve_rename_of(item.attrs) {
                Err(problem) => Err(problem),
                Ok(rename) => Ok(
                    NamedStructView {
                        name: item.name,
                        impl_generics: item.impl_generics,
                        type_generics: item.type_generics,
                        where_clause: item.where_clause,
                        fields,
                        rename,
                    },
                ),
            },
        },
    }
}

/// The name of the method: the new name where there is one, else `dissolve`.
pub open spec fn method_name(rename: Option<Seq<char>>) -> Seq<char> {
    match rename {
        Some(name) => name,
        None => "dissolve"@,
    }
}

/// The types of the fields, in their order.
pub open spec fn type_parts(fields: Seq<FieldView>) -> Seq<Seq<Tok>> {
    fields.map_values(|f: FieldView| f.ty)
}

/// The expression that moves one field out of `self`.
pub open spec fn moved_out(name: Seq<char>) -> Seq<Tok> {
    seq![Tok::Ident("self"@), Tok::Punct('.', Spacing::Alone), Tok::Ident(name)]
}

/// The fields moved out of `self`, in their order.
pub open spec fn value_parts(fields: Seq<FieldView>) -> Seq<Seq<Tok>> {
    fields.map_values(|f: FieldView| moved_out(f.name))
}

/// The method: public, named as asked, taking `self` by value, returning the
/// tuple of the fields' types, with the tuple of the fields' values as its
/// body.
pub open spec fn method_tokens(name: Seq<char>, fields: Seq<FieldView>) -> Seq<Tok> {
    seq![
        Tok::Ident("pub"@),
        Tok::Ident("fn"@),
        Tok::Ident(name),
        Tok::Group(Delimiter::Parenthesis, seq![Tok::Ident("self"@)]),
    ] + arrow() + seq![
        Tok::Group(Delimiter::Parenthesis, tuple_inner(type_parts(fields))),
        Tok::Group(
            Delimiter::Brace,
            seq![Tok::Group(Delimiter::Parenthesis, tuple_inner(value_parts(fields)))],
        ),
    ]
}

/// The whole fragment: an `impl` block of the struct that holds the method.
pub open spec fn dissolve_tokens(ns: NamedStructView) -> Seq<Tok> {
    impl_block_tokens(
        ns.impl_generics,
        ns.name,
        ns.type_generics,
        ns.where_clause,
        method_tokens(method_name(ns.rename), ns.fields),
    )
}

impl<'a> NamedStruct<'a> {
    /// Writes the `impl` block with the method.
    pub fn emit(&self) -> (out: TokenStream)
        ensures
            stream_tokens(out) == dissolve_tokens(self@),
    {
        let ghost fields = views_of(self.fields@);
        let n: usize = self.fields.len();
        let mut types = empty_stream();
        let mut values = empty_stream();
        proof {
            reveal_strlit("self");
            reveal_strlit("pub");
            reveal_strlit("fn");
            reveal_strlit("dissolve");
        }
        let mut i: usize = 0;
        while i < n
            invariant
                i <= n,
                n == self.fields@.len(),
                fields == views_of(self.fields@),
                crate::ident::is_ident("self"@),
                stream_tokens(types) == comma_joined(type_parts(fields).take(i as int)),
                stream_tokens(values) == comma_joined(value_parts(fields).take(i as int)),
            decreases n - i,
        {
            if i > 0 {
                push_punct(&mut types, ',', Spacing::Alone);
                push_punct(&mut values, ',', Spacing::Alone);
            }
            let field = &self.fields[i];
            push_type(&mut types, &field.ty);
            push_word(&mut values, "self");
            push_punct(&mut values, '.', Spacing::Alone);
            push_ident(&mut values, &field.name);
            proof {
                lemma_joined_step(type_parts(fields), i as int);
                lemma_joined_step(value_parts(fields), i as int);
                assert(stream_tokens(types) =~= comma_joined(type_parts(fields).take(i + 1)));
                assert(stream_tokens(values) =~= comma_joined(value_parts(fields).take(i + 1)));
            }
            i += 1;
        }
        assert(type_parts(fields).take(n as int) =~= type_parts(fields));
        assert(value_parts(fields).take(n as int) =~= value_parts(fields));
        if n == 1 {
            push_punct(&mut types, ',', Spacing::Alone);
            push_punct(&mut values, ',', Spacing::Alone);
        }
        let mut tuple = empty_stream();
        push_group(&mut tuple, Delimiter::Parenthesis, values);

        let mut receiver = empty_stream();
        push_word(&mut receiver, "self");

        let mut method = empty_stream();
        push_word(&mut method, "pub");
        push_word(&mut method, "fn");
        match &self.dissolve_rename {
            Some(name) => push_ident(&mut method, name),
            None => push_word(&mut method, "dissolve"),
        }
        push_group(&mut method, Delimiter::Parenthesis, receiver);
        push_arrow(&mut method);
        push_group(&mut method, Delimiter::Parenthesis, types);
        push_group(&mut method, Delimiter::Brace, tuple);
        assert(stream_tokens(method) =~= method_tokens(method_name(self@.rename), fields));
        impl_block(&self.declared.generics, &self.name, method)
    }

    /// Reads an item: it must be a struct with named fields, each of them
    /// with a name, and every attribute that is meant for this expansion
    /// must be valid.
    pub fn try_from(node: &'a DeclaredItem) -> (r: Result<NamedStruct<'a>, Problem>)
        ensures
            match r {
                Ok(ns) => named_struct_of(node@) == Ok::<NamedStructView, Problem>(ns@),
                Err(problem) => named_struct_of(node@) == Err::<NamedStructView, Problem>(problem),
            },
    {
        let struct_data = match named_struct(node) {
            Ok(fields) => fields,
            Err(problem) => return Err(problem),
        };
        let named = match named_fields(struct_data) {
            Ok(named) => named,
            Err(problem) => return Err(problem),
        };
        let fields = match Field::from_fields_named(named) {
            Ok(fields) => fields,
            Err(problem) => return Err(problem),
        };
        let rename = match dissolve_rename_from(&node.attrs) {
            Ok(rename) => rename,
            Err(problem) => return Err(problem),
        };
        Ok(NamedStruct { declared: node, name: node.ident.clone(), fields, dissolve_rename: rename })
    }
}

/// An item without its attributes.
pub open spec fn unmarked(item: DeclaredItemView) -> DeclaredItemView {
    DeclaredItemView {
        attrs: Seq::empty(),
        name: item.name,
        impl_generics: item.impl_generics,
        type_generics: item.type_generics,
        where_clause: item.where_clause,
        data: item.data,
    }
}

/// A struct with named fields, each with a name, and with valid attributes
/// gets one method, and the tuple that it returns follows the declaration:
/// as many places as the struct has fields, and in each place the type and
/// the value of the field that was declared in that place.
pub proof fn lemma_tuple_follows_declaration(item: DeclaredItemView, named: Seq<FieldDeclView>)
    requires
        item.data == crate::syntax::DataView::Struct(crate::syntax::FieldsView::Named(named)),
        forall|i: int| 0 <= i < named.len() ==> (#[trigger] named[i]).ident is Some,
        dissolve_rename_of(item.attrs) is Ok,
    ensures
        named_struct_of(item) is Ok,
        ({
            let ns = named_struct_of(item)->Ok_0;
            &&& ns.fields.len() == named.len()
            &&& type_parts(ns.fields).len() == named.len()
            &&& value_parts(ns.fields).len() == named.len()
            &&& forall|i: int|
                0 <= i < named.len() ==> {
                    &&& (#[trigger] ns.fields[i]).name == named[i].ident->Some_0
                    &&& type_parts(ns.fields)[i] == named[i].ty
                    &&& value_parts(ns.fields)[i] == moved_out(named[i].ident->Some_0)
                }
            &&& dissolve_tokens(ns) == impl_block_tokens(
                item.impl_generics,
                item.name,
                item.type_generics,
                item.where_clause,
                method_tokens(method_name(dissolve_rename_of(item.attrs)->Ok_0), ns.fields),
            )
        }),
{
}

/// A struct marked `rename` gets the method that it would get without the
/// mark, under the new name: the same struct, the same fields in the same
/// order, and so the same tuple. The two methods differ in their third token
/// alone, the name behind `pub fn`.
pub proof fn lemma_rename_changes_the_name_only(item: DeclaredItemView, new_name: Seq<char>)
    requires
        dissolve_rename_of(item.attrs) == Ok::<Option<Seq<char>>, Problem>(Some(new_name)),
        named_struct_of(unmarked(item)) is Ok,
    ensures
        named_struct_of(item) is Ok,
        ({
            let plain = named_struct_of(unmarked(item))->Ok_0;
            let renamed = named_struct_of(item)->Ok_0;
            &&& plain.rename is None
            &&& renamed == NamedStructView { rename: Some(new_name), ..plain }
            &&& dissolve_tokens(plain) == impl_block_tokens(
                item.impl_generics,
                item.name,
                item.type_generics,
                item.where_clause,
                method_tokens("dissolve"@, plain.fields),
            )
            &&& dissolve_tokens(renamed) == impl_block_tokens(
                item.impl_generics,
                item.name,
                item.type_generics,
                item.where_clause,
                method_tokens(new_name, plain.fields),
            )
            &&& method_tokens(new_name, plain.fields) == method_tokens(
                "dissolve"@,
                plain.fields,
            ).update(2, Tok::Ident(new_name))
        }),
{
    let plain = named_struct_of(unmarked(item))->Ok_0;
    assert(method_tokens(new_name, plain.fields) =~= method_tokens(
        "dissolve"@,
        plain.fields,
    ).update(2, Tok::Ident(new_name)));
}

} // verus!
