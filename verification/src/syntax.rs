//! A declared item as an expansion sees it: its name and generics, its
//! attributes, and whether it is a struct with named fields or something else.
use vstd::prelude::*;
use proc_macro2::Ident;
use syn::{Generics, Type};
use crate::attribute::same_text;
use crate::ident::{
    ident_string, is_ident, is_ident_like, is_ident_shaped, is_ident_shaped_like, new_ident,
    parse_ident, spells_ident,
};
use crate::tokens::{
    ident_text, impl_generics_tokens, type_generics_tokens, type_tokens, where_clause_tokens, Tok,
};

verus! {

/// A string literal among an attribute's arguments: the string that it stands
/// for and, where that string spells an identifier, the identifier.
#[derive(Debug, PartialEq, Eq)]
pub struct StrLit {
    value: String,
    name: Option<Ident>,
}

/// A string literal as a value: its string, and whether that spells an
/// identifier.
pub struct StrLitView {
    pub value: Seq<char>,
    pub names: bool,
}

impl View for StrLit {
    type V = StrLitView;

    closed spec fn view(&self) -> StrLitView {
        StrLitView { value: self.value@, names: self.name is Some }
    }
}

impl StrLit {
    /// The identifier, where there is one, has the text of the string.
    #[verifier::type_invariant]
    spec fn well_formed(self) -> bool {
        match self.name {
            Some(ident) => ident_text(ident) == self.value@,
            None => true,
        }
    }

    /// The literal of a string, given what the parser read the string as. A
    /// plain ASCII name is made an identifier without asking; any other
    /// string of the shape takes the parser's identifier where its text is
    /// the string, unchanged.
    pub fn with_reading(value: &str, parsed: Option<Ident>) -> (lit: StrLit)
        ensures
            lit@ == (StrLitView {
                value: value@,
                names: spells_ident(value@, optional_text(parsed)),
            }),
    {
        let name = if is_ident_like(value) {
            Some(new_ident(value))
        } else if is_ident_shaped_like(value) {
            match parsed {
                Some(ident) => {
                    let text = ident_string(&ident);
                    if same_text(&text, value) {
                        Some(ident)
                    } else {
                        None
                    }
                },
                None => None,
            }
        } else {
            None
        };
        StrLit { value: String::from_str(value), name }
    }

    /// The literal of a string. Whether a string with characters beyond
    /// ASCII spells an identifier is asked of the parser; whatever it
    /// answers, a plain ASCII name does, and a string that has not the shape
    /// of an identifier does not.
    pub fn new(value: &str) -> (lit: StrLit)
        ensures
            lit@.value == value@,
            is_ident(value@) ==> lit@.names,
            lit@.names ==> is_ident_shaped(value@),
    {
        let parsed = if !is_ident_like(value) && is_ident_shaped_like(value) {
            parse_ident(value)
        } else {
            None
        };
        StrLit::with_reading(value, parsed)
    }

    /// The string that the literal stands for.
    pub fn value(&self) -> (value: &String)
        ensures
            value@ == self@.value,
    {
        &self.value
    }

    /// The identifier that the string spells, if it spells one.
    pub fn name(&self) -> (name: Option<&Ident>)
        ensures
            match name {
                Some(ident) => self@.names && ident_text(*ident) == self@.value,
                None => !self@.names,
            },
    {
        proof {
            use_type_invariant(self);
        }
        self.name.as_ref()
    }
}

impl Clone for StrLit {
    fn clone(&self) -> (copy: StrLit)
        ensures
            copy@ == self@,
    {
        proof {
            use_type_invariant(self);
        }
        let name = match &self.name {
            Some(ident) => Some(ident.clone()),
            None => None,
        };
        StrLit { value: self.value.clone(), name }
    }
}

pub open spec fn optional_text(ident: Option<Ident>) -> Option<Seq<char>> {
    match ident {
        Some(ident) => Some(ident_text(ident)),
        None => None,
    }
}

/// One token of an attribute's arguments.
#[derive(Clone, Debug, PartialEq, Eq)]
pub enum ArgToken {
    /// An identifier or keyword, by its text.
    Ident(String),
    /// A punctuation character.
    Punct(char),
    /// A string literal.
    Str(StrLit),
    /// Anything else: a literal that is no string, or a group in brackets.
    Other,
}

/// An argument token as a value.
pub enum ArgTok {
    Ident(Seq<char>),
    Punct(char),
    Str(StrLitView),
    Other,
}

impl View for ArgToken {
    type V = ArgTok;

    open spec fn view(&self) -> ArgTok {
        match self {
            ArgToken::Ident(text) => ArgTok::Ident(text@),
            ArgToken::Punct(ch) => ArgTok::Punct(*ch),
            ArgToken::Str(lit) => ArgTok::Str(lit@),
            ArgToken::Other => ArgTok::Other,
        }
    }
}

/// Where an attribute stands: before its item, or inside it.
#[derive(Clone, Copy, Debug, PartialEq, Eq, Structural)]
pub enum AttrStyle {
    Outer,
    Inner,
}

/// One attribute of an item or of a field.
#[derive(Clone, Debug, PartialEq, Eq)]
pub struct Attribute {
    pub style: AttrStyle,
    /// The attribute's name, where its path is one plain identifier.
    pub name: Option<String>,
    /// The tokens between the brackets behind the name, where there are
    /// brackets.
    pub args: Option<Vec<ArgToken>>,
}

/// An attribute as a value.
pub struct AttributeView {
    pub style: AttrStyle,
    pub name: Option<Seq<char>>,
    pub args: Option<Seq<ArgTok>>,
}

impl View for Attribute {
    type V = AttributeView;

    open spec fn view(&self) -> AttributeView {
        AttributeView {
            style: self.style,
            name: match self.name {
                Some(name) => Some(name@),
                None => None,
            },
            args: match self.args {
                Some(args) => Some(arg_views(args@)),
                None => None,
            },
        }
    }
}

pub open spec fn arg_views(args: Seq<ArgToken>) -> Seq<ArgTok> {
    args.map_values(|t: ArgToken| t@)
}

pub open spec fn attribute_views(attrs: Seq<Attribute>) -> Seq<AttributeView> {
    attrs.map_values(|a: Attribute| a@)
}

/// One entry of a struct's list of fields.
pub struct FieldDecl {
    pub attrs: Vec<Attribute>,
    pub ident: Option<Ident>,
    pub ty: Type,
}

/// A field as a value: its type by the tokens that it prints as.
pub struct FieldDeclView {
    pub attrs: Seq<AttributeView>,
    pub ident: Option<Seq<char>>,
    pub ty: Seq<Tok>,
}

impl View for FieldDecl {
    type V = FieldDeclView;

    open spec fn view(&self) -> FieldDeclView {
        FieldDeclView {
            attrs: attribute_views(self.attrs@),
            ident: match self.ident {
                Some(ident) => Some(ident_text(ident)),
                None => None,
            },
            ty: type_tokens(self.ty),
        }
    }
}

pub open spec fn field_views(fields: Seq<FieldDecl>) -> Seq<FieldDeclView> {
    fields.map_values(|f: FieldDecl| f@)
}

/// The fields of a struct.
pub enum Fields {
    /// Fields with names, between braces.
    Named(Vec<FieldDecl>),
    /// Positional fields, between parentheses.
    Unnamed,
    /// No fields at all.
    Unit,
}

pub enum FieldsView {
    Named(Seq<FieldDeclView>),
    Unnamed,
    Unit,
}

impl View for Fields {
    type V = FieldsView;

    open spec fn view(&self) -> FieldsView {
        match self {
            Fields::Named(fields) => FieldsView::Named(field_views(fields@)),
            Fields::Unnamed => FieldsView::Unnamed,
            Fields::Unit => FieldsView::Unit,
        }
    }
}

/// What kind of item was declared.
pub enum Data {
    Struct(Fields),
    Enum,
    Union,
}

pub enum DataView {
    Struct(FieldsView),
    Enum,
    Union,
}

impl View for Data {
    type V = DataView;

    open spec fn view(&self) -> DataView {
        match self {
            Data::Struct(fields) => DataView::Struct(fields@),
            Data::Enum => DataView::Enum,
            Data::Union => DataView::Union,
        }
    }
}

/// A declared item, handed to an expansion.
pub struct DeclaredItem {
    pub attrs: Vec<Attribute>,
    pub ident: Ident,
    pub generics: Generics,
    pub data: Data,
}

/// A declared item as a value: its generics by the tokens that they print
/// as, in each of the three places where an `impl` block repeats them.
pub struct DeclaredItemView {
    pub attrs: Seq<AttributeView>,
    pub name: Seq<char>,
    pub impl_generics: Seq<Tok>,
    pub type_generics: Seq<Tok>,
    pub where_clause: Seq<Tok>,
    pub data: DataView,
}

impl View for DeclaredItem {
    type V = DeclaredItemView;

    open spec fn view(&self) -> DeclaredItemView {
        DeclaredItemView {
            attrs: attribute_views(self.attrs@),
            name: ident_text(self.ident),
            impl_generics: impl_generics_tokens(self.generics),
            type_generics: type_generics_tokens(self.generics),
            where_clause: where_clause_tokens(self.generics),
            data: self.data@,
        }
    }
}

} // verus!
