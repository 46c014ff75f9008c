use derive_getters::attribute::{has_marker, is_punct, is_word, new_name, same_text};
use derive_getters::extract::{named_fields, named_struct};
use derive_getters::faultmsg::Problem;
use derive_getters::fragment::impl_block;
use derive_getters::ident::{can_continue, can_start, is_ident_like, is_ident_shaped_like};
use derive_getters::syntax::{
    ArgToken, AttrStyle, Attribute, Data, DeclaredItem, FieldDecl, Fields, StrLit,
};
use proc_macro2::{Ident, Span, TokenStream};

fn item(data: Data) -> DeclaredItem {
    DeclaredItem {
        attrs: vec![],
        ident: Ident::new("S", Span::call_site()),
        generics: syn::Generics::default(),
        data,
    }
}

#[test]
fn identifiers_are_told_from_other_strings() {
    assert!(is_ident_like("a"));
    assert!(is_ident_like("_"));
    assert!(is_ident_like("_0"));
    assert!(is_ident_like("Z9_z"));
    assert!(!is_ident_like("\u{e9}t\u{e9}"));
    assert!(!is_ident_like("\u{4e2d}\u{6587}"));
    assert!(!is_ident_like("e\u{301}"));
    assert!(!is_ident_like("a\u{e9}"));
    assert!(!is_ident_like(""));
    assert!(!is_ident_like("0"));
    assert!(!is_ident_like("0a"));
    assert!(!is_ident_like("a-"));
    assert!(!is_ident_like("a b"));
    assert!(!is_ident_like("$a"));
    assert!(!is_ident_like("a\u{2603}"));
    assert!(!is_ident_like("\u{2603}"));
}

#[test]
fn every_problem_has_its_wording() {
    assert_eq!(
        Problem::NotAStruct.message(),
        "can only derive for a struct with named fields, not for an enum or a union"
    );
    assert_eq!(
        Problem::UnitStruct.message(),
        "can only derive for a struct with named fields, not for a unit struct"
    );
    assert_eq!(
        Problem::UnnamedFields.message(),
        "can only derive for a struct with named fields, not for a tuple struct"
    );
    assert_eq!(Problem::UnnamedField.message(), "struct field must be named");
    assert_eq!(Problem::InvalidAttribute.message(), "invalid attribute");
    assert_eq!(Problem::TokensFollowNewName.message(), "tokens are not meant to follow new name");
}

#[test]
fn shapes_are_told_apart() {
    assert!(matches!(named_struct(&item(Data::Enum)), Err(Problem::NotAStruct)));
    assert!(matches!(named_struct(&item(Data::Union)), Err(Problem::NotAStruct)));
    assert!(matches!(named_struct(&item(Data::Struct(Fields::Unit))), Ok(Fields::Unit)));
    assert!(matches!(named_fields(&Fields::Unit), Err(Problem::UnitStruct)));
    assert!(matches!(named_fields(&Fields::Unnamed), Err(Problem::UnnamedFields)));
    let one = FieldDecl { attrs: vec![], ident: None, ty: syn::parse_str("u8").unwrap() };
    match named_fields(&Fields::Named(vec![one])) {
        Ok(named) => assert_eq!(named.len(), 1),
        Err(_) => panic!("the fields are named"),
    }
}

#[test]
fn markers_are_compared_by_their_text() {
    let attr = |style: AttrStyle, name: Option<&str>| Attribute {
        style,
        name: name.map(|n| n.to_string()),
        args: None,
    };
    assert!(has_marker(&attr(AttrStyle::Outer, Some("getter")), "getter"));
    assert!(!has_marker(&attr(AttrStyle::Inner, Some("getter")), "getter"));
    assert!(!has_marker(&attr(AttrStyle::Outer, Some("getters")), "getter"));
    assert!(!has_marker(&attr(AttrStyle::Outer, Some("r#getter")), "getter"));
    assert!(!has_marker(&attr(AttrStyle::Outer, None), "getter"));
    assert!(same_text(&"rename".to_string(), "rename"));
    assert!(!same_text(&"Rename".to_string(), "rename"));
}

#[test]
fn argument_tokens_are_told_apart() {
    assert!(is_word(&ArgToken::Ident("skip".to_string()), "skip"));
    assert!(!is_word(&ArgToken::Str(StrLit::new("skip")), "skip"));
    assert!(!is_word(&ArgToken::Ident("skip".to_string()), "rename"));
    assert!(!is_word(&ArgToken::Other, "skip"));
    assert!(is_punct(&ArgToken::Punct('='), '='));
    assert!(!is_punct(&ArgToken::Punct(','), '='));
    assert!(!is_punct(&ArgToken::Ident("=".to_string()), '='));
}

#[test]
fn new_name_becomes_an_identifier() {
    let args = vec![
        ArgToken::Ident("rename".to_string()),
        ArgToken::Punct('='),
        ArgToken::Str(StrLit::new("shatter")),
    ];
    match new_name(&args) {
        Ok(name) => assert_eq!(name, Ident::new("shatter", Span::call_site())),
        Err(_) => panic!("the arguments are valid"),
    }
}

#[test]
fn impl_block_wraps_its_body() {
    let generics = syn::parse_str::<syn::DeriveInput>("struct P<'a, T: 'a + Copy> where T: Send;")
        .unwrap()
        .generics;
    let body: TokenStream = "fn f() {}".parse().unwrap();
    let out = impl_block(&generics, &Ident::new("P", Span::call_site()), body);
    let expected: TokenStream =
        "impl< 'a, T: 'a + Copy> P< 'a, T> where T: Send { fn f() {} }".parse().unwrap();
    assert_eq!(out.to_string(), expected.to_string());
}

#[test]
fn ascii_identifiers_are_letters_digits_and_underscores() {
    for code in 0u8..128 {
        let c = code as char;
        let alone = c.to_string();
        assert_eq!(is_ident_like(&alone), c.is_ascii_alphabetic() || c == '_');
        let behind = format!("a{}", c);
        assert_eq!(is_ident_like(&behind), c.is_ascii_alphanumeric() || c == '_');
        assert_eq!(can_start(c), c.is_ascii_alphabetic() || c == '_');
        assert_eq!(can_continue(c), c.is_ascii_alphanumeric() || c == '_');
    }
    assert!(!can_start('\u{e9}'));
    assert!(!can_continue('\u{e9}'));
}

#[test]
fn shape_of_an_identifier_goes_by_ascii_alone() {
    for shaped in ["a", "_", "a1", "\u{e9}", "\u{2603}", "a\u{2603}", "\u{2003}a", "\u{e9}9"] {
        assert!(is_ident_shaped_like(shaped));
    }
    for other in ["", "1", "1a", "9\u{e9}", "a b", " a", "a-", "\u{e9}-", "-\u{e9}", "r#a"] {
        assert!(!is_ident_shaped_like(other));
    }
    for code in 0u8..128 {
        let c = code as char;
        assert_eq!(is_ident_shaped_like(&c.to_string()), c.is_ascii_alphabetic() || c == '_');
        assert_eq!(
            is_ident_shaped_like(&format!("\u{e9}{}", c)),
            c.is_ascii_alphanumeric() || c == '_'
        );
    }
}
