use derive_getters::dissolve as take_apart;
use derive_getters::faultmsg::Problem;
use derive_getters::getters as accessors;
use derive_getters::syntax::{
    ArgToken, AttrStyle, Attribute, Data, DeclaredItem, FieldDecl, Fields, StrLit,
};
use derive_getters::{dissolve, getters};
use proc_macro2::{Ident, Span, TokenStream};

fn ident(text: &str) -> Ident {
    Ident::new(text, Span::call_site())
}

fn generics_of(declaration: &str) -> syn::Generics {
    syn::parse_str::<syn::DeriveInput>(declaration).unwrap().generics
}

fn attribute(name: &str, args: Vec<ArgToken>) -> Attribute {
    Attribute { style: AttrStyle::Outer, name: Some(name.to_string()), args: Some(args) }
}

fn skip() -> Attribute {
    attribute("getter", vec![ArgToken::Ident("skip".to_string())])
}

fn rename_args(new_name: &str) -> Vec<ArgToken> {
    vec![
        ArgToken::Ident("rename".to_string()),
        ArgToken::Punct('='),
        ArgToken::Str(StrLit::new(new_name)),
    ]
}

fn rename(marker: &str, new_name: &str) -> Attribute {
    attribute(marker, rename_args(new_name))
}

fn field(name: &str, ty: &str, attrs: Vec<Attribute>) -> FieldDecl {
    FieldDecl { attrs, ident: Some(ident(name)), ty: syn::parse_str(ty).unwrap() }
}

fn item(declaration: &str, name: &str, attrs: Vec<Attribute>, data: Data) -> DeclaredItem {
    DeclaredItem { attrs, ident: ident(name), generics: generics_of(declaration), data }
}

fn named(name: &str, attrs: Vec<Attribute>, fields: Vec<FieldDecl>) -> DeclaredItem {
    item("struct S {}", name, attrs, Data::Struct(Fields::Named(fields)))
}

fn same_tokens(out: &TokenStream, expected: &str) -> bool {
    out.to_string() == expected.parse::<TokenStream>().unwrap().to_string()
}

fn diagnostic_of(problem: Problem) -> String {
    syn::Error::new(Span::call_site(), problem.message()).to_compile_error().to_string()
}

fn number() -> DeclaredItem {
    named("Number", vec![], vec![field("num", "u64", vec![])])
}

fn stuff() -> DeclaredItem {
    named(
        "Stuff",
        vec![],
        vec![
            field("name", "String", vec![]),
            field("price", "f64", vec![]),
            field("count", "usize", vec![]),
        ],
    )
}

#[test]
fn number_gets_its_accessor() {
    let out = getters(&number());
    assert!(same_tokens(&out, "impl Number { pub fn num(&self) -> &u64 { &self.num } }"));
}

#[test]
fn accessor_tokens_read_as_written() {
    let out = getters(&number());
    assert_eq!(out.to_string(), "impl Number { pub fn num (& self) -> & u64 { & self . num } }");
}

#[test]
fn stuff_dissolves_into_a_triple() {
    let out = dissolve(&stuff());
    assert!(same_tokens(
        &out,
        "impl Stuff { pub fn dissolve(self) -> (String, f64, usize) { (self.name, self.price, self.count) } }",
    ));
}

#[test]
fn one_accessor_for_each_field_in_order() {
    let out = getters(&stuff());
    assert!(same_tokens(
        &out,
        "impl Stuff {
            pub fn name(&self) -> &String { &self.name }
            pub fn price(&self) -> &f64 { &self.price }
            pub fn count(&self) -> &usize { &self.count }
        }",
    ));
}

#[test]
fn struct_without_fields_gets_an_empty_block() {
    let empty = named("Nothing", vec![], vec![]);
    assert!(same_tokens(&getters(&empty), "impl Nothing {}"));
    assert!(same_tokens(&dissolve(&empty), "impl Nothing { pub fn dissolve(self) -> () { () } }"));
}

#[test]
fn single_field_dissolves_into_a_tuple_of_one() {
    let out = dissolve(&number());
    assert!(same_tokens(&out, "impl Number { pub fn dissolve(self) -> (u64,) { (self.num,) } }"));
}

#[test]
fn generics_with_bounds_are_repeated() {
    let declaration = "struct Generic<T: Clone, U: Copy> { gen_t: T, gen_u: U }";
    let generic = item(
        declaration,
        "Generic",
        vec![],
        Data::Struct(Fields::Named(vec![field("gen_t", "T", vec![]), field("gen_u", "U", vec![])])),
    );
    assert!(same_tokens(
        &getters(&generic),
        "impl<T: Clone, U: Copy> Generic<T, U> {
            pub fn gen_t(&self) -> &T { &self.gen_t }
            pub fn gen_u(&self) -> &U { &self.gen_u }
        }",
    ));
    assert!(same_tokens(
        &dissolve(&generic),
        "impl<T: Clone, U: Copy> Generic<T, U> {
            pub fn dissolve(self) -> (T, U) { (self.gen_t, self.gen_u) }
        }",
    ));
}

#[test]
fn where_clause_is_repeated() {
    let declaration = "struct Bounded<T> where T: Clone + Send { inner: Vec<T> }";
    let bounded = item(
        declaration,
        "Bounded",
        vec![],
        Data::Struct(Fields::Named(vec![field("inner", "Vec<T>", vec![])])),
    );
    assert!(same_tokens(
        &getters(&bounded),
        "impl<T> Bounded<T> where T: Clone + Send { pub fn inner(&self) -> &Vec<T> { &self.inner } }",
    ));
}

#[test]
fn lifetimes_are_repeated() {
    let declaration = "struct Annotated<'a, 'b, T> { stuff: &'a T, comp: &'b str, num: u64 }";
    let annotated = item(
        declaration,
        "Annotated",
        vec![],
        Data::Struct(Fields::Named(vec![
            field("stuff", "&'a T", vec![]),
            field("comp", "&'b str", vec![]),
            field("num", "u64", vec![]),
        ])),
    );
    assert!(same_tokens(
        &getters(&annotated),
        "impl< 'a, 'b, T> Annotated< 'a, 'b, T> {
            pub fn stuff(&self) -> & & 'a T { &self.stuff }
            pub fn comp(&self) -> & & 'b str { &self.comp }
            pub fn num(&self) -> &u64 { &self.num }
        }",
    ));
    assert!(same_tokens(
        &dissolve(&annotated),
        "impl< 'a, 'b, T> Annotated< 'a, 'b, T> {
            pub fn dissolve(self) -> (& 'a T, & 'b str, u64) { (self.stuff, self.comp, self.num) }
        }",
    ));
}

#[test]
fn defaults_of_generics_are_left_out() {
    let declaration = "struct Holder<T = u8> { held: T }";
    let holder = item(
        declaration,
        "Holder",
        vec![],
        Data::Struct(Fields::Named(vec![field("held", "T", vec![])])),
    );
    assert!(same_tokens(
        &getters(&holder),
        "impl<T> Holder<T> { pub fn held(&self) -> &T { &self.held } }",
    ));
}

#[test]
fn skipped_field_gets_no_accessor() {
    let attributed = named(
        "Attributed",
        vec![],
        vec![
            field("keep_me", "u64", vec![]),
            field("skip_me", "u64", vec![skip()]),
            field("rename_me", "u64", vec![rename("getter", "number")]),
        ],
    );
    assert!(same_tokens(
        &getters(&attributed),
        "impl Attributed {
            pub fn keep_me(&self) -> &u64 { &self.keep_me }
            pub fn number(&self) -> &u64 { &self.rename_me }
        }",
    ));
}

#[test]
fn skipping_is_as_if_the_field_were_absent() {
    let with = named(
        "S",
        vec![],
        vec![field("a", "u8", vec![]), field("b", "u16", vec![skip()]), field("c", "u32", vec![])],
    );
    let without = named("S", vec![], vec![field("a", "u8", vec![]), field("c", "u32", vec![])]);
    assert_eq!(getters(&with).to_string(), getters(&without).to_string());
}

#[test]
fn renamed_accessor_reads_the_same_field() {
    let renamed = named("S", vec![], vec![field("a", "u8", vec![rename("getter", "x")])]);
    assert!(same_tokens(&getters(&renamed), "impl S { pub fn x(&self) -> &u8 { &self.a } }"));
}

#[test]
fn attributes_of_fields_mean_nothing_to_dissolve() {
    let attributed = named(
        "S",
        vec![],
        vec![field("a", "u8", vec![skip()]), field("b", "u16", vec![rename("getter", "x")])],
    );
    assert!(same_tokens(
        &dissolve(&attributed),
        "impl S { pub fn dissolve(self) -> (u8, u16) { (self.a, self.b) } }",
    ));
}

#[test]
fn dissolve_can_be_renamed() {
    let numbers = named(
        "Numbers",
        vec![rename("dissolve", "shatter")],
        vec![field("a", "u64", vec![]), field("b", "i64", vec![]), field("c", "f64", vec![])],
    );
    assert!(same_tokens(
        &dissolve(&numbers),
        "impl Numbers { pub fn shatter(self) -> (u64, i64, f64) { (self.a, self.b, self.c) } }",
    ));
}

#[test]
fn struct_attributes_mean_nothing_to_getters() {
    let numbers = named(
        "Numbers",
        vec![rename("dissolve", "shatter"), attribute("getter", vec![ArgToken::Other])],
        vec![field("a", "u64", vec![])],
    );
    assert!(same_tokens(&getters(&numbers), "impl Numbers { pub fn a(&self) -> &u64 { &self.a } }"));
}

#[test]
fn last_attribute_wins() {
    let twice = named(
        "S",
        vec![rename("dissolve", "first"), rename("dissolve", "second")],
        vec![field("a", "u8", vec![rename("getter", "x"), skip(), rename("getter", "y")])],
    );
    assert!(same_tokens(&getters(&twice), "impl S { pub fn y(&self) -> &u8 { &self.a } }"));
    assert!(same_tokens(&dissolve(&twice), "impl S { pub fn second(self) -> (u8,) { (self.a,) } }"));
    let skipped_last = named("S", vec![], vec![field("a", "u8", vec![rename("getter", "x"), skip()])]);
    assert!(same_tokens(&getters(&skipped_last), "impl S {}"));
}

#[test]
fn inner_attributes_are_passed_over() {
    let mut inner = skip();
    inner.style = AttrStyle::Inner;
    let mut broken = attribute("dissolve", vec![ArgToken::Other]);
    broken.style = AttrStyle::Inner;
    let s = named("S", vec![broken], vec![field("a", "u8", vec![inner])]);
    assert!(same_tokens(&getters(&s), "impl S { pub fn a(&self) -> &u8 { &self.a } }"));
    assert!(same_tokens(&dissolve(&s), "impl S { pub fn dissolve(self) -> (u8,) { (self.a,) } }"));
}

#[test]
fn attributes_of_other_names_are_passed_over() {
    let doc = attribute("doc", vec![ArgToken::Ident("hidden".to_string())]);
    let path = Attribute { style: AttrStyle::Outer, name: None, args: Some(vec![ArgToken::Other]) };
    let derive = Attribute { style: AttrStyle::Outer, name: Some("derive".to_string()), args: None };
    let s = named("S", vec![derive, path], vec![field("a", "u8", vec![doc, rename("dissolve", "x")])]);
    assert!(same_tokens(&getters(&s), "impl S { pub fn a(&self) -> &u8 { &self.a } }"));
    assert!(same_tokens(&dissolve(&s), "impl S { pub fn dissolve(self) -> (u8,) { (self.a,) } }"));
}

#[test]
fn raw_identifiers_are_kept() {
    let raw = FieldDecl {
        attrs: vec![],
        ident: Some(Ident::new_raw("type", Span::call_site())),
        ty: syn::parse_str("u8").unwrap(),
    };
    let s = named("S", vec![], vec![raw]);
    assert!(same_tokens(&getters(&s), "impl S { pub fn r#type(&self) -> &u8 { &self.r#type } }"));
}

#[test]
fn enum_is_no_struct() {
    let e = item("enum E {}", "E", vec![], Data::Enum);
    assert!(matches!(accessors::NamedStruct::try_from(&e), Err(Problem::NotAStruct)));
    assert!(matches!(take_apart::NamedStruct::try_from(&e), Err(Problem::NotAStruct)));
    assert_eq!(getters(&e).to_string(), diagnostic_of(Problem::NotAStruct));
    assert_eq!(dissolve(&e).to_string(), diagnostic_of(Problem::NotAStruct));
}

#[test]
fn union_is_no_struct() {
    let u = item("struct U {}", "U", vec![], Data::Union);
    assert!(matches!(accessors::NamedStruct::try_from(&u), Err(Problem::NotAStruct)));
    assert!(matches!(take_apart::NamedStruct::try_from(&u), Err(Problem::NotAStruct)));
    assert_eq!(getters(&u).to_string(), diagnostic_of(Problem::NotAStruct));
    assert_eq!(dissolve(&u).to_string(), diagnostic_of(Problem::NotAStruct));
}

#[test]
fn unit_struct_is_refused() {
    let unit = item("struct U;", "U", vec![], Data::Struct(Fields::Unit));
    assert!(matches!(accessors::NamedStruct::try_from(&unit), Err(Problem::UnitStruct)));
    assert!(matches!(take_apart::NamedStruct::try_from(&unit), Err(Problem::UnitStruct)));
    assert_eq!(getters(&unit).to_string(), diagnostic_of(Problem::UnitStruct));
    assert_eq!(dissolve(&unit).to_string(), diagnostic_of(Problem::UnitStruct));
}

#[test]
fn tuple_struct_is_refused() {
    let tuple = item("struct T(u8);", "T", vec![], Data::Struct(Fields::Unnamed));
    assert!(matches!(accessors::NamedStruct::try_from(&tuple), Err(Problem::UnnamedFields)));
    assert!(matches!(take_apart::NamedStruct::try_from(&tuple), Err(Problem::UnnamedFields)));
    assert_eq!(getters(&tuple).to_string(), diagnostic_of(Problem::UnnamedFields));
    assert_eq!(dissolve(&tuple).to_string(), diagnostic_of(Problem::UnnamedFields));
}

#[test]
fn the_kind_of_item_comes_before_its_attributes() {
    let e = item("enum E {}", "E", vec![attribute("dissolve", vec![ArgToken::Other])], Data::Enum);
    assert!(matches!(take_apart::NamedStruct::try_from(&e), Err(Problem::NotAStruct)));
}

#[test]
fn field_without_a_name_is_refused() {
    let nameless = FieldDecl { attrs: vec![], ident: None, ty: syn::parse_str("u8").unwrap() };
    let s = named("S", vec![], vec![field("a", "u8", vec![]), nameless]);
    assert!(matches!(accessors::NamedStruct::try_from(&s), Err(Problem::UnnamedField)));
    assert!(matches!(take_apart::NamedStruct::try_from(&s), Err(Problem::UnnamedField)));
    assert_eq!(getters(&s).to_string(), diagnostic_of(Problem::UnnamedField));
}

#[test]
fn first_field_with_a_problem_decides() {
    let nameless = FieldDecl { attrs: vec![], ident: None, ty: syn::parse_str("u8").unwrap() };
    let broken = field("a", "u8", vec![attribute("getter", vec![ArgToken::Other])]);
    let s = named("S", vec![], vec![broken, nameless]);
    assert!(matches!(accessors::NamedStruct::try_from(&s), Err(Problem::InvalidAttribute)));
    let nameless = FieldDecl { attrs: vec![], ident: None, ty: syn::parse_str("u8").unwrap() };
    let broken = field("a", "u8", vec![attribute("getter", vec![ArgToken::Other])]);
    let s = named("S", vec![], vec![nameless, broken]);
    assert!(matches!(accessors::NamedStruct::try_from(&s), Err(Problem::UnnamedField)));
}

#[test]
fn first_attribute_with_a_problem_decides() {
    let mut trailing = rename_args("x");
    trailing.push(ArgToken::Punct(','));
    let attrs = vec![
        attribute("getter", trailing),
        attribute("getter", vec![ArgToken::Other]),
        skip(),
    ];
    assert!(matches!(accessors::get_action_from(&attrs), Err(Problem::TokensFollowNewName)));
}

#[test]
fn invalid_getter_arguments() {
    let cases: Vec<Vec<ArgToken>> = vec![
        vec![],
        vec![ArgToken::Other],
        vec![ArgToken::Ident("skipped".to_string())],
        vec![ArgToken::Str(StrLit::new("skip"))],
        vec![ArgToken::Ident("rename".to_string())],
        vec![ArgToken::Ident("rename".to_string()), ArgToken::Punct('=')],
        vec![ArgToken::Ident("rename".to_string()), ArgToken::Punct('='), ArgToken::Other],
        vec![
            ArgToken::Ident("rename".to_string()),
            ArgToken::Punct('='),
            ArgToken::Ident("x".to_string()),
        ],
        vec![
            ArgToken::Ident("rename".to_string()),
            ArgToken::Punct(':'),
            ArgToken::Str(StrLit::new("x")),
        ],
        vec![ArgToken::Ident("rename".to_string()), ArgToken::Str(StrLit::new("x"))],
        vec![ArgToken::Punct('='), ArgToken::Ident("rename".to_string()), ArgToken::Str(StrLit::new("x"))],
    ];
    for args in cases {
        assert!(matches!(accessors::Action::parse(&args), Err(Problem::InvalidAttribute)));
    }
}

#[test]
fn invalid_dissolve_arguments() {
    let cases: Vec<Vec<ArgToken>> = vec![
        vec![],
        vec![ArgToken::Ident("skip".to_string())],
        vec![ArgToken::Ident("rename".to_string())],
        vec![ArgToken::Ident("rename".to_string()), ArgToken::Punct('=')],
        vec![ArgToken::Ident("rename".to_string()), ArgToken::Punct('='), ArgToken::Other],
        vec![ArgToken::Other, ArgToken::Punct('='), ArgToken::Str(StrLit::new("x"))],
    ];
    for args in cases {
        assert!(matches!(take_apart::Rename::parse(&args), Err(Problem::InvalidAttribute)));
    }
    let s = named("S", vec![attribute("dissolve", vec![ArgToken::Ident("skip".to_string())])], vec![]);
    assert!(matches!(take_apart::NamedStruct::try_from(&s), Err(Problem::InvalidAttribute)));
    assert_eq!(dissolve(&s).to_string(), diagnostic_of(Problem::InvalidAttribute));
}

#[test]
fn attribute_without_arguments_is_invalid() {
    let bare = Attribute { style: AttrStyle::Outer, name: Some("getter".to_string()), args: None };
    assert!(matches!(accessors::get_action_from(&vec![bare]), Err(Problem::InvalidAttribute)));
    let bare = Attribute { style: AttrStyle::Outer, name: Some("dissolve".to_string()), args: None };
    assert!(matches!(take_apart::dissolve_rename_from(&vec![bare]), Err(Problem::InvalidAttribute)));
}

#[test]
fn tokens_behind_a_new_name() {
    let mut args = rename_args("x");
    args.push(ArgToken::Punct(','));
    assert!(matches!(accessors::Action::parse(&args), Err(Problem::TokensFollowNewName)));
    assert!(matches!(take_apart::Rename::parse(&args), Err(Problem::TokensFollowNewName)));
    let mut args = rename_args("not an identifier");
    args.push(ArgToken::Other);
    assert!(matches!(take_apart::Rename::parse(&args), Err(Problem::TokensFollowNewName)));
    let s = named("S", vec![], vec![field("a", "u8", vec![attribute("getter", {
        let mut args = rename_args("x");
        args.push(ArgToken::Str(StrLit::new("y")));
        args
    })])]);
    assert_eq!(getters(&s).to_string(), diagnostic_of(Problem::TokensFollowNewName));
}

#[test]
fn tokens_behind_skip() {
    let args = vec![ArgToken::Ident("skip".to_string()), ArgToken::Ident("skip".to_string())];
    assert!(matches!(accessors::Action::parse(&args), Err(Problem::TokensFollowNewName)));
    let args = vec![ArgToken::Ident("skip".to_string()), ArgToken::Other];
    assert!(matches!(accessors::Action::parse(&args), Err(Problem::TokensFollowNewName)));
}

#[test]
fn valid_arguments_are_read() {
    assert!(matches!(
        accessors::Action::parse(&vec![ArgToken::Ident("skip".to_string())]),
        Ok(accessors::Action::Skip)
    ));
    match accessors::Action::parse(&rename_args("number")) {
        Ok(accessors::Action::Rename(name)) => assert_eq!(name.to_string(), "number"),
        _ => panic!("the arguments are valid"),
    }
    assert!(take_apart::Rename::parse(&rename_args("shatter")).is_ok());
    match take_apart::dissolve_rename_from(&vec![rename("dissolve", "a"), rename("dissolve", "b")]) {
        Ok(Some(name)) => assert_eq!(name.to_string(), "b"),
        _ => panic!("the attributes are valid"),
    }
    assert!(matches!(take_apart::dissolve_rename_from(&vec![skip()]), Ok(None)));
    assert!(matches!(accessors::get_action_from(&vec![rename("dissolve", "a")]), Ok(None)));
}

#[test]
fn new_name_must_be_an_identifier() {
    for bad in [
        "", "1abc", "a-b", "a b", "r#type", "42", "a.b", " a", "a ", "\u{e9}-", "1\u{e9}",
        "\u{e9} ", "\u{2603}", "\u{2003}\u{e9}", "\u{e9}\u{2003}", "\u{e9}\u{2603}",
    ] {
        assert!(matches!(
            accessors::Action::parse(&rename_args(bad)),
            Err(Problem::InvalidAttribute)
        ));
        assert!(matches!(take_apart::Rename::parse(&rename_args(bad)), Err(Problem::InvalidAttribute)));
    }
    for good in [
        "x", "_", "_1", "snake_case", "CamelCase", "fn", "type", "gr\u{f6}\u{df}e", "\u{e9}",
        "\u{4e2d}\u{6587}", "e\u{301}", "_\u{e9}", "a\u{e9}1",
    ] {
        match accessors::Action::parse(&rename_args(good)) {
            Ok(accessors::Action::Rename(name)) => assert_eq!(name.to_string(), good),
            _ => panic!("the name can be an identifier"),
        }
    }
}

#[test]
fn field_emits_its_accessor() {
    let kept = accessors::Field::from_field(&field("a", "Option<u8>", vec![rename("getter", "b")]));
    match kept {
        Ok(Some(kept)) => {
            assert!(same_tokens(&kept.emit(), "pub fn b(&self) -> &Option<u8> { &self.a }"));
        },
        _ => panic!("the field is valid"),
    }
    assert!(matches!(accessors::Field::from_field(&field("a", "u8", vec![skip()])), Ok(None)));
    match accessors::Field::from_fields_named(&vec![
        field("a", "u8", vec![]),
        field("b", "u8", vec![skip()]),
        field("c", "u8", vec![]),
    ]) {
        Ok(kept) => assert_eq!(kept.len(), 2),
        Err(_) => panic!("the fields are valid"),
    }
    match take_apart::Field::from_fields_named(&vec![
        field("a", "u8", vec![]),
        field("b", "u8", vec![skip()]),
    ]) {
        Ok(kept) => assert_eq!(kept.len(), 2),
        Err(_) => panic!("the fields are valid"),
    }
    assert!(take_apart::Field::from_field(&field("a", "u8", vec![])).is_ok());
}

#[test]
fn diagnostic_is_one_macro_call_with_the_wording() {
    let e = item("enum E {}", "E", vec![], Data::Enum);
    let out = getters(&e).to_string();
    let name = ["compile", "error"].join("_");
    assert_eq!(
        out,
        format!(
            ":: core :: {} ! {{ \"can only derive for a struct with named fields, not for an enum or a union\" }}",
            name
        )
    );
    let s = named("S", vec![], vec![field("a", "u8", vec![attribute("getter", vec![])])]);
    assert_eq!(
        getters(&s).to_string(),
        format!(":: core :: {} ! {{ \"invalid attribute\" }}", name)
    );
}

#[test]
fn attributes_can_be_copied_and_compared() {
    let first = rename("getter", "x");
    let second = first.clone();
    assert_eq!(first, second);
    assert_ne!(first, skip());
}

#[test]
fn new_name_beyond_ascii_is_taken() {
    let s = named("S", vec![rename("dissolve", "gr\u{f6}\u{df}e")], vec![field("a", "u8", vec![])]);
    assert!(same_tokens(
        &dissolve(&s),
        "impl S { pub fn gr\u{f6}\u{df}e(self) -> (u8,) { (self.a,) } }",
    ));
    let s = named("S", vec![], vec![field("a", "u8", vec![rename("getter", "\u{e9}")])]);
    assert!(same_tokens(&getters(&s), "impl S { pub fn \u{e9}(&self) -> &u8 { &self.a } }"));
}

#[test]
fn new_name_that_the_parser_refuses_fails_the_expansion() {
    let refused = vec![
        ArgToken::Ident("rename".to_string()),
        ArgToken::Punct('='),
        ArgToken::Str(StrLit::with_reading("\u{e9}", None)),
    ];
    let s = named("S", vec![attribute("dissolve", refused)], vec![field("a", "u8", vec![])]);
    assert!(matches!(take_apart::NamedStruct::try_from(&s), Err(Problem::InvalidAttribute)));
    assert_eq!(dissolve(&s).to_string(), diagnostic_of(Problem::InvalidAttribute));
    let s = named("S", vec![], vec![field("a", "u8", vec![rename("getter", "\u{2603}")])]);
    assert!(matches!(accessors::NamedStruct::try_from(&s), Err(Problem::InvalidAttribute)));
    assert_eq!(getters(&s).to_string(), diagnostic_of(Problem::InvalidAttribute));
}

#[test]
fn literal_takes_the_parsers_reading_only_where_it_is_the_string() {
    let e_acute = || Some(ident("\u{e9}"));
    assert_eq!(StrLit::with_reading("\u{e9}", e_acute()).name(), Some(&ident("\u{e9}")));
    assert_eq!(StrLit::with_reading("\u{e9}", None).name(), None);
    assert_eq!(StrLit::with_reading("\u{e9}", Some(ident("e"))).name(), None);
    assert_eq!(StrLit::with_reading("\u{2003}\u{e9}", e_acute()).name(), None);
    assert_eq!(StrLit::with_reading("\u{e9} ", e_acute()).name(), None);
    assert_eq!(StrLit::with_reading("1\u{e9}", e_acute()).name(), None);
    assert_eq!(StrLit::with_reading("", None).name(), None);
    assert_eq!(StrLit::with_reading("a b", Some(ident("a"))).name(), None);
    assert_eq!(StrLit::with_reading("abc", None).name(), Some(&ident("abc")));
    assert_eq!(StrLit::with_reading("abc", Some(ident("xyz"))).name(), Some(&ident("abc")));
    assert_eq!(StrLit::with_reading("fn", None).name(), Some(&ident("fn")));
}

#[test]
fn literal_keeps_its_string() {
    for value in ["", "abc", "a b", "\u{e9}", "r#type", "\"quoted\""] {
        assert_eq!(StrLit::new(value).value(), value);
        assert_eq!(StrLit::with_reading(value, None).value(), value);
    }
    assert_eq!(StrLit::new("abc").name(), Some(&ident("abc")));
    assert_eq!(StrLit::new("gr\u{f6}\u{df}e").name(), Some(&ident("gr\u{f6}\u{df}e")));
    assert_eq!(StrLit::new("a b").name(), None);
    assert_eq!(StrLit::new("\u{2003}\u{e9}").name(), None);
    let first = StrLit::new("\u{e9}");
    let second = first.clone();
    assert_eq!(first, second);
    assert_eq!(second.name(), Some(&ident("\u{e9}")));
}

#[test]
fn field_names_beyond_ascii_are_kept() {
    let s = named("S", vec![], vec![field("gr\u{f6}\u{df}e", "u8", vec![])]);
    assert!(same_tokens(
        &getters(&s),
        "impl S { pub fn gr\u{f6}\u{df}e(&self) -> &u8 { &self.gr\u{f6}\u{df}e } }",
    ));
}
