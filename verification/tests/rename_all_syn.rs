use serde_attributes::meta::{Lit, Meta, MetaList, MetaNameValue, NestedMeta};
use serde_attributes::{RenameAll, RenameAllIndependent, RenameRule};

fn path_string(p: &syn::Path) -> String {
    p.segments
        .iter()
        .map(|s| s.ident.to_string())
        .collect::<Vec<_>>()
        .join("::")
}

fn conv_lit(l: &syn::Lit) -> Lit {
    match l {
        syn::Lit::Str(s) => Lit::Str(s.value()),
        syn::Lit::Int(i) => Lit::Int(i.base10_parse().unwrap()),
        syn::Lit::Bool(b) => Lit::Bool(b.value),
        syn::Lit::Char(c) => Lit::Char(c.value()),
        _ => unreachable!(),
    }
}

fn conv_nested(n: &syn::NestedMeta) -> NestedMeta {
    match n {
        syn::NestedMeta::Meta(m) => NestedMeta::Meta(conv_meta(m)),
        syn::NestedMeta::Lit(l) => NestedMeta::Lit(conv_lit(l)),
    }
}

fn conv_meta(m: &syn::Meta) -> Meta {
    match m {
        syn::Meta::Path(p) => Meta::Path(path_string(p)),
        syn::Meta::NameValue(nv) => Meta::NameValue(MetaNameValue {
            path: path_string(&nv.path),
            lit: conv_lit(&nv.lit),
        }),
        syn::Meta::List(l) => Meta::List(MetaList {
            path: path_string(&l.path),
            nested: l.nested.iter().map(conv_nested).collect(),
        }),
    }
}

fn to_meta(input: &str) -> Meta {
    match syn::parse_str::<syn::DeriveInput>(input)
        .unwrap()
        .attrs
        .first()
        .unwrap()
        .parse_meta()
        .unwrap()
    {
        syn::Meta::List(syn::MetaList {
            path,
            paren_token: _,
            nested,
        }) if path.is_ident("serde") => match nested.first().cloned() {
            Some(syn::NestedMeta::Meta(meta)) => conv_meta(&meta),
            _ => panic!(),
        },
        meta => {
            println!("{:?}", meta);
            panic!()
        }
    }
}

#[test]
fn test_normal() {
    let input = r#"
        #[serde(rename_all = "snake_case")]
        pub struct Foo;
        "#;
    assert_eq!(
        RenameAll::try_from(&to_meta(input)).unwrap(),
        RenameAll::Normal(RenameRule::SnakeCase)
    );
}

#[test]
fn test_independent_only_serialize() {
    let input = r#"
        #[serde(rename_all(serialize = "lowercase"))]
        pub struct Foo;
        "#;
    assert_eq!(
        RenameAll::try_from(&to_meta(input)).unwrap(),
        RenameAll::Independent(RenameAllIndependent::Serialize(RenameRule::LowerCase))
    );
}

#[test]
fn test_independent_only_deserialize() {
    let input = r#"
        #[serde(rename_all(deserialize = "UPPERCASE"))]
        pub struct Foo;
        "#;
    assert_eq!(
        RenameAll::try_from(&to_meta(input)).unwrap(),
        RenameAll::Independent(RenameAllIndependent::Deserialize(RenameRule::UpperCase))
    );
}

#[test]
fn test_independent_both() {
    let input = r#"
        #[serde(rename_all(serialize = "lowercase", deserialize = "UPPERCASE"))]
        pub struct Foo;
        "#;
    assert_eq!(
        RenameAll::try_from(&to_meta(input)).unwrap(),
        RenameAll::Independent(RenameAllIndependent::Both {
            serialize: RenameRule::LowerCase,
            deserialize: RenameRule::UpperCase
        })
    );
}

#[test]
fn test_every_rule_name() {
    let cases = [
        ("lowercase", RenameRule::LowerCase),
        ("UPPERCASE", RenameRule::UpperCase),
        ("PascalCase", RenameRule::PascalCase),
        ("camelCase", RenameRule::CamelCase),
        ("snake_case", RenameRule::SnakeCase),
        ("SCREAMING_SNAKE_CASE", RenameRule::ScreamingSnakeCase),
        ("kebab-case", RenameRule::KebabCase),
        ("SCREAMING-KEBAB-CASE", RenameRule::ScreamingKebabCase),
    ];
    for (name, rule) in cases {
        let input = format!(
            "#[serde(rename_all = \"{}\")]\npub struct Foo;",
            name
        );
        assert_eq!(
            RenameAll::try_from(&to_meta(&input)).unwrap(),
            RenameAll::Normal(rule)
        );
    }
}
