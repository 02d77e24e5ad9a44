use serde_attributes::meta::{Lit, Meta, MetaList, MetaNameValue, NestedMeta};
use serde_attributes::{Rename, RenameIndependent};

fn path_string(p: &syn::Path) -> String {
    p.segments
        .iter()
        .map(|s| s.ident.to_string())
        .collect::<Vec<_>>()
        .join("::")
}

fn conv_lit(l: &syn::Lit) -> Lit {
    match l {
        syn::Lit::Str(s) => Lit::Str(s.value()),
        syn::Lit::Int(i) => Lit::Int(i.base10_parse().unwrap()),
        syn::Lit::Bool(b) => Lit::Bool(b.value),
        syn::Lit::Char(c) => Lit::Char(c.value()),
        _ => unreachable!(),
    }
}

fn conv_nested(n: &syn::NestedMeta) -> NestedMeta {
    match n {
        syn::NestedMeta::Meta(m) => NestedMeta::Meta(conv_meta(m)),
        syn::NestedMeta::Lit(l) => NestedMeta::Lit(conv_lit(l)),
    }
}

fn conv_meta(m: &syn::Meta) -> Meta {
    match m {
        syn::Meta::Path(p) => Meta::Path(path_string(p)),
        syn::Meta::NameValue(nv) => Meta::NameValue(MetaNameValue {
            path: path_string(&nv.path),
            lit: conv_lit(&nv.lit),
        }),
        syn::Meta::List(l) => Meta::List(MetaList {
            path: path_string(&l.path),
            nested: l.nested.iter().map(conv_nested).collect(),
        }),
    }
}

fn to_meta(input: &str) -> Meta {
    match syn::parse_str::<syn::DeriveInput>(input)
        .unwrap()
        .attrs
        .first()
        .unwrap()
        .parse_meta()
        .unwrap()
    {
        syn::Meta::List(syn::MetaList {
            path,
            paren_token: _,
            nested,
        }) if path.is_ident("serde") => match nested.first().cloned() {
            Some(syn::NestedMeta::Meta(meta)) => conv_meta(&meta),
            _ => panic!(),
        },
        meta => {
            println!("{:?}", meta);
            panic!()
        }
    }
}

#[test]
fn syn_test_normal() {
    let input = r#"
        #[serde(rename = "name")]
        pub struct Foo;
        "#;
    assert_eq!(
        Rename::try_from(&to_meta(input)).unwrap(),
        Rename::Normal("name".to_owned())
    );
}

#[test]
fn syn_test_independent_only_serialize() {
    let input = r#"
        #[serde(rename(serialize = "ser_name"))]
        pub struct Foo;
        "#;
    assert_eq!(
        Rename::try_from(&to_meta(input)).unwrap(),
        Rename::Independent(RenameIndependent::Serialize("ser_name".to_owned()))
    );
}

#[test]
fn syn_test_independent_only_deserialize() {
    let input = r#"
        #[serde(rename(deserialize = "de_name"))]
        pub struct Foo;
        "#;
    assert_eq!(
        Rename::try_from(&to_meta(input)).unwrap(),
        Rename::Independent(RenameIndependent::Deserialize("de_name".to_owned()))
    );
}

#[test]
fn syn_test_independent_both() {
    let input = r#"
        #[serde(rename(serialize = "ser_name", deserialize = "de_name"))]
        pub struct Foo;
        "#;
    assert_eq!(
        Rename::try_from(&to_meta(input)).unwrap(),
        Rename::Independent(RenameIndependent::Both {
            serialize: "ser_name".to_owned(),
            deserialize: "de_name".to_owned()
        })
    );
}

#[test]
fn syn_test_special_characters() {
    let input = r#"
        #[serde(rename = "sp ec-ial_. ch\"ar\\s")]
        pub struct Foo;
        "#;
    assert_eq!(
        Rename::try_from(&to_meta(input)).unwrap(),
        Rename::Normal("sp ec-ial_. ch\"ar\\s".to_owned())
    );
}

#[test]
fn syn_test_last_value_wins() {
    let input = r#"
        #[serde(rename(serialize = "first", serialize = "second"))]
        pub struct Foo;
        "#;
    assert_eq!(
        Rename::try_from(&to_meta(input)).unwrap(),
        Rename::Independent(RenameIndependent::Serialize("second".to_owned()))
    );
}
