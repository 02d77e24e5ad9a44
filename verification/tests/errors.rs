use serde_attributes::alias;
use serde_attributes::meta::{Lit, Meta, MetaList, MetaNameValue, NestedMeta};
use serde_attributes::rename;
use serde_attributes::rename_all;
use serde_attributes::{Alias, Rename, RenameAll, RenameIndependent};

fn name_value(path: &str, lit: Lit) -> Meta {
    Meta::NameValue(MetaNameValue {
        path: path.to_owned(),
        lit,
    })
}

fn list(path: &str, nested: Vec<NestedMeta>) -> Meta {
    Meta::List(MetaList {
        path: path.to_owned(),
        nested,
    })
}

fn assign(path: &str, value: &str) -> NestedMeta {
    NestedMeta::Meta(name_value(path, Lit::Str(value.to_owned())))
}

#[test]
fn rename_rejects_bare_path() {
    let m = Meta::Path("rename".to_owned());
    assert!(matches!(
        Rename::try_from(&m),
        Err(rename::FromMetaError::MetaTypeOrPathMismatch(_))
    ));
}

#[test]
fn rename_rejects_other_key() {
    let m = name_value("alias", Lit::Str("x".to_owned()));
    assert!(matches!(
        Rename::try_from(&m),
        Err(rename::FromMetaError::MetaTypeOrPathMismatch(_))
    ));
}

#[test]
fn rename_rejects_non_string_literal() {
    let m = name_value("rename", Lit::Int(1));
    match Rename::try_from(&m) {
        Err(rename::FromMetaError::LitTypeMismatch(lit)) => assert_eq!(*lit, Lit::Int(1)),
        r => panic!("{:?}", r),
    }
}

#[test]
fn rename_rejects_non_string_nested_literal() {
    let m = list(
        "rename",
        vec![NestedMeta::Meta(name_value("serialize", Lit::Bool(true)))],
    );
    match Rename::try_from(&m) {
        Err(rename::FromMetaError::LitTypeMismatch(lit)) => assert_eq!(*lit, Lit::Bool(true)),
        r => panic!("{:?}", r),
    }
}

#[test]
fn rename_rejects_bare_nested_literal() {
    let m = list("rename", vec![NestedMeta::Lit(Lit::Str("x".to_owned()))]);
    match Rename::try_from(&m) {
        Err(rename::FromMetaError::NestedMetaTypeMismatch(entry)) => {
            assert_eq!(*entry, NestedMeta::Lit(Lit::Str("x".to_owned())));
        }
        r => panic!("{:?}", r),
    }
}

#[test]
fn rename_rejects_unknown_nested_key() {
    let m = list("rename", vec![assign("serialize", "s"), assign("foo", "x")]);
    match Rename::try_from(&m) {
        Err(rename::FromMetaError::NestedMetaPathMismatch(entry, nv)) => {
            assert_eq!(nv.path, "foo");
            assert_eq!(nv.lit, Lit::Str("x".to_owned()));
            assert_eq!(*entry, assign("foo", "x"));
        }
        r => panic!("{:?}", r),
    }
}

#[test]
fn rename_rejects_empty_list() {
    let m = list("rename", vec![]);
    assert!(matches!(
        Rename::try_from(&m),
        Err(rename::FromMetaError::AtLeastOneOfSerAndDe)
    ));
}

#[test]
fn rename_keeps_last_value_per_direction() {
    let m = list(
        "rename",
        vec![
            assign("deserialize", "d1"),
            assign("serialize", "s1"),
            assign("deserialize", "d2"),
        ],
    );
    assert_eq!(
        Rename::try_from(&m).unwrap(),
        Rename::Independent(RenameIndependent::Both {
            serialize: "s1".to_owned(),
            deserialize: "d2".to_owned()
        })
    );
}

#[test]
fn alias_rejects_list_form() {
    let m = list("alias", vec![assign("serialize", "x")]);
    assert!(matches!(
        Alias::try_from(&m),
        Err(alias::FromMetaError::MetaTypeOrPathMismatch(_))
    ));
}

#[test]
fn alias_rejects_non_string_literal() {
    let m = name_value("alias", Lit::Char('x'));
    match Alias::try_from(&m) {
        Err(alias::FromMetaError::LitTypeMismatch(lit)) => assert_eq!(*lit, Lit::Char('x')),
        r => panic!("{:?}", r),
    }
}

#[test]
fn rename_all_rejects_unknown_rule_name() {
    let m = name_value("rename_all", Lit::Str("not_a_real_rule".to_owned()));
    match RenameAll::try_from(&m) {
        Err(rename_all::FromMetaError::RenameRuleParseError(name)) => {
            assert_eq!(name, "not_a_real_rule");
        }
        r => panic!("{:?}", r),
    }
}

#[test]
fn rename_all_reports_first_unknown_rule() {
    let m = list(
        "rename_all",
        vec![assign("serialize", "bad1"), assign("deserialize", "bad2")],
    );
    match RenameAll::try_from(&m) {
        Err(rename_all::FromMetaError::RenameRuleParseError(name)) => {
            assert_eq!(name, "bad1");
        }
        r => panic!("{:?}", r),
    }
}

#[test]
fn error_kind_names() {
    let m = Meta::Path("rename".to_owned());
    assert_eq!(
        Rename::try_from(&m).unwrap_err().kind_name(),
        "MetaTypeOrPathMismatch"
    );

    let m = name_value("alias", Lit::Int(7));
    assert_eq!(Alias::try_from(&m).unwrap_err().kind_name(), "LitTypeMismatch");

    let m = list("rename", vec![]);
    assert_eq!(
        Rename::try_from(&m).unwrap_err().kind_name(),
        "AtLeastOneOfSerAndDe"
    );

    let m = name_value("rename_all", Lit::Str("nope".to_owned()));
    assert_eq!(
        RenameAll::try_from(&m).unwrap_err().kind_name(),
        "RenameRuleParseError"
    );
}

#[test]
fn rename_all_keeps_structural_errors() {
    let m = list("rename_all", vec![assign("foo", "x")]);
    assert!(matches!(
        RenameAll::try_from(&m),
        Err(rename_all::FromMetaError::NestedMetaPathMismatch(_, _))
    ));

    let m = list("rename_all", vec![]);
    assert!(matches!(
        RenameAll::try_from(&m),
        Err(rename_all::FromMetaError::AtLeastOneOfSerAndDe)
    ));

    let m = name_value("rename", Lit::Str("snake_case".to_owned()));
    assert!(matches!(
        RenameAll::try_from(&m),
        Err(rename_all::FromMetaError::MetaTypeOrPathMismatch(_))
    ));
}
