//! The `rename_all` grammar: the `rename` grammar with every name replaced
//! by the identifier of a casing rule.
//!
//! Shape and key recognition are delegated to the `rename` parser against
//! the key `rename_all`; every string it would yield is then resolved to a
//! [`RenameRule`] through the external rule-name resolver, and a string that
//! names no known rule is a distinct failure.

use vstd::prelude::*;

use serde_rename_rule::RenameRule as ExtRenameRule;

use crate::meta::{Lit, Meta, MetaNameValue, NestedMeta, SpecLit, SpecMeta, SpecMetaNameValue,
    SpecNestedMeta};
use crate::rename::{
    lemma_rename_roundtrip, spec_rename_from_meta, spec_render_rename,
    FromMetaError as RenameFromMetaError, Rename, RenameIndependent,
    SpecFromMetaError as SpecRenameFromMetaError, SpecRename, SpecRenameIndependent,
};

verus! {

/// A name-casing convention, named by one of the fixed `rename_all`
/// vocabulary strings (`"snake_case"`, `"UPPERCASE"`, ...).
#[derive(PartialEq, Eq, Hash, Debug, Clone, Copy, Structural)]
pub enum RenameRule {
    LowerCase,
    UpperCase,
    PascalCase,
    CamelCase,
    SnakeCase,
    ScreamingSnakeCase,
    KebabCase,
    ScreamingKebabCase,
}

/// The parsed value of a `rename_all` annotation.
#[derive(PartialEq, Eq, Hash, Debug, Clone, Copy, Structural)]
pub enum RenameAll {
    Normal(RenameRule),
    Independent(RenameAllIndependent),
}

/// Independent direction-specific casing rules; at least one direction is
/// always present.
#[derive(PartialEq, Eq, Hash, Debug, Clone, Copy, Structural)]
pub enum RenameAllIndependent {
    Serialize(RenameRule),
    Deserialize(RenameRule),
    Both { serialize: RenameRule, deserialize: RenameRule },
}

/// How a node can fail to parse as a `rename_all` annotation: the `rename`
/// grammar's failures, plus a string that names no known casing rule.
#[derive(Debug)]
pub enum FromMetaError<'a> {
    /// The node is not an assignment or list carrying the key `rename_all`.
    MetaTypeOrPathMismatch(&'a Meta),
    /// A value that had to be a string literal is some other literal.
    LitTypeMismatch(&'a Lit),
    /// A nested entry of the list form is not a `name = value` assignment.
    NestedMetaTypeMismatch(&'a NestedMeta),
    /// A nested assignment carries a key other than `serialize`/`deserialize`.
    NestedMetaPathMismatch(&'a NestedMeta, &'a MetaNameValue),
    /// The list form contained neither direction.
    AtLeastOneOfSerAndDe,
    /// A well-placed string names no known casing rule; the string is kept
    /// for diagnostics.
    RenameRuleParseError(String),
}

/// Mathematical model of a [`FromMetaError`].
pub enum SpecFromMetaError {
    MetaTypeOrPathMismatch(SpecMeta),
    LitTypeMismatch(SpecLit),
    NestedMetaTypeMismatch(SpecNestedMeta),
    NestedMetaPathMismatch(SpecNestedMeta, SpecMetaNameValue),
    AtLeastOneOfSerAndDe,
    RenameRuleParseError(Seq<char>),
}

impl<'a> View for FromMetaError<'a> {
    type V = SpecFromMetaError;

    open spec fn view(&self) -> SpecFromMetaError {
        match *self {
            FromMetaError::MetaTypeOrPathMismatch(m) => {
                SpecFromMetaError::MetaTypeOrPathMismatch(m@)
            },
            FromMetaError::LitTypeMismatch(l) => SpecFromMetaError::LitTypeMismatch(l@),
            FromMetaError::NestedMetaTypeMismatch(n) => {
                SpecFromMetaError::NestedMetaTypeMismatch(n@)
            },
            FromMetaError::NestedMetaPathMismatch(n, nv) => {
                SpecFromMetaError::NestedMetaPathMismatch(n@, nv@)
            },
            FromMetaError::AtLeastOneOfSerAndDe => SpecFromMetaError::AtLeastOneOfSerAndDe,
            FromMetaError::RenameRuleParseError(ref s) => {
                SpecFromMetaError::RenameRuleParseError(s@)
            },
        }
    }
}

impl SpecFromMetaError {
    /// The one-word name of a failure, as a renderer prints it.
    pub open spec fn kind_name(self) -> Seq<char> {
        match self {
            SpecFromMetaError::MetaTypeOrPathMismatch(_) => "MetaTypeOrPathMismatch"@,
            SpecFromMetaError::LitTypeMismatch(_) => "LitTypeMismatch"@,
            SpecFromMetaError::NestedMetaTypeMismatch(_) => "NestedMetaTypeMismatch"@,
            SpecFromMetaError::NestedMetaPathMismatch(_, _) => "NestedMetaPathMismatch"@,
            SpecFromMetaError::AtLeastOneOfSerAndDe => "AtLeastOneOfSerAndDe"@,
            SpecFromMetaError::RenameRuleParseError(_) => "RenameRuleParseError"@,
        }
    }
}

impl<'a> FromMetaError<'a> {
    /// The one-word name of this failure, for rendering a diagnostic.
    pub fn kind_name(&self) -> (r: &'static str)
        ensures
            r@ == self@.kind_name(),
    {
        match self {
            FromMetaError::MetaTypeOrPathMismatch(_) => "MetaTypeOrPathMismatch",
            FromMetaError::LitTypeMismatch(_) => "LitTypeMismatch",
            FromMetaError::NestedMetaTypeMismatch(_) => "NestedMetaTypeMismatch",
            FromMetaError::NestedMetaPathMismatch(_, _) => "NestedMetaPathMismatch",
            FromMetaError::AtLeastOneOfSerAndDe => "AtLeastOneOfSerAndDe",
            FromMetaError::RenameRuleParseError(_) => "RenameRuleParseError",
        }
    }
}

/// The fixed rule vocabulary: which rule, if any, a `rename_all` string
/// names.
pub open spec fn spec_rule_of(s: Seq<char>) -> Option<RenameRule> {
    if s == "lowercase"@ {
        Some(RenameRule::LowerCase)
    } else if s == "UPPERCASE"@ {
        Some(RenameRule::UpperCase)
    } else if s == "PascalCase"@ {
        Some(RenameRule::PascalCase)
    } else if s == "camelCase"@ {
        Some(RenameRule::CamelCase)
    } else if s == "snake_case"@ {
        Some(RenameRule::SnakeCase)
    } else if s == "SCREAMING_SNAKE_CASE"@ {
        Some(RenameRule::ScreamingSnakeCase)
    } else if s == "kebab-case"@ {
        Some(RenameRule::KebabCase)
    } else if s == "SCREAMING-KEBAB-CASE"@ {
        Some(RenameRule::ScreamingKebabCase)
    } else {
        None
    }
}

/// Relies on `serde_rename_rule::RenameRule::from_rename_all_str`: it
/// returns the rule named by exactly one of the eight documented
/// `rename_all` strings, and an error for every other string.
#[verifier::external_body]
fn resolve_rule(s: &str) -> (r: Option<RenameRule>)
    ensures
        r == spec_rule_of(s@),
{
    match ExtRenameRule::from_rename_all_str(s) {
        Ok(ExtRenameRule::LowerCase) => Some(RenameRule::LowerCase),
        Ok(ExtRenameRule::UpperCase) => Some(RenameRule::UpperCase),
        Ok(ExtRenameRule::PascalCase) => Some(RenameRule::PascalCase),
        Ok(ExtRenameRule::CamelCase) => Some(RenameRule::CamelCase),
        Ok(ExtRenameRule::SnakeCase) => Some(RenameRule::SnakeCase),
        Ok(ExtRenameRule::ScreamingSnakeCase) => Some(RenameRule::ScreamingSnakeCase),
        Ok(ExtRenameRule::KebabCase) => Some(RenameRule::KebabCase),
        Ok(ExtRenameRule::ScreamingKebabCase) => Some(RenameRule::ScreamingKebabCase),
        Err(_) => None,
    }
}

/// Lifts a `rename` grammar failure into the `rename_all` failure taxonomy.
pub open spec fn spec_lift_err(e: SpecRenameFromMetaError) -> SpecFromMetaError {
    match e {
        SpecRenameFromMetaError::MetaTypeOrPathMismatch(m) => {
            SpecFromMetaError::MetaTypeOrPathMismatch(m)
        },
        SpecRenameFromMetaError::LitTypeMismatch(l) => SpecFromMetaError::LitTypeMismatch(l),
        SpecRenameFromMetaError::NestedMetaTypeMismatch(n) => {
            SpecFromMetaError::NestedMetaTypeMismatch(n)
        },
        SpecRenameFromMetaError::NestedMetaPathMismatch(n, nv) => {
            SpecFromMetaError::NestedMetaPathMismatch(n, nv)
        },
        SpecRenameFromMetaError::AtLeastOneOfSerAndDe => SpecFromMetaError::AtLeastOneOfSerAndDe,
    }
}

/// Resolves every string of a `rename`-shaped value through the rule
/// vocabulary; when both directions are present and both strings are
/// unknown, only the serialize failure is reported.
pub open spec fn spec_resolve_rename(r: SpecRename) -> Result<RenameAll, SpecFromMetaError> {
    match r {
        SpecRename::Normal(n) => {
            match spec_rule_of(n) {
                Some(rule) => Ok(RenameAll::Normal(rule)),
                None => Err(SpecFromMetaError::RenameRuleParseError(n)),
            }
        },
        SpecRename::Independent(SpecRenameIndependent::Serialize(n)) => {
            match spec_rule_of(n) {
                Some(rule) => Ok(RenameAll::Independent(RenameAllIndependent::Serialize(rule))),
                None => Err(SpecFromMetaError::RenameRuleParseError(n)),
            }
        },
        SpecRename::Independent(SpecRenameIndependent::Deserialize(n)) => {
            match spec_rule_of(n) {
                Some(rule) => Ok(RenameAll::Independent(RenameAllIndependent::Deserialize(rule))),
                None => Err(SpecFromMetaError::RenameRuleParseError(n)),
            }
        },
        SpecRename::Independent(SpecRenameIndependent::Both { serialize: sn, deserialize: dn }) => {
            match spec_rule_of(sn) {
                Some(sr) => {
                    match spec_rule_of(dn) {
                        Some(dr) => {
                            Ok(
                                RenameAll::Independent(
                                    RenameAllIndependent::Both { serialize: sr, deserialize: dr },
                                ),
                            )
                        },
                        None => Err(SpecFromMetaError::RenameRuleParseError(dn)),
                    }
                },
                None => Err(SpecFromMetaError::RenameRuleParseError(sn)),
            }
        },
    }
}

/// What parsing a node as a `rename_all` annotation yields: the `rename`
/// grammar against the key `rename_all`, with every string it produces
/// resolved through the rule vocabulary.
pub open spec fn spec_rename_all_from_meta(m: SpecMeta) -> Result<RenameAll, SpecFromMetaError> {
    match spec_rename_from_meta(m, "rename_all"@) {
        Ok(r) => spec_resolve_rename(r),
        Err(e) => Err(spec_lift_err(e)),
    }
}

/// `rename_all` composes the `rename` grammar with rule resolution: shape
/// and key recognition are exactly the `rename` grammar's against the key
/// `rename_all`; every string that grammar yields is resolved through the
/// fixed vocabulary, an unknown name failing with the rule failure for that
/// string; and a structural failure is passed through unchanged.
pub proof fn lemma_rename_all_composes(m: SpecMeta)
    ensures
        spec_rename_from_meta(m, "rename_all"@) matches Ok(r) ==> spec_rename_all_from_meta(m)
            == spec_resolve_rename(r),
        spec_rename_from_meta(m, "rename_all"@) matches Err(e) ==> spec_rename_all_from_meta(m)
            == Err::<RenameAll, _>(spec_lift_err(e)),
{
}

/// Lifts an executable parse result to the model level.
pub open spec fn spec_rename_all_result<'a>(r: Result<RenameAll, FromMetaError<'a>>) -> Result<
    RenameAll,
    SpecFromMetaError,
> {
    match r {
        Ok(v) => Ok(v),
        Err(e) => Err(e@),
    }
}

/// The vocabulary name of each casing rule.
pub open spec fn spec_rule_name(rule: RenameRule) -> Seq<char> {
    match rule {
        RenameRule::LowerCase => "lowercase"@,
        RenameRule::UpperCase => "UPPERCASE"@,
        RenameRule::PascalCase => "PascalCase"@,
        RenameRule::CamelCase => "camelCase"@,
        RenameRule::SnakeCase => "snake_case"@,
        RenameRule::ScreamingSnakeCase => "SCREAMING_SNAKE_CASE"@,
        RenameRule::KebabCase => "kebab-case"@,
        RenameRule::ScreamingKebabCase => "SCREAMING-KEBAB-CASE"@,
    }
}

/// Every casing rule resolves back from its own vocabulary name.
pub proof fn lemma_rule_name_resolves(rule: RenameRule)
    ensures
        spec_rule_of(spec_rule_name(rule)) == Some(rule),
{
    reveal_strlit("lowercase");
    reveal_strlit("UPPERCASE");
    reveal_strlit("PascalCase");
    reveal_strlit("camelCase");
    reveal_strlit("snake_case");
    reveal_strlit("SCREAMING_SNAKE_CASE");
    reveal_strlit("kebab-case");
    reveal_strlit("SCREAMING-KEBAB-CASE");
    assert("lowercase"@[0] == 'l');
    assert("UPPERCASE"@[0] == 'U');
    assert("PascalCase"@[0] == 'P');
    assert("camelCase"@[0] == 'c');
    assert("snake_case"@[0] == 's');
    assert("kebab-case"@[0] == 'k');
    assert("SCREAMING_SNAKE_CASE"@[10] == 'S');
    assert("SCREAMING-KEBAB-CASE"@[10] == 'K');
    match rule {
        RenameRule::LowerCase => {},
        RenameRule::UpperCase => {},
        RenameRule::PascalCase => {},
        RenameRule::CamelCase => {},
        RenameRule::SnakeCase => {},
        RenameRule::ScreamingSnakeCase => {},
        RenameRule::KebabCase => {},
        RenameRule::ScreamingKebabCase => {},
    }
}

/// The `rename`-shaped value whose strings are the names of the rules held
/// by a parsed `rename_all` value.
pub open spec fn spec_rename_all_names(r: RenameAll) -> SpecRename {
    match r {
        RenameAll::Normal(rule) => SpecRename::Normal(spec_rule_name(rule)),
        RenameAll::Independent(RenameAllIndependent::Serialize(rule)) => SpecRename::Independent(
            SpecRenameIndependent::Serialize(spec_rule_name(rule)),
        ),
        RenameAll::Independent(RenameAllIndependent::Deserialize(rule)) => SpecRename::Independent(
            SpecRenameIndependent::Deserialize(spec_rule_name(rule)),
        ),
        RenameAll::Independent(
            RenameAllIndependent::Both { serialize: sr, deserialize: dr },
        ) => SpecRename::Independent(
            SpecRenameIndependent::Both {
                serialize: spec_rule_name(sr),
                deserialize: spec_rule_name(dr),
            },
        ),
    }
}

/// The canonical textual form of a parsed `rename_all` value: the node a
/// renderer would print for it.
pub open spec fn spec_render_rename_all(r: RenameAll) -> SpecMeta {
    spec_render_rename(spec_rename_all_names(r), "rename_all"@)
}

/// Re-parsing the canonical textual form of a parsed `rename_all` value
/// yields the value back unchanged.
pub proof fn lemma_rename_all_roundtrip(r: RenameAll)
    ensures
        spec_rename_all_from_meta(spec_render_rename_all(r)) == Ok::<_, SpecFromMetaError>(r),
{
    lemma_rename_roundtrip(spec_rename_all_names(r), "rename_all"@);
    match r {
        RenameAll::Normal(rule) => lemma_rule_name_resolves(rule),
        RenameAll::Independent(RenameAllIndependent::Serialize(rule)) => lemma_rule_name_resolves(
            rule,
        ),
        RenameAll::Independent(RenameAllIndependent::Deserialize(rule)) => lemma_rule_name_resolves(
            rule,
        ),
        RenameAll::Independent(RenameAllIndependent::Both { serialize: sr, deserialize: dr }) => {
            lemma_rule_name_resolves(sr);
            lemma_rule_name_resolves(dr);
        },
    }
}

impl RenameAll {
    /// Parses a node expected to carry the key `rename_all`.
    pub fn try_from<'a>(meta: &'a Meta) -> (r: Result<RenameAll, FromMetaError<'a>>)
        ensures
            spec_rename_all_result(r) == spec_rename_all_from_meta(meta@),
    {
        match Rename::try_from_meta(meta, "rename_all") {
            Ok(rename) => {
                match rename {
                    Rename::Normal(name) => {
                        match resolve_rule(name.as_str()) {
                            Some(rule) => Ok(RenameAll::Normal(rule)),
                            None => Err(FromMetaError::RenameRuleParseError(name)),
                        }
                    },
                    Rename::Independent(RenameIndependent::Serialize(name)) => {
                        match resolve_rule(name.as_str()) {
                            Some(rule) => {
                                Ok(RenameAll::Independent(RenameAllIndependent::Serialize(rule)))
                            },
                            None => Err(FromMetaError::RenameRuleParseError(name)),
                        }
                    },
                    Rename::Independent(RenameIndependent::Deserialize(name)) => {
                        match resolve_rule(name.as_str()) {
                            Some(rule) => {
                                Ok(RenameAll::Independent(RenameAllIndependent::Deserialize(rule)))
                            },
                            None => Err(FromMetaError::RenameRuleParseError(name)),
                        }
                    },
                    Rename::Independent(
                        RenameIndependent::Both { serialize, deserialize },
                    ) => {
                        match resolve_rule(serialize.as_str()) {
                            Some(sr) => {
                                match resolve_rule(deserialize.as_str()) {
                                    Some(dr) => {
                                        Ok(
                                            RenameAll::Independent(
                                                RenameAllIndependent::Both {
                                                    serialize: sr,
                                                    deserialize: dr,
                                                },
                                            ),
                                        )
                                    },
                                    None => Err(FromMetaError::RenameRuleParseError(deserialize)),
                                }
                            },
                            None => Err(FromMetaError::RenameRuleParseError(serialize)),
                        }
                    },
                }
            },
            Err(err) => {
                Err(
                    match err {
                        RenameFromMetaError::MetaTypeOrPathMismatch(m) => {
                            FromMetaError::MetaTypeOrPathMismatch(m)
                        },
                        RenameFromMetaError::LitTypeMismatch(l) => {
                            FromMetaError::LitTypeMismatch(l)
                        },
                        RenameFromMetaError::NestedMetaTypeMismatch(n) => {
                            FromMetaError::NestedMetaTypeMismatch(n)
                        },
                        RenameFromMetaError::NestedMetaPathMismatch(n, nv) => {
                            FromMetaError::NestedMetaPathMismatch(n, nv)
                        },
                        RenameFromMetaError::AtLeastOneOfSerAndDe => {
                            FromMetaError::AtLeastOneOfSerAndDe
                        },
                    },
                )
            },
        }
    }
}

impl RenameAll {
    /// The casing rule applied when writing out, if one was given.
    pub open spec fn spec_ser_rule(self) -> Option<RenameRule> {
        match self {
            RenameAll::Normal(rule) => Some(rule),
            RenameAll::Independent(RenameAllIndependent::Serialize(rule)) => Some(rule),
            RenameAll::Independent(RenameAllIndependent::Both { serialize: rule, deserialize: _ }) => Some(
                rule,
            ),
            _ => None,
        }
    }

    /// The casing rule applied when reading back, if one was given.
    pub open spec fn spec_de_rule(self) -> Option<RenameRule> {
        match self {
            RenameAll::Normal(rule) => Some(rule),
            RenameAll::Independent(RenameAllIndependent::Deserialize(rule)) => Some(rule),
            RenameAll::Independent(RenameAllIndependent::Both { serialize: _, deserialize: rule }) => Some(
                rule,
            ),
            _ => None,
        }
    }

    /// The casing rule applied when writing out: a shared rule answers both
    /// directions.
    pub fn ser_rule(&self) -> (r: Option<&RenameRule>)
        ensures
            match r {
                Some(rule) => self.spec_ser_rule() == Some(*rule),
                None => self.spec_ser_rule() is None,
            },
    {
        match self {
            RenameAll::Normal(rule) => Some(rule),
            RenameAll::Independent(RenameAllIndependent::Serialize(rule)) => Some(rule),
            RenameAll::Independent(
                RenameAllIndependent::Both { serialize: rule, deserialize: _ },
            ) => Some(rule),
            _ => None,
        }
    }

    /// The casing rule applied when reading back: a shared rule answers both
    /// directions.
    pub fn de_rule(&self) -> (r: Option<&RenameRule>)
        ensures
            match r {
                Some(rule) => self.spec_de_rule() == Some(*rule),
                None => self.spec_de_rule() is None,
            },
    {
        match self {
            RenameAll::Normal(rule) => Some(rule),
            RenameAll::Independent(RenameAllIndependent::Deserialize(rule)) => Some(rule),
            RenameAll::Independent(
                RenameAllIndependent::Both { serialize: _, deserialize: rule },
            ) => Some(rule),
            _ => None,
        }
    }
}

} // verus!
