//! The `alias` grammar: a single extra name accepted when reading back.
//!
//! Aliasing is not direction-specific, so only the bare assignment form
//! `alias = "name"` is legal; there is no list form.

use vstd::prelude::*;

use crate::meta::{str_eq, Lit, Meta, SpecLit, SpecMeta, SpecMetaNameValue};

verus! {

/// The parsed value of an `alias` annotation.
#[derive(PartialEq, Eq, Hash, Debug, Clone)]
pub struct Alias(pub String);

impl View for Alias {
    type V = Seq<char>;

    open spec fn view(&self) -> Seq<char> {
        self.0@
    }
}

/// How a node can fail to parse as an `alias` annotation.
#[derive(Debug)]
pub enum FromMetaError<'a> {
    /// The node is not an assignment carrying the key `alias`.
    MetaTypeOrPathMismatch(&'a Meta),
    /// The assigned value is not a string literal.
    LitTypeMismatch(&'a Lit),
}

/// Mathematical model of a [`FromMetaError`].
pub enum SpecFromMetaError {
    MetaTypeOrPathMismatch(SpecMeta),
    LitTypeMismatch(SpecLit),
}

impl<'a> View for FromMetaError<'a> {
    type V = SpecFromMetaError;

    open spec fn view(&self) -> SpecFromMetaError {
        match *self {
            FromMetaError::MetaTypeOrPathMismatch(m) => {
                SpecFromMetaError::MetaTypeOrPathMismatch(m@)
            },
            FromMetaError::LitTypeMismatch(l) => SpecFromMetaError::LitTypeMismatch(l@),
        }
    }
}

impl SpecFromMetaError {
    /// The one-word name of a failure, as a renderer prints it.
    pub open spec fn kind_name(self) -> Seq<char> {
        match self {
            SpecFromMetaError::MetaTypeOrPathMismatch(_) => "MetaTypeOrPathMismatch"@,
            SpecFromMetaError::LitTypeMismatch(_) => "LitTypeMismatch"@,
        }
    }
}

impl<'a> FromMetaError<'a> {
    /// The one-word name of this failure, for rendering a diagnostic.
    pub fn kind_name(&self) -> (r: &'static str)
        ensures
            r@ == self@.kind_name(),
    {
        match self {
            FromMetaError::MetaTypeOrPathMismatch(_) => "MetaTypeOrPathMismatch",
            FromMetaError::LitTypeMismatch(_) => "LitTypeMismatch",
        }
    }
}

/// What parsing a node as an `alias` annotation yields: the assigned name
/// of a bare `alias = "name"` assignment, and a failure for any other shape.
pub open spec fn spec_alias_from_meta(m: SpecMeta) -> Result<Seq<char>, SpecFromMetaError> {
    match m {
        SpecMeta::NameValue(nv) => {
            if nv.path == "alias"@ {
                match nv.lit {
                    SpecLit::Str(s) => Ok(s),
                    _ => Err(SpecFromMetaError::LitTypeMismatch(nv.lit)),
                }
            } else {
                Err(SpecFromMetaError::MetaTypeOrPathMismatch(m))
            }
        },
        _ => Err(SpecFromMetaError::MetaTypeOrPathMismatch(m)),
    }
}

/// Lifts an executable parse result to the model level.
pub open spec fn spec_alias_result<'a>(r: Result<Alias, FromMetaError<'a>>) -> Result<
    Seq<char>,
    SpecFromMetaError,
> {
    match r {
        Ok(a) => Ok(a@),
        Err(e) => Err(e@),
    }
}

/// A bare `alias = "name"` assignment parses to exactly that name,
/// whatever characters it holds: no transformation is applied.
pub proof fn lemma_alias_normal(nv: SpecMetaNameValue)
    requires
        nv.path == "alias"@,
        nv.lit is Str,
    ensures
        spec_alias_from_meta(SpecMeta::NameValue(nv)) == Ok::<_, SpecFromMetaError>(nv.lit->Str_0),
{
}

/// The canonical textual form of a parsed alias: the node a renderer would
/// print for it.
pub open spec fn spec_render_alias(name: Seq<char>) -> SpecMeta {
    SpecMeta::NameValue(SpecMetaNameValue { path: "alias"@, lit: SpecLit::Str(name) })
}

/// Re-parsing the canonical textual form of a parsed alias yields the name
/// back unchanged.
pub proof fn lemma_alias_roundtrip(name: Seq<char>)
    ensures
        spec_alias_from_meta(spec_render_alias(name)) == Ok::<_, SpecFromMetaError>(name),
{
}

impl Alias {
    /// Parses a node expected to carry the key `alias`.
    pub fn try_from<'a>(meta: &'a Meta) -> (r: Result<Alias, FromMetaError<'a>>)
        ensures
            spec_alias_result(r) == spec_alias_from_meta(meta@),
    {
        match meta {
            Meta::NameValue(nv) => {
                if str_eq(nv.path.as_str(), "alias") {
                    match &nv.lit {
                        Lit::Str(s) => Ok(Alias(s.clone())),
                        _ => Err(FromMetaError::LitTypeMismatch(&nv.lit)),
                    }
                } else {
                    Err(FromMetaError::MetaTypeOrPathMismatch(meta))
                }
            },
            _ => Err(FromMetaError::MetaTypeOrPathMismatch(meta)),
        }
    }
}

} // verus!
