//! The annotation syntax tree that the parsers walk.
//!
//! A node is either a bare path (`flatten`), a single assignment
//! (`rename = "x"`) or a parenthesized list of nested entries
//! (`rename(serialize = "x")`).  The tree is produced by an upstream
//! syntax parser and borrowed read-only for the duration of one parse call.

use vstd::prelude::*;

verus! {

/// A literal carried on the right-hand side of a `name = value` entry.
#[derive(Debug, Clone, PartialEq, Eq, Hash)]
pub enum Lit {
    Str(String),
    Int(u64),
    Bool(bool),
    Char(char),
    /// Any literal form not otherwise modeled, kept as its source text.
    Verbatim(String),
}

/// A `name = literal` assignment, e.g. `rename = "x"`.
#[derive(Debug, Clone, PartialEq, Eq, Hash)]
pub struct MetaNameValue {
    pub path: String,
    pub lit: Lit,
}

/// A parenthesized list of nested entries, e.g. `rename(serialize = "x")`.
#[derive(Debug, PartialEq, Eq, Hash)]
pub struct MetaList {
    pub path: String,
    pub nested: Vec<NestedMeta>,
}

/// One entry of a [`MetaList`]: a nested node or a bare literal.
#[derive(Debug, PartialEq, Eq, Hash)]
pub enum NestedMeta {
    Meta(Meta),
    Lit(Lit),
}

/// An annotation node.
#[derive(Debug, PartialEq, Eq, Hash)]
pub enum Meta {
    Path(String),
    NameValue(MetaNameValue),
    List(MetaList),
}

/// Mathematical model of a [`Lit`]: strings become character sequences.
pub enum SpecLit {
    Str(Seq<char>),
    Int(u64),
    Bool(bool),
    Char(char),
    Verbatim(Seq<char>),
}

/// Mathematical model of a [`MetaNameValue`].
pub struct SpecMetaNameValue {
    pub path: Seq<char>,
    pub lit: SpecLit,
}

/// Mathematical model of a [`MetaList`].
pub struct SpecMetaList {
    pub path: Seq<char>,
    pub nested: Seq<SpecNestedMeta>,
}

/// Mathematical model of a [`NestedMeta`].
pub enum SpecNestedMeta {
    Meta(SpecMeta),
    Lit(SpecLit),
}

/// Mathematical model of a [`Meta`].
pub enum SpecMeta {
    Path(Seq<char>),
    NameValue(SpecMetaNameValue),
    List(SpecMetaList),
}

pub open spec fn spec_lit_view(l: Lit) -> SpecLit {
    match l {
        Lit::Str(s) => SpecLit::Str(s@),
        Lit::Int(n) => SpecLit::Int(n),
        Lit::Bool(b) => SpecLit::Bool(b),
        Lit::Char(c) => SpecLit::Char(c),
        Lit::Verbatim(s) => SpecLit::Verbatim(s@),
    }
}

pub open spec fn spec_meta_view(m: Meta) -> SpecMeta
    decreases m,
{
    match m {
        Meta::Path(p) => SpecMeta::Path(p@),
        Meta::NameValue(nv) => SpecMeta::NameValue(
            SpecMetaNameValue { path: nv.path@, lit: spec_lit_view(nv.lit) },
        ),
        Meta::List(l) => {
            proof {
                assert(decreases_to!(l.nested => l.nested@));
            }
            SpecMeta::List(
                SpecMetaList { path: l.path@, nested: spec_nested_seq_view(l.nested@) },
            )
        },
    }
}

pub open spec fn spec_nested_seq_view(s: Seq<NestedMeta>) -> Seq<SpecNestedMeta>
    decreases s,
{
    if s.len() == 0 {
        Seq::empty()
    } else {
        seq![spec_nested_meta_view(s[0])] + spec_nested_seq_view(s.drop_first())
    }
}

pub open spec fn spec_nested_meta_view(n: NestedMeta) -> SpecNestedMeta
    decreases n,
{
    match n {
        NestedMeta::Meta(m) => SpecNestedMeta::Meta(spec_meta_view(m)),
        NestedMeta::Lit(l) => SpecNestedMeta::Lit(spec_lit_view(l)),
    }
}

/// A nested-entry sequence is modeled elementwise.
pub broadcast proof fn lemma_spec_nested_seq_view(s: Seq<NestedMeta>)
    ensures
        (#[trigger] spec_nested_seq_view(s)).len() == s.len(),
        forall|i: int| 0 <= i < s.len() ==> spec_nested_seq_view(s)[i] == spec_nested_meta_view(
            s[i],
        ),
    decreases s.len(),
{
    if s.len() > 0 {
        lemma_spec_nested_seq_view(s.drop_first());
        assert forall|i: int| 0 <= i < s.len() implies spec_nested_seq_view(s)[i]
            == spec_nested_meta_view(s[i]) by {
            if i > 0 {
                assert(s.drop_first()[i - 1] == s[i]);
                assert(spec_nested_seq_view(s)[i] == spec_nested_seq_view(s.drop_first())[i - 1]);
            }
        }
    }
}

impl View for Lit {
    type V = SpecLit;

    open spec fn view(&self) -> SpecLit {
        spec_lit_view(*self)
    }
}

impl View for MetaNameValue {
    type V = SpecMetaNameValue;

    open spec fn view(&self) -> SpecMetaNameValue {
        SpecMetaNameValue { path: self.path@, lit: self.lit@ }
    }
}

impl View for MetaList {
    type V = SpecMetaList;

    open spec fn view(&self) -> SpecMetaList {
        SpecMetaList { path: self.path@, nested: spec_nested_seq_view(self.nested@) }
    }
}

impl View for NestedMeta {
    type V = SpecNestedMeta;

    open spec fn view(&self) -> SpecNestedMeta {
        spec_nested_meta_view(*self)
    }
}

impl View for Meta {
    type V = SpecMeta;

    open spec fn view(&self) -> SpecMeta {
        spec_meta_view(*self)
    }
}

/// Relies on `str`'s `PartialEq`: two string slices are equal exactly when
/// their character sequences are equal.
#[verifier::external_body]
pub(crate) fn str_eq(a: &str, b: &str) -> (r: bool)
    ensures
        r == (a@ == b@),
{
    a == b
}

} // verus!
