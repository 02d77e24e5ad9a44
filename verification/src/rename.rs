//! The `rename` grammar: one shared name, or independent serialize /
//! deserialize names given in a parenthesized list.

use vstd::prelude::*;

use crate::meta::{
    str_eq, Lit, Meta, MetaList, MetaNameValue, NestedMeta, SpecLit, SpecMeta, SpecMetaList,
    SpecMetaNameValue, SpecNestedMeta,
};

verus! {

broadcast use crate::meta::lemma_spec_nested_seq_view;

/// The parsed value of a `rename` annotation.
#[derive(PartialEq, Eq, Hash, Debug, Clone)]
pub enum Rename {
    Normal(String),
    Independent(RenameIndependent),
}

/// Independent direction-specific names; at least one direction is always
/// present (a list with neither is a parse failure, not a value).
#[derive(PartialEq, Eq, Hash, Debug, Clone)]
pub enum RenameIndependent {
    Serialize(String),
    Deserialize(String),
    Both { serialize: String, deserialize: String },
}

/// Mathematical model of a [`Rename`].
pub enum SpecRename {
    Normal(Seq<char>),
    Independent(SpecRenameIndependent),
}

/// Mathematical model of a [`RenameIndependent`].
pub enum SpecRenameIndependent {
    Serialize(Seq<char>),
    Deserialize(Seq<char>),
    Both { serialize: Seq<char>, deserialize: Seq<char> },
}

impl View for RenameIndependent {
    type V = SpecRenameIndependent;

    open spec fn view(&self) -> SpecRenameIndependent {
        match *self {
            RenameIndependent::Serialize(ref n) => SpecRenameIndependent::Serialize(n@),
            RenameIndependent::Deserialize(ref n) => SpecRenameIndependent::Deserialize(n@),
            RenameIndependent::Both { ref serialize, ref deserialize } => {
                SpecRenameIndependent::Both { serialize: serialize@, deserialize: deserialize@ }
            },
        }
    }
}

impl View for Rename {
    type V = SpecRename;

    open spec fn view(&self) -> SpecRename {
        match *self {
            Rename::Normal(ref n) => SpecRename::Normal(n@),
            Rename::Independent(ref i) => SpecRename::Independent(i@),
        }
    }
}

/// How a node can fail to parse as a `rename` annotation.  Each variant
/// borrows the offending part of the input node for diagnostics.
#[derive(Debug)]
pub enum FromMetaError<'a> {
    /// The node is not an assignment or list carrying the expected key.
    MetaTypeOrPathMismatch(&'a Meta),
    /// A value that had to be a string literal is some other literal.
    LitTypeMismatch(&'a Lit),
    /// A nested entry of the list form is not a `name = value` assignment.
    NestedMetaTypeMismatch(&'a NestedMeta),
    /// A nested assignment carries a key other than `serialize`/`deserialize`.
    NestedMetaPathMismatch(&'a NestedMeta, &'a MetaNameValue),
    /// The list form contained neither direction.
    AtLeastOneOfSerAndDe,
}

/// Mathematical model of a [`FromMetaError`].
pub enum SpecFromMetaError {
    MetaTypeOrPathMismatch(SpecMeta),
    LitTypeMismatch(SpecLit),
    NestedMetaTypeMismatch(SpecNestedMeta),
    NestedMetaPathMismatch(SpecNestedMeta, SpecMetaNameValue),
    AtLeastOneOfSerAndDe,
}

impl<'a> View for FromMetaError<'a> {
    type V = SpecFromMetaError;

    open spec fn view(&self) -> SpecFromMetaError {
        match *self {
            FromMetaError::MetaTypeOrPathMismatch(m) => {
                SpecFromMetaError::MetaTypeOrPathMismatch(m@)
            },
            FromMetaError::LitTypeMismatch(l) => SpecFromMetaError::LitTypeMismatch(l@),
            FromMetaError::NestedMetaTypeMismatch(n) => {
                SpecFromMetaError::NestedMetaTypeMismatch(n@)
            },
            FromMetaError::NestedMetaPathMismatch(n, nv) => {
                SpecFromMetaError::NestedMetaPathMismatch(n@, nv@)
            },
            FromMetaError::AtLeastOneOfSerAndDe => SpecFromMetaError::AtLeastOneOfSerAndDe,
        }
    }
}

impl SpecFromMetaError {
    /// The one-word name of a failure, as a renderer prints it.
    pub open spec fn kind_name(self) -> Seq<char> {
        match self {
            SpecFromMetaError::MetaTypeOrPathMismatch(_) => "MetaTypeOrPathMismatch"@,
            SpecFromMetaError::LitTypeMismatch(_) => "LitTypeMismatch"@,
            SpecFromMetaError::NestedMetaTypeMismatch(_) => "NestedMetaTypeMismatch"@,
            SpecFromMetaError::NestedMetaPathMismatch(_, _) => "NestedMetaPathMismatch"@,
            SpecFromMetaError::AtLeastOneOfSerAndDe => "AtLeastOneOfSerAndDe"@,
        }
    }
}

impl<'a> FromMetaError<'a> {
    /// The one-word name of this failure, for rendering a diagnostic.
    pub fn kind_name(&self) -> (r: &'static str)
        ensures
            r@ == self@.kind_name(),
    {
        match self {
            FromMetaError::MetaTypeOrPathMismatch(_) => "MetaTypeOrPathMismatch",
            FromMetaError::LitTypeMismatch(_) => "LitTypeMismatch",
            FromMetaError::NestedMetaTypeMismatch(_) => "NestedMetaTypeMismatch",
            FromMetaError::NestedMetaPathMismatch(_, _) => "NestedMetaPathMismatch",
            FromMetaError::AtLeastOneOfSerAndDe => "AtLeastOneOfSerAndDe",
        }
    }
}

/// Scans the entries of a list form from the front, keeping the last-seen
/// value for each direction, and stops at the first malformed entry.
pub open spec fn spec_scan(
    entries: Seq<SpecNestedMeta>,
    ser: Option<Seq<char>>,
    de: Option<Seq<char>>,
) -> Result<(Option<Seq<char>>, Option<Seq<char>>), SpecFromMetaError>
    decreases entries.len(),
{
    if entries.len() == 0 {
        Ok((ser, de))
    } else {
        match entries[0] {
            SpecNestedMeta::Meta(SpecMeta::NameValue(nv)) => {
                if nv.path == "serialize"@ {
                    match nv.lit {
                        SpecLit::Str(s) => spec_scan(entries.drop_first(), Some(s), de),
                        _ => Err(SpecFromMetaError::LitTypeMismatch(nv.lit)),
                    }
                } else if nv.path == "deserialize"@ {
                    match nv.lit {
                        SpecLit::Str(s) => spec_scan(entries.drop_first(), ser, Some(s)),
                        _ => Err(SpecFromMetaError::LitTypeMismatch(nv.lit)),
                    }
                } else {
                    Err(SpecFromMetaError::NestedMetaPathMismatch(entries[0], nv))
                }
            },
            _ => Err(SpecFromMetaError::NestedMetaTypeMismatch(entries[0])),
        }
    }
}

/// The value a scanned list denotes: at least one direction is required.
pub open spec fn spec_independent(
    ser: Option<Seq<char>>,
    de: Option<Seq<char>>,
) -> Result<SpecRename, SpecFromMetaError> {
    match (ser, de) {
        (Option::None, Option::None) => Err(SpecFromMetaError::AtLeastOneOfSerAndDe),
        (Option::None, Option::Some(d)) => {
            Ok(SpecRename::Independent(SpecRenameIndependent::Deserialize(d)))
        },
        (Option::Some(s), Option::None) => {
            Ok(SpecRename::Independent(SpecRenameIndependent::Serialize(s)))
        },
        (Option::Some(s), Option::Some(d)) => {
            Ok(
                SpecRename::Independent(
                    SpecRenameIndependent::Both { serialize: s, deserialize: d },
                ),
            )
        },
    }
}

/// What parsing a node as the `rename`-shaped grammar under `key` yields:
/// a bare `key = "name"` assignment is a shared name, a `key(...)` list
/// holds independent direction names, and everything else is rejected.
pub open spec fn spec_rename_from_meta(m: SpecMeta, key: Seq<char>) -> Result<
    SpecRename,
    SpecFromMetaError,
> {
    match m {
        SpecMeta::NameValue(nv) => {
            if nv.path == key {
                match nv.lit {
                    SpecLit::Str(s) => Ok(SpecRename::Normal(s)),
                    _ => Err(SpecFromMetaError::LitTypeMismatch(nv.lit)),
                }
            } else {
                Err(SpecFromMetaError::MetaTypeOrPathMismatch(m))
            }
        },
        SpecMeta::List(l) => {
            if l.path == key {
                match spec_scan(l.nested, None, None) {
                    Ok((ser, de)) => spec_independent(ser, de),
                    Err(e) => Err(e),
                }
            } else {
                Err(SpecFromMetaError::MetaTypeOrPathMismatch(m))
            }
        },
        _ => Err(SpecFromMetaError::MetaTypeOrPathMismatch(m)),
    }
}

/// Lifts an executable parse result to the model level.
pub open spec fn spec_rename_result<'a>(r: Result<Rename, FromMetaError<'a>>) -> Result<
    SpecRename,
    SpecFromMetaError,
> {
    match r {
        Ok(v) => Ok(v@),
        Err(e) => Err(e@),
    }
}

pub(crate) open spec fn opt_name_view(o: Option<String>) -> Option<Seq<char>> {
    match o {
        Option::Some(s) => Option::Some(s@),
        Option::None => Option::None,
    }
}

/// Walks the entries of a list form, collecting the last-seen name for each
/// direction, exactly as [`spec_scan`] describes.
fn scan_list<'a>(l: &'a MetaList) -> (r: Result<
    (Option<String>, Option<String>),
    FromMetaError<'a>,
>)
    ensures
        match r {
            Ok((ser, de)) => spec_scan(l@.nested, None, None) == Ok::<
                _,
                SpecFromMetaError,
            >((opt_name_view(ser), opt_name_view(de))),
            Err(e) => spec_scan(l@.nested, None, None) == Err::<
                (Option<Seq<char>>, Option<Seq<char>>),
                _,
            >(e@),
        },
{
    let ghost entries = l@.nested;
    let mut ser_name: Option<String> = None;
    let mut de_name: Option<String> = None;
    let mut i: usize = 0;
    proof {
        assert(entries.skip(0) =~= entries);
    }
    while i < l.nested.len()
        invariant
            i <= l.nested.len(),
            entries == l@.nested,
            entries.len() == l.nested.len(),
            spec_scan(entries, None, None) == spec_scan(
                entries.skip(i as int),
                opt_name_view(ser_name),
                opt_name_view(de_name),
            ),
        decreases l.nested.len() - i,
    {
        let entry = &l.nested[i];
        proof {
            assert(entries[i as int] == entry@);
            assert(entries.skip(i as int)[0] == entries[i as int]);
            assert(entries.skip(i as int).drop_first() =~= entries.skip(i as int + 1));
        }
        match entry {
            NestedMeta::Meta(Meta::NameValue(nv)) => {
                if str_eq(nv.path.as_str(), "serialize") {
                    match &nv.lit {
                        Lit::Str(s) => {
                            ser_name = Some(s.clone());
                        },
                        _ => {
                            return Err(FromMetaError::LitTypeMismatch(&nv.lit));
                        },
                    }
                } else if str_eq(nv.path.as_str(), "deserialize") {
                    match &nv.lit {
                        Lit::Str(s) => {
                            de_name = Some(s.clone());
                        },
                        _ => {
                            return Err(FromMetaError::LitTypeMismatch(&nv.lit));
                        },
                    }
                } else {
                    return Err(FromMetaError::NestedMetaPathMismatch(entry, nv));
                }
            },
            _ => {
                return Err(FromMetaError::NestedMetaTypeMismatch(entry));
            },
        }
        i = i + 1;
    }
    proof {
        assert(entries.skip(i as int) =~= Seq::<SpecNestedMeta>::empty());
    }
    Ok((ser_name, de_name))
}

impl Rename {
    /// Parses a node in the `rename` grammar against an arbitrary expected
    /// key, so that sibling annotations sharing the grammar can reuse it.
    pub fn try_from_meta<'a>(meta: &'a Meta, key: &str) -> (r: Result<Rename, FromMetaError<'a>>)
        ensures
            spec_rename_result(r) == spec_rename_from_meta(meta@, key@),
    {
        match meta {
            Meta::NameValue(nv) => {
                if str_eq(nv.path.as_str(), key) {
                    match &nv.lit {
                        Lit::Str(s) => Ok(Rename::Normal(s.clone())),
                        _ => Err(FromMetaError::LitTypeMismatch(&nv.lit)),
                    }
                } else {
                    Err(FromMetaError::MetaTypeOrPathMismatch(meta))
                }
            },
            Meta::List(l) => {
                if str_eq(l.path.as_str(), key) {
                    match scan_list(l) {
                        Ok((ser, de)) => {
                            match (ser, de) {
                                (None, None) => Err(FromMetaError::AtLeastOneOfSerAndDe),
                                (None, Some(d)) => {
                                    Ok(Rename::Independent(RenameIndependent::Deserialize(d)))
                                },
                                (Some(s), None) => {
                                    Ok(Rename::Independent(RenameIndependent::Serialize(s)))
                                },
                                (Some(s), Some(d)) => {
                                    Ok(
                                        Rename::Independent(
                                            RenameIndependent::Both {
                                                serialize: s,
                                                deserialize: d,
                                            },
                                        ),
                                    )
                                },
                            }
                        },
                        Err(e) => Err(e),
                    }
                } else {
                    Err(FromMetaError::MetaTypeOrPathMismatch(meta))
                }
            },
            _ => Err(FromMetaError::MetaTypeOrPathMismatch(meta)),
        }
    }

    /// Parses a node expected to carry the key `rename`.
    pub fn try_from<'a>(meta: &'a Meta) -> (r: Result<Rename, FromMetaError<'a>>)
        ensures
            spec_rename_result(r) == spec_rename_from_meta(meta@, "rename"@),
    {
        Self::try_from_meta(meta, "rename")
    }
}

impl SpecRename {
    /// The name used when writing out, if one was given.
    pub open spec fn ser_name(self) -> Option<Seq<char>> {
        match self {
            SpecRename::Normal(n) => Some(n),
            SpecRename::Independent(SpecRenameIndependent::Serialize(n)) => Some(n),
            SpecRename::Independent(SpecRenameIndependent::Both { serialize: n, deserialize: _ }) => Some(
                n,
            ),
            _ => None,
        }
    }

    /// The name recognized when reading back, if one was given.
    pub open spec fn de_name(self) -> Option<Seq<char>> {
        match self {
            SpecRename::Normal(n) => Some(n),
            SpecRename::Independent(SpecRenameIndependent::Deserialize(n)) => Some(n),
            SpecRename::Independent(SpecRenameIndependent::Both { serialize: _, deserialize: n }) => Some(
                n,
            ),
            _ => None,
        }
    }
}

/// Whether a nested entry is a string assignment `key = "..."`.
pub open spec fn spec_entry_is_assign(e: SpecNestedMeta, key: Seq<char>) -> bool {
    e matches SpecNestedMeta::Meta(SpecMeta::NameValue(nv)) && nv.path == key && nv.lit is Str
}

/// The string assigned by a string-assignment entry.
pub open spec fn spec_entry_value(e: SpecNestedMeta) -> Seq<char> {
    match e {
        SpecNestedMeta::Meta(SpecMeta::NameValue(nv)) => match nv.lit {
            SpecLit::Str(s) => s,
            _ => Seq::empty(),
        },
        _ => Seq::empty(),
    }
}

/// Whether every entry of a list assigns one of the two directions.
pub open spec fn spec_entries_recognized(entries: Seq<SpecNestedMeta>) -> bool {
    forall|i: int|
        0 <= i < entries.len() ==> spec_entry_is_assign(#[trigger] entries[i], "serialize"@)
            || spec_entry_is_assign(entries[i], "deserialize"@)
}

/// The last value assigned to `key` in order, starting from `acc`.
pub open spec fn spec_last_value(
    entries: Seq<SpecNestedMeta>,
    key: Seq<char>,
    acc: Option<Seq<char>>,
) -> Option<Seq<char>>
    decreases entries.len(),
{
    if entries.len() == 0 {
        acc
    } else {
        spec_last_value(
            entries.drop_first(),
            key,
            if spec_entry_is_assign(entries[0], key) {
                Some(spec_entry_value(entries[0]))
            } else {
                acc
            },
        )
    }
}

proof fn lemma_keys_distinct()
    ensures
        "serialize"@ != "deserialize"@,
{
    reveal_strlit("serialize");
    reveal_strlit("deserialize");
    assert("serialize"@.len() != "deserialize"@.len());
}

proof fn lemma_entries_recognized_drop_first(entries: Seq<SpecNestedMeta>)
    requires
        spec_entries_recognized(entries),
        entries.len() > 0,
    ensures
        spec_entries_recognized(entries.drop_first()),
{
    assert forall|i: int|
        0 <= i < entries.drop_first().len() implies spec_entry_is_assign(
        #[trigger] entries.drop_first()[i],
        "serialize"@,
    ) || spec_entry_is_assign(entries.drop_first()[i], "deserialize"@) by {
        assert(entries.drop_first()[i] == entries[i + 1]);
    }
}

/// On a list whose entries all assign a direction, the scan succeeds and
/// keeps, for each direction, the last value assigned to it.
pub proof fn lemma_scan_recognized(
    entries: Seq<SpecNestedMeta>,
    ser: Option<Seq<char>>,
    de: Option<Seq<char>>,
)
    requires
        spec_entries_recognized(entries),
    ensures
        spec_scan(entries, ser, de) == Ok::<_, SpecFromMetaError>(
            (
                spec_last_value(entries, "serialize"@, ser),
                spec_last_value(entries, "deserialize"@, de),
            ),
        ),
    decreases entries.len(),
{
    lemma_keys_distinct();
    if entries.len() > 0 {
        lemma_entries_recognized_drop_first(entries);
        let e = entries[0];
        if spec_entry_is_assign(e, "serialize"@) {
            lemma_scan_recognized(entries.drop_first(), Some(spec_entry_value(e)), de);
        } else {
            lemma_scan_recognized(entries.drop_first(), ser, Some(spec_entry_value(e)));
        }
    }
}

proof fn lemma_last_value_some(entries: Seq<SpecNestedMeta>, key: Seq<char>, acc: Option<Seq<char>>)
    requires
        acc is Some || exists|i: int|
            0 <= i < entries.len() && spec_entry_is_assign(#[trigger] entries[i], key),
    ensures
        spec_last_value(entries, key, acc) is Some,
    decreases entries.len(),
{
    if entries.len() > 0 {
        let acc2 = if spec_entry_is_assign(entries[0], key) {
            Some(spec_entry_value(entries[0]))
        } else {
            acc
        };
        if acc2 is Some {
            lemma_last_value_some(entries.drop_first(), key, acc2);
        } else {
            let i = choose|i: int|
                0 <= i < entries.len() && spec_entry_is_assign(#[trigger] entries[i], key);
            assert(entries.drop_first()[i - 1] == entries[i]);
            lemma_last_value_some(entries.drop_first(), key, acc2);
        }
    }
}

proof fn lemma_last_value_none(entries: Seq<SpecNestedMeta>, key: Seq<char>)
    requires
        forall|i: int| 0 <= i < entries.len() ==> !spec_entry_is_assign(#[trigger] entries[i], key),
    ensures
        spec_last_value(entries, key, None) is None,
    decreases entries.len(),
{
    if entries.len() > 0 {
        assert forall|i: int| 0 <= i < entries.drop_first().len() implies !spec_entry_is_assign(
            #[trigger] entries.drop_first()[i],
            key,
        ) by {
            assert(entries.drop_first()[i] == entries[i + 1]);
        }
        lemma_last_value_none(entries.drop_first(), key);
    }
}

/// A bare `key = "name"` assignment parses to exactly that name, whatever
/// characters it holds: no transformation is applied.
pub proof fn lemma_rename_normal(nv: SpecMetaNameValue, key: Seq<char>)
    requires
        nv.path == key,
        nv.lit is Str,
    ensures
        spec_rename_from_meta(SpecMeta::NameValue(nv), key) == Ok::<_, SpecFromMetaError>(
            SpecRename::Normal(nv.lit->Str_0),
        ),
{
}

/// A list whose entries all assign the serialize direction parses to the
/// serialize-only value holding the last assigned name, which answers a
/// serialize query and no deserialize query.
pub proof fn lemma_independent_only_serialize(l: SpecMetaList, key: Seq<char>)
    requires
        l.path == key,
        l.nested.len() > 0,
        forall|i: int|
            0 <= i < l.nested.len() ==> spec_entry_is_assign(#[trigger] l.nested[i], "serialize"@),
    ensures
        ({
            let last = spec_last_value(l.nested, "serialize"@, None);
            let value = SpecRename::Independent(SpecRenameIndependent::Serialize(last->0));
            &&& last is Some
            &&& spec_rename_from_meta(SpecMeta::List(l), key) == Ok::<_, SpecFromMetaError>(value)
            &&& value.ser_name() == last
            &&& value.de_name() is None
        }),
{
    lemma_keys_distinct();
    lemma_scan_recognized(l.nested, None, None);
    lemma_last_value_some(l.nested, "serialize"@, None);
    lemma_last_value_none(l.nested, "deserialize"@);
}

/// A list whose entries all assign the deserialize direction parses to the
/// deserialize-only value holding the last assigned name, which answers a
/// deserialize query and no serialize query.
pub proof fn lemma_independent_only_deserialize(l: SpecMetaList, key: Seq<char>)
    requires
        l.path == key,
        l.nested.len() > 0,
        forall|i: int|
            0 <= i < l.nested.len() ==> spec_entry_is_assign(
                #[trigger] l.nested[i],
                "deserialize"@,
            ),
    ensures
        ({
            let last = spec_last_value(l.nested, "deserialize"@, None);
            let value = SpecRename::Independent(SpecRenameIndependent::Deserialize(last->0));
            &&& last is Some
            &&& spec_rename_from_meta(SpecMeta::List(l), key) == Ok::<_, SpecFromMetaError>(value)
            &&& value.de_name() == last
            &&& value.ser_name() is None
        }),
{
    lemma_keys_distinct();
    lemma_scan_recognized(l.nested, None, None);
    lemma_last_value_some(l.nested, "deserialize"@, None);
    lemma_last_value_none(l.nested, "serialize"@);
}

/// A list that assigns both directions parses to the two-sided value
/// holding the last name assigned to each, and both queries are answered.
pub proof fn lemma_independent_both(l: SpecMetaList, key: Seq<char>)
    requires
        l.path == key,
        spec_entries_recognized(l.nested),
        exists|i: int|
            0 <= i < l.nested.len() && spec_entry_is_assign(#[trigger] l.nested[i], "serialize"@),
        exists|i: int|
            0 <= i < l.nested.len() && spec_entry_is_assign(
                #[trigger] l.nested[i],
                "deserialize"@,
            ),
    ensures
        ({
            let last_ser = spec_last_value(l.nested, "serialize"@, None);
            let last_de = spec_last_value(l.nested, "deserialize"@, None);
            let value = SpecRename::Independent(
                SpecRenameIndependent::Both { serialize: last_ser->0, deserialize: last_de->0 },
            );
            &&& last_ser is Some
            &&& last_de is Some
            &&& spec_rename_from_meta(SpecMeta::List(l), key) == Ok::<_, SpecFromMetaError>(value)
            &&& value.ser_name() == last_ser
            &&& value.de_name() == last_de
        }),
{
    lemma_scan_recognized(l.nested, None, None);
    lemma_last_value_some(l.nested, "serialize"@, None);
    lemma_last_value_some(l.nested, "deserialize"@, None);
}

/// A list with no entries assigns neither direction and is rejected with
/// the at-least-one failure, never a degenerate value.
pub proof fn lemma_independent_empty(l: SpecMetaList, key: Seq<char>)
    requires
        l.path == key,
        l.nested.len() == 0,
    ensures
        spec_rename_from_meta(SpecMeta::List(l), key) == Err::<SpecRename, _>(
            SpecFromMetaError::AtLeastOneOfSerAndDe,
        ),
{
}

proof fn lemma_scan_stops_at_bad_key(
    entries: Seq<SpecNestedMeta>,
    ser: Option<Seq<char>>,
    de: Option<Seq<char>>,
    k: int,
)
    requires
        0 <= k < entries.len(),
        forall|i: int|
            0 <= i < k ==> spec_entry_is_assign(#[trigger] entries[i], "serialize"@)
                || spec_entry_is_assign(entries[i], "deserialize"@),
        entries[k] matches SpecNestedMeta::Meta(m) && m matches SpecMeta::NameValue(nv)
            && nv.path != "serialize"@ && nv.path != "deserialize"@,
    ensures
        spec_scan(entries, ser, de) == Err::<(Option<Seq<char>>, Option<Seq<char>>), _>(
            SpecFromMetaError::NestedMetaPathMismatch(entries[k], entries[k]->Meta_0->NameValue_0),
        ),
    decreases k,
{
    if k == 0 {
    } else {
        assert forall|i: int| 0 <= i < k - 1 implies spec_entry_is_assign(
            #[trigger] entries.drop_first()[i],
            "serialize"@,
        ) || spec_entry_is_assign(entries.drop_first()[i], "deserialize"@) by {
            assert(entries.drop_first()[i] == entries[i + 1]);
        }
        assert(entries.drop_first()[k - 1] == entries[k]);
        let e = entries[0];
        if spec_entry_is_assign(e, "serialize"@) {
            lemma_scan_stops_at_bad_key(entries.drop_first(), Some(spec_entry_value(e)), de, k - 1);
        } else {
            lemma_scan_stops_at_bad_key(entries.drop_first(), ser, Some(spec_entry_value(e)), k - 1);
        }
    }
}

/// A list whose first malformed entry is an assignment under an unknown key
/// is rejected with the nested-key failure referencing exactly that entry.
pub proof fn lemma_unrecognized_nested_key(l: SpecMetaList, key: Seq<char>, k: int)
    requires
        l.path == key,
        0 <= k < l.nested.len(),
        forall|i: int|
            0 <= i < k ==> spec_entry_is_assign(#[trigger] l.nested[i], "serialize"@)
                || spec_entry_is_assign(l.nested[i], "deserialize"@),
        l.nested[k] matches SpecNestedMeta::Meta(m) && m matches SpecMeta::NameValue(nv)
            && nv.path != "serialize"@ && nv.path != "deserialize"@,
    ensures
        spec_rename_from_meta(SpecMeta::List(l), key) == Err::<SpecRename, _>(
            SpecFromMetaError::NestedMetaPathMismatch(
                l.nested[k],
                l.nested[k]->Meta_0->NameValue_0,
            ),
        ),
{
    lemma_scan_stops_at_bad_key(l.nested, None, None, k);
}

/// A direction assignment, as an entry of the canonical list form.
pub open spec fn spec_assign_entry(key: Seq<char>, value: Seq<char>) -> SpecNestedMeta {
    SpecNestedMeta::Meta(
        SpecMeta::NameValue(SpecMetaNameValue { path: key, lit: SpecLit::Str(value) }),
    )
}

/// The canonical textual form of a parsed value: the node a renderer would
/// print for it.
pub open spec fn spec_render_rename(r: SpecRename, key: Seq<char>) -> SpecMeta {
    match r {
        SpecRename::Normal(n) => SpecMeta::NameValue(
            SpecMetaNameValue { path: key, lit: SpecLit::Str(n) },
        ),
        SpecRename::Independent(SpecRenameIndependent::Serialize(n)) => SpecMeta::List(
            SpecMetaList { path: key, nested: seq![spec_assign_entry("serialize"@, n)] },
        ),
        SpecRename::Independent(SpecRenameIndependent::Deserialize(n)) => SpecMeta::List(
            SpecMetaList { path: key, nested: seq![spec_assign_entry("deserialize"@, n)] },
        ),
        SpecRename::Independent(SpecRenameIndependent::Both { serialize: s, deserialize: d }) => {
            SpecMeta::List(
                SpecMetaList {
                    path: key,
                    nested: seq![
                        spec_assign_entry("serialize"@, s),
                        spec_assign_entry("deserialize"@, d),
                    ],
                },
            )
        },
    }
}

/// Re-parsing the canonical textual form of a parsed value yields the value
/// back unchanged.
pub proof fn lemma_rename_roundtrip(r: SpecRename, key: Seq<char>)
    ensures
        spec_rename_from_meta(spec_render_rename(r, key), key) == Ok::<_, SpecFromMetaError>(r),
{
    lemma_keys_distinct();
    reveal_with_fuel(spec_scan, 3);
    match r {
        SpecRename::Normal(_) => {},
        SpecRename::Independent(SpecRenameIndependent::Serialize(n)) => {
            let entries = seq![spec_assign_entry("serialize"@, n)];
            assert(entries.drop_first() =~= Seq::<SpecNestedMeta>::empty());
        },
        SpecRename::Independent(SpecRenameIndependent::Deserialize(n)) => {
            let entries = seq![spec_assign_entry("deserialize"@, n)];
            assert(entries.drop_first() =~= Seq::<SpecNestedMeta>::empty());
        },
        SpecRename::Independent(SpecRenameIndependent::Both { serialize: s, deserialize: d }) => {
            let entries = seq![
                spec_assign_entry("serialize"@, s),
                spec_assign_entry("deserialize"@, d),
            ];
            assert(entries.drop_first() =~= seq![spec_assign_entry("deserialize"@, d)]);
            assert(entries.drop_first().drop_first() =~= Seq::<SpecNestedMeta>::empty());
        },
    }
}

impl Rename {
    /// The name used when writing out: a shared name answers both directions.
    pub fn ser_name(&self) -> (r: Option<&str>)
        ensures
            match r {
                Some(s) => self@.ser_name() == Some(s@),
                None => self@.ser_name() is None,
            },
    {
        match self {
            Rename::Normal(name) => Some(name.as_str()),
            Rename::Independent(RenameIndependent::Serialize(name)) => Some(name.as_str()),
            Rename::Independent(RenameIndependent::Both { serialize: name, deserialize: _ }) => {
                Some(name.as_str())
            },
            _ => None,
        }
    }

    /// The name recognized when reading back: a shared name answers both
    /// directions.
    pub fn de_name(&self) -> (r: Option<&str>)
        ensures
            match r {
                Some(s) => self@.de_name() == Some(s@),
                None => self@.de_name() is None,
            },
    {
        match self {
            Rename::Normal(name) => Some(name.as_str()),
            Rename::Independent(RenameIndependent::Deserialize(name)) => Some(name.as_str()),
            Rename::Independent(RenameIndependent::Both { serialize: _, deserialize: name }) => {
                Some(name.as_str())
            },
            _ => None,
        }
    }
}

} // verus!
