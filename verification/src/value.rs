//! Structured document values.
//!
//! A [`DocValue`] is the tree shape of a parsed TOML document: strings, integers,
//! booleans, arrays, and tables held as key/value pair lists in document
//! order. The manifest schema is read out of such trees, and serialized back
//! into them. The conversion between TOML text and `DocValue` trees is the
//! trusted boundary to the `toml` crate, at the bottom of this module.

use vstd::prelude::*;

use crate::error::ErrorKind;
use crate::error::ManifestError;
use crate::error::spec_wrong_type;

verus! {

broadcast use vstd::std_specs::vec::group_vec_axioms;

/// A structured configuration value: the subset of TOML that the manifest
/// schema gives meaning to. Floats and datetimes play no role in the schema;
/// the conversion from the underlying parser renders them as strings.
#[derive(Debug)]
pub enum DocValue {
    /// A string value.
    Str(String),
    /// An integer value.
    Int(i64),
    /// A boolean value.
    Bool(bool),
    /// An array of values.
    Arr(Vec<DocValue>),
    /// A table, held as key/value pairs in document order.
    Table(Vec<(String, DocValue)>),
}

/// Structural equivalence of two values: the same shape, with strings
/// compared by their character sequences. This is what a deep copy of a
/// value preserves.
pub open spec fn value_like(a: DocValue, b: DocValue) -> bool
    decreases a,
{
    match (a, b) {
        (DocValue::Str(x), DocValue::Str(y)) => x@ == y@,
        (DocValue::Int(x), DocValue::Int(y)) => x == y,
        (DocValue::Bool(x), DocValue::Bool(y)) => x == y,
        (DocValue::Arr(x), DocValue::Arr(y)) => {
            &&& x@.len() == y@.len()
            &&& forall|i: int| 0 <= i < x@.len() ==> value_like(#[trigger] x@[i], y@[i])
        },
        (DocValue::Table(x), DocValue::Table(y)) => pairs_like(x@, y@),
        _ => false,
    }
}

/// Structural equivalence of two key/value pair lists, keys compared by
/// their character sequences.
pub open spec fn pairs_like(a: Seq<(String, DocValue)>, b: Seq<(String, DocValue)>) -> bool
    decreases a,
{
    &&& a.len() == b.len()
    &&& forall|i: int|
        0 <= i < a.len() ==> (#[trigger] a[i]).0@ == b[i].0@ && value_like(a[i].1, b[i].1)
}

/// Look a key up in a pair list: the first pair whose key has these
/// characters, scanning in document order.
pub open spec fn spec_lookup(t: Seq<(String, DocValue)>, key: Seq<char>) -> Option<DocValue>
    decreases t.len(),
{
    if t.len() == 0 {
        None
    } else if t[0].0@ == key {
        Some(t[0].1)
    } else {
        spec_lookup(t.drop_first(), key)
    }
}

/// A lookup lands on the first index carrying the key.
pub(crate) proof fn lemma_lookup_at(t: Seq<(String, DocValue)>, key: Seq<char>, i: int)
    requires
        0 <= i < t.len(),
        t[i].0@ == key,
        forall|j: int| 0 <= j < i ==> (#[trigger] t[j]).0@ != key,
    ensures
        spec_lookup(t, key) == Some(t[i].1),
    decreases i,
{
    if i > 0 {
        assert forall|j: int| 0 <= j < i - 1 implies (#[trigger] t.drop_first()[j]).0@ != key by {
            assert(t.drop_first()[j] == t[j + 1]);
        }
        assert(t.drop_first()[i - 1] == t[i]);
        lemma_lookup_at(t.drop_first(), key, i - 1);
    }
}

/// A lookup finds nothing when no entry carries the key.
pub(crate) proof fn lemma_lookup_none(t: Seq<(String, DocValue)>, key: Seq<char>)
    requires
        forall|j: int| 0 <= j < t.len() ==> (#[trigger] t[j]).0@ != key,
    ensures
        spec_lookup(t, key) is None,
    decreases t.len(),
{
    if t.len() > 0 {
        assert forall|j: int| 0 <= j < t.len() - 1 implies (#[trigger] t.drop_first()[j]).0@
            != key by {
            assert(t.drop_first()[j] == t[j + 1]);
        }
        lemma_lookup_none(t.drop_first(), key);
    }
}

/// Structural equivalence is symmetric.
pub(crate) proof fn lemma_value_like_sym(a: DocValue, b: DocValue)
    requires
        value_like(a, b),
    ensures
        value_like(b, a),
    decreases a,
{
    match (a, b) {
        (DocValue::Arr(x), DocValue::Arr(y)) => {
            assert forall|i: int| 0 <= i < y@.len() implies value_like(
                #[trigger] y@[i],
                x@[i],
            ) by {
                assert(value_like(x@[i], y@[i]));
                lemma_value_like_sym(x@[i], y@[i]);
            }
        },
        (DocValue::Table(x), DocValue::Table(y)) => {
            lemma_pairs_like_sym(x@, y@);
        },
        _ => {},
    }
}

/// Structural equivalence of pair lists is symmetric.
pub(crate) proof fn lemma_pairs_like_sym(a: Seq<(String, DocValue)>, b: Seq<(String, DocValue)>)
    requires
        pairs_like(a, b),
    ensures
        pairs_like(b, a),
    decreases a,
{
    assert forall|i: int| 0 <= i < b.len() implies (#[trigger] b[i]).0@ == a[i].0@ && value_like(
        b[i].1,
        a[i].1,
    ) by {
        assert(a[i].0@ == b[i].0@ && value_like(a[i].1, b[i].1));
        lemma_value_like_sym(a[i].1, b[i].1);
    }
}

/// Whether two strings hold the same characters.
fn string_eq(a: &String, b: &String) -> (r: bool)
    ensures
        r == (a@ == b@),
{
    a.eq(b)
}

/// Look a key up in a table's pair list.
pub(crate) fn lookup<'a>(t: &'a Vec<(String, DocValue)>, key: &str) -> (r: Option<&'a DocValue>)
    ensures
        match r {
            Some(v) => spec_lookup(t@, key@) == Some(*v),
            None => spec_lookup(t@, key@) is None,
        },
{
    let k: String = key.to_owned();
    proof {
        assert(t@.skip(0) =~= t@);
    }
    let mut i: usize = 0;
    while i < t.len()
        invariant
            0 <= i <= t@.len(),
            k@ == key@,
            spec_lookup(t@, key@) == spec_lookup(t@.skip(i as int), key@),
        decreases t@.len() - i,
    {
        proof {
            assert(t@.skip(i as int).drop_first() =~= t@.skip(i + 1));
            assert(t@.skip(i as int)[0] == t@[i as int]);
        }
        if string_eq(&t[i].0, &k) {
            return Some(&t[i].1);
        }
        i = i + 1;
    }
    proof {
        assert(t@.skip(i as int).len() == 0);
    }
    None
}

// ---------------------------------------------------------------------------
// Field extraction: spec descriptions
// ---------------------------------------------------------------------------

/// The string characters of a value, if it is a string.
pub open spec fn spec_as_str(v: DocValue) -> Option<Seq<char>> {
    match v {
        DocValue::Str(s) => Some(s@),
        _ => None,
    }
}

/// The string characters at a key, if the key is present and holds a string.
pub open spec fn spec_str_at(t: Seq<(String, DocValue)>, key: Seq<char>) -> Option<Seq<char>> {
    match spec_lookup(t, key) {
        Some(v) => spec_as_str(v),
        None => None,
    }
}

/// The error of a mandatory string field: absent yields the missing-field
/// error for `path`, a non-string value yields the wrong-type error.
pub open spec fn spec_req_str_err(
    t: Seq<(String, DocValue)>,
    key: Seq<char>,
    path: Seq<char>,
) -> Option<ErrorKind> {
    match spec_lookup(t, key) {
        None => Some(ErrorKind::MissingField(path)),
        Some(v) => if v is Str {
            None
        } else {
            Some(ErrorKind::TomlParse(spec_wrong_type(path)))
        },
    }
}

/// Whether an optional string field is acceptable: absent, or a string.
pub open spec fn spec_opt_str_ok(t: Seq<(String, DocValue)>, key: Seq<char>) -> bool {
    match spec_lookup(t, key) {
        None => true,
        Some(v) => v is Str,
    }
}

/// The value of an optional string field with a default.
pub open spec fn spec_opt_str_val(
    t: Seq<(String, DocValue)>,
    key: Seq<char>,
    default: Seq<char>,
) -> Seq<char> {
    match spec_str_at(t, key) {
        Some(s) => s,
        None => default,
    }
}

/// Whether an optional boolean field is acceptable: absent, or a boolean.
pub open spec fn spec_opt_bool_ok(t: Seq<(String, DocValue)>, key: Seq<char>) -> bool {
    match spec_lookup(t, key) {
        None => true,
        Some(v) => v is Bool,
    }
}

/// The value of an optional boolean field, false when absent.
pub open spec fn spec_opt_bool_val(t: Seq<(String, DocValue)>, key: Seq<char>) -> bool {
    match spec_lookup(t, key) {
        Some(DocValue::Bool(b)) => b,
        _ => false,
    }
}

/// Whether an optional unsigned integer field is acceptable: absent, or an
/// integer within `u32` range.
pub open spec fn spec_opt_u32_ok(t: Seq<(String, DocValue)>, key: Seq<char>) -> bool {
    match spec_lookup(t, key) {
        None => true,
        Some(v) => match v {
            DocValue::Int(i) => 0 <= i <= u32::MAX,
            _ => false,
        },
    }
}

/// The value of an optional unsigned integer field with a default.
pub open spec fn spec_opt_u32_val(t: Seq<(String, DocValue)>, key: Seq<char>, default: u32) -> u32 {
    match spec_lookup(t, key) {
        Some(DocValue::Int(i)) => i as u32,
        _ => default,
    }
}

/// Whether every element of a value sequence is a string.
pub open spec fn spec_all_str(vs: Seq<DocValue>) -> bool {
    forall|i: int| 0 <= i < vs.len() ==> (#[trigger] vs[i]) is Str
}

/// The character sequences of a value sequence's strings; non-strings, which
/// acceptable fields never hold, read as empty.
pub open spec fn spec_str_seq(vs: Seq<DocValue>) -> Seq<Seq<char>> {
    Seq::new(
        vs.len(),
        |i: int|
            match vs[i] {
                DocValue::Str(s) => s@,
                _ => Seq::empty(),
            },
    )
}

/// Whether an optional string-array field is acceptable: absent, or an array
/// whose elements are all strings.
pub open spec fn spec_opt_str_arr_ok(t: Seq<(String, DocValue)>, key: Seq<char>) -> bool {
    match spec_lookup(t, key) {
        None => true,
        Some(v) => match v {
            DocValue::Arr(a) => spec_all_str(a@),
            _ => false,
        },
    }
}

/// The value of an optional string-array field, empty when absent.
pub open spec fn spec_opt_str_arr_val(t: Seq<(String, DocValue)>, key: Seq<char>) -> Seq<Seq<char>> {
    match spec_lookup(t, key) {
        Some(DocValue::Arr(a)) => spec_str_seq(a@),
        _ => Seq::empty(),
    }
}

/// Whether every value of a pair list is a string.
pub open spec fn spec_all_str_pairs(t: Seq<(String, DocValue)>) -> bool {
    forall|i: int| 0 <= i < t.len() ==> (#[trigger] t[i]).1 is Str
}

/// The key/value character sequences of a pair list whose values are
/// strings; non-string values, which acceptable fields never hold, read as
/// empty.
pub open spec fn spec_str_pairs(t: Seq<(String, DocValue)>) -> Seq<(Seq<char>, Seq<char>)> {
    Seq::new(
        t.len(),
        |i: int|
            (
                t[i].0@,
                match t[i].1 {
                    DocValue::Str(s) => s@,
                    _ => Seq::empty(),
                },
            ),
    )
}

/// Whether an optional string-table field is acceptable: absent, or a table
/// whose values are all strings.
pub open spec fn spec_opt_str_table_ok(t: Seq<(String, DocValue)>, key: Seq<char>) -> bool {
    match spec_lookup(t, key) {
        None => true,
        Some(v) => match v {
            DocValue::Table(tt) => spec_all_str_pairs(tt@),
            _ => false,
        },
    }
}

/// The value of an optional string-table field, empty when absent.
pub open spec fn spec_opt_str_table_val(
    t: Seq<(String, DocValue)>,
    key: Seq<char>,
) -> Seq<(Seq<char>, Seq<char>)> {
    match spec_lookup(t, key) {
        Some(DocValue::Table(tt)) => spec_str_pairs(tt@),
        _ => Seq::empty(),
    }
}

// ---------------------------------------------------------------------------
// Field extraction: executable helpers
// ---------------------------------------------------------------------------

/// Read a mandatory string field; `path` is the dotted path reported on error.
pub(crate) fn req_str(t: &Vec<(String, DocValue)>, key: &str, path: &str) -> (r: Result<
    String,
    ManifestError,
>)
    ensures
        match r {
            Ok(s) => spec_req_str_err(t@, key@, path@) is None && Some(s@) == spec_str_at(
                t@,
                key@,
            ),
            Err(e) => spec_req_str_err(t@, key@, path@) == Some(e@),
        },
{
    match lookup(t, key) {
        None => Err(ManifestError::missing(path)),
        Some(v) => match v {
            DocValue::Str(s) => Ok(s.clone()),
            _ => Err(ManifestError::wrong_type(path)),
        },
    }
}

/// Read an optional string field, substituting a default when absent.
pub(crate) fn opt_str(t: &Vec<(String, DocValue)>, key: &str, path: &str, default: &str) -> (r: Result<
    String,
    ManifestError,
>)
    ensures
        match r {
            Ok(s) => spec_opt_str_ok(t@, key@) && s@ == spec_opt_str_val(t@, key@, default@),
            Err(e) => !spec_opt_str_ok(t@, key@) && e@ == ErrorKind::TomlParse(
                spec_wrong_type(path@),
            ),
        },
{
    match lookup(t, key) {
        None => Ok(default.to_owned()),
        Some(v) => match v {
            DocValue::Str(s) => Ok(s.clone()),
            _ => Err(ManifestError::wrong_type(path)),
        },
    }
}

/// Read an optional string field that stays absent when not given.
pub(crate) fn opt_str_option(t: &Vec<(String, DocValue)>, key: &str, path: &str) -> (r: Result<
    Option<String>,
    ManifestError,
>)
    ensures
        match r {
            Ok(s) => spec_opt_str_ok(t@, key@) && s.deep_view() == spec_str_at(t@, key@),
            Err(e) => !spec_opt_str_ok(t@, key@) && e@ == ErrorKind::TomlParse(
                spec_wrong_type(path@),
            ),
        },
{
    match lookup(t, key) {
        None => Ok(None),
        Some(v) => match v {
            DocValue::Str(s) => Ok(Some(s.clone())),
            _ => Err(ManifestError::wrong_type(path)),
        },
    }
}

/// Read an optional boolean field, false when absent.
pub(crate) fn opt_bool(t: &Vec<(String, DocValue)>, key: &str, path: &str) -> (r: Result<
    bool,
    ManifestError,
>)
    ensures
        match r {
            Ok(b) => spec_opt_bool_ok(t@, key@) && b == spec_opt_bool_val(t@, key@),
            Err(e) => !spec_opt_bool_ok(t@, key@) && e@ == ErrorKind::TomlParse(
                spec_wrong_type(path@),
            ),
        },
{
    match lookup(t, key) {
        None => Ok(false),
        Some(v) => match v {
            DocValue::Bool(b) => Ok(*b),
            _ => Err(ManifestError::wrong_type(path)),
        },
    }
}

/// Read an optional unsigned integer field with a default; integers outside
/// `u32` range count as the wrong type.
pub(crate) fn opt_u32(t: &Vec<(String, DocValue)>, key: &str, path: &str, default: u32) -> (r: Result<
    u32,
    ManifestError,
>)
    ensures
        match r {
            Ok(n) => spec_opt_u32_ok(t@, key@) && n == spec_opt_u32_val(t@, key@, default),
            Err(e) => !spec_opt_u32_ok(t@, key@) && e@ == ErrorKind::TomlParse(
                spec_wrong_type(path@),
            ),
        },
{
    match lookup(t, key) {
        None => Ok(default),
        Some(v) => match v {
            DocValue::Int(i) => {
                if 0 <= *i && *i <= u32::MAX as i64 {
                    Ok(*i as u32)
                } else {
                    Err(ManifestError::wrong_type(path))
                }
            },
            _ => Err(ManifestError::wrong_type(path)),
        },
    }
}

/// Read an optional array-of-strings field, empty when absent.
pub(crate) fn opt_str_arr(t: &Vec<(String, DocValue)>, key: &str, path: &str) -> (r: Result<
    Vec<String>,
    ManifestError,
>)
    ensures
        match r {
            Ok(v) => spec_opt_str_arr_ok(t@, key@) && v.deep_view() == spec_opt_str_arr_val(
                t@,
                key@,
            ),
            Err(e) => !spec_opt_str_arr_ok(t@, key@) && e@ == ErrorKind::TomlParse(
                spec_wrong_type(path@),
            ),
        },
{
    match lookup(t, key) {
        None => {
            let r: Vec<String> = Vec::new();
            proof {
                assert(r.deep_view() =~= spec_opt_str_arr_val(t@, key@));
            }
            Ok(r)
        },
        Some(v) => match v {
            DocValue::Arr(items) => {
                let mut out: Vec<String> = Vec::new();
                let mut i: usize = 0;
                while i < items.len()
                    invariant
                        0 <= i <= items@.len(),
                        out@.len() == i,
                        spec_lookup(t@, key@) == Some(DocValue::Arr(*items)),
                        forall|j: int| 0 <= j < i ==> (#[trigger] items@[j]) is Str,
                        forall|j: int|
                            0 <= j < i ==> (#[trigger] out@[j])@ == spec_str_seq(items@)[j],
                    decreases items@.len() - i,
                {
                    match &items[i] {
                        DocValue::Str(s) => {
                            out.push(s.clone());
                        },
                        _ => {
                            proof {
                                assert(!spec_all_str(items@)) by {
                                    assert(!((items@[i as int]) is Str));
                                }
                            }
                            return Err(ManifestError::wrong_type(path));
                        },
                    }
                    i = i + 1;
                }
                proof {
                    assert(out.deep_view() =~= spec_str_seq(items@));
                }
                Ok(out)
            },
            _ => Err(ManifestError::wrong_type(path)),
        },
    }
}

/// Read an optional table-of-strings field, empty when absent.
pub(crate) fn opt_str_table(t: &Vec<(String, DocValue)>, key: &str, path: &str) -> (r: Result<
    Vec<(String, String)>,
    ManifestError,
>)
    ensures
        match r {
            Ok(v) => spec_opt_str_table_ok(t@, key@) && v.deep_view() == spec_opt_str_table_val(
                t@,
                key@,
            ),
            Err(e) => !spec_opt_str_table_ok(t@, key@) && e@ == ErrorKind::TomlParse(
                spec_wrong_type(path@),
            ),
        },
{
    match lookup(t, key) {
        None => {
            let r: Vec<(String, String)> = Vec::new();
            proof {
                assert(r.deep_view() =~= spec_opt_str_table_val(t@, key@));
            }
            Ok(r)
        },
        Some(v) => match v {
            DocValue::Table(entries) => {
                let mut out: Vec<(String, String)> = Vec::new();
                let mut i: usize = 0;
                while i < entries.len()
                    invariant
                        0 <= i <= entries@.len(),
                        out@.len() == i,
                        spec_lookup(t@, key@) == Some(DocValue::Table(*entries)),
                        forall|j: int| 0 <= j < i ==> (#[trigger] entries@[j]).1 is Str,
                        forall|j: int|
                            0 <= j < i ==> (#[trigger] out@[j]).0@ == spec_str_pairs(entries@)[j].0
                                && out@[j].1@ == spec_str_pairs(entries@)[j].1,
                    decreases entries@.len() - i,
                {
                    match &entries[i].1 {
                        DocValue::Str(s) => {
                            out.push((entries[i].0.clone(), s.clone()));
                        },
                        _ => {
                            proof {
                                assert(!spec_all_str_pairs(entries@)) by {
                                    assert(!((entries@[i as int]).1 is Str));
                                }
                            }
                            return Err(ManifestError::wrong_type(path));
                        },
                    }
                    i = i + 1;
                }
                proof {
                    assert(out.deep_view() =~= spec_str_pairs(entries@));
                }
                Ok(out)
            },
            _ => Err(ManifestError::wrong_type(path)),
        },
    }
}

/// Deep-copy a value; the copy is structurally equivalent to the original.
pub(crate) fn clone_value(v: &DocValue) -> (r: DocValue)
    ensures
        value_like(*v, r),
    decreases *v,
{
    match v {
        DocValue::Str(s) => DocValue::Str(s.clone()),
        DocValue::Int(i) => DocValue::Int(*i),
        DocValue::Bool(b) => DocValue::Bool(*b),
        DocValue::Arr(items) => {
            let mut out: Vec<DocValue> = Vec::new();
            let mut i: usize = 0;
            while i < items.len()
                invariant
                    0 <= i <= items@.len(),
                    out@.len() == i,
                    *v is Arr && v->Arr_0 == *items,
                    forall|j: int| 0 <= j < i ==> value_like(#[trigger] items@[j], out@[j]),
                decreases items@.len() - i,
            {
                proof {
                    assert(decreases_to!(*v => *items));
                    assert(decreases_to!(*items => items@[i as int]));
                }
                let c = clone_value(&items[i]);
                out.push(c);
                i = i + 1;
            }
            let r = DocValue::Arr(out);
            proof {
                assert(value_like(*v, r));
            }
            r
        },
        DocValue::Table(entries) => {
            let mut out: Vec<(String, DocValue)> = Vec::new();
            let mut i: usize = 0;
            while i < entries.len()
                invariant
                    0 <= i <= entries@.len(),
                    out@.len() == i,
                    *v is Table && v->Table_0 == *entries,
                    forall|j: int|
                        0 <= j < i ==> (#[trigger] out@[j]).0@ == entries@[j].0@ && value_like(
                            entries@[j].1,
                            out@[j].1,
                        ),
                decreases entries@.len() - i,
            {
                proof {
                    assert(decreases_to!(*v => *entries));
                    assert(decreases_to!(*entries => entries@[i as int]));
                    assert(decreases_to!(entries@[i as int] => entries@[i as int].1));
                }
                let k = entries[i].0.clone();
                let c = clone_value(&entries[i].1);
                out.push((k, c));
                i = i + 1;
            }
            let r = DocValue::Table(out);
            proof {
                assert(pairs_like(entries@, r->Table_0@));
                assert(value_like(*v, r));
            }
            r
        },
    }
}

/// Deep-copy a key/value pair list, as a table's contents.
pub(crate) fn clone_pairs(entries: &Vec<(String, DocValue)>) -> (r: Vec<(String, DocValue)>)
    ensures
        pairs_like(entries@, r@),
{
    let mut out: Vec<(String, DocValue)> = Vec::new();
    let mut i: usize = 0;
    while i < entries.len()
        invariant
            0 <= i <= entries@.len(),
            out@.len() == i,
            forall|j: int|
                0 <= j < i ==> (#[trigger] out@[j]).0@ == entries@[j].0@ && value_like(
                    entries@[j].1,
                    out@[j].1,
                ),
        decreases entries@.len() - i,
    {
        let k = entries[i].0.clone();
        let c = clone_value(&entries[i].1);
        out.push((k, c));
        i = i + 1;
    }
    out
}

// ---------------------------------------------------------------------------
// Trusted boundary to the `toml` crate
// ---------------------------------------------------------------------------

#[verifier::external_type_specification]
#[verifier::external_body]
pub struct ExTomlValue(toml::Value);

/// Relies on the shape of `toml::Value`: each variant of the parsed tree is
/// carried over one for one. Floats and datetimes, which the manifest schema
/// gives no meaning, are rendered through their text form.
#[verifier::external_body]
fn from_toml_value(v: toml::Value) -> DocValue {
    match v {
        toml::Value::String(s) => DocValue::Str(s),
        toml::Value::Integer(i) => DocValue::Int(i),
        toml::Value::Float(x) => DocValue::Str(x.to_string()),
        toml::Value::Boolean(b) => DocValue::Bool(b),
        toml::Value::Datetime(d) => DocValue::Str(d.to_string()),
        toml::Value::Array(a) => DocValue::Arr(a.into_iter().map(from_toml_value).collect()),
        toml::Value::Table(t) => DocValue::Table(
            t.into_iter().map(|(k, x)| (k, from_toml_value(x))).collect(),
        ),
    }
}

/// Relies on the shape of `toml::Value`: the inverse carrying of
/// [`from_toml_value`], one variant for one.
#[verifier::external_body]
fn to_toml_value(v: &DocValue) -> toml::Value {
    match v {
        DocValue::Str(s) => toml::Value::String(s.clone()),
        DocValue::Int(i) => toml::Value::Integer(*i),
        DocValue::Bool(b) => toml::Value::Boolean(*b),
        DocValue::Arr(a) => toml::Value::Array(a.iter().map(to_toml_value).collect()),
        DocValue::Table(t) => toml::Value::Table(
            t.iter().map(|(k, x)| (k.clone(), to_toml_value(x))).collect(),
        ),
    }
}

/// What `toml::from_str` yields on a given text: the document's value tree,
/// or the syntax error's message.
pub uninterp spec fn toml_doc_of(s: Seq<char>) -> Result<DocValue, Seq<char>>;

/// Relies on `toml::from_str`: parses TOML text into a value tree, or reports
/// the syntax error's message. The result depends on the text alone.
#[verifier::external_body]
pub(crate) fn parse_toml_text(s: &str) -> (r: Result<DocValue, String>)
    ensures
        match toml_doc_of(s@) {
            Ok(v) => r matches Ok(rv) && rv == v,
            Err(m) => r matches Err(e) && e@ == m,
        },
{
    match toml::from_str::<toml::Value>(s) {
        Ok(v) => Ok(from_toml_value(v)),
        Err(e) => Err(e.to_string()),
    }
}

/// What `toml::to_string` yields on a given value tree: the rendered TOML
/// text, or the serializer error's message.
pub uninterp spec fn toml_text_of(v: DocValue) -> Result<Seq<char>, Seq<char>>;

/// Relies on `toml::to_string`: renders a value tree as TOML text, or reports
/// the serializer error's message. The result depends on the value alone.
#[verifier::external_body]
pub(crate) fn render_toml_text(v: &DocValue) -> (r: Result<String, String>)
    ensures
        match toml_text_of(*v) {
            Ok(t) => r matches Ok(rt) && rt@ == t,
            Err(m) => r matches Err(e) && e@ == m,
        },
{
    match toml::to_string(&to_toml_value(v)) {
        Ok(s) => Ok(s),
        Err(e) => Err(e.to_string()),
    }
}

/// Parse TOML text into a document tree; ill-formed text yields the syntax
/// error.
pub fn parse_document(text: &str) -> (r: Result<DocValue, ManifestError>)
    ensures
        match toml_doc_of(text@) {
            Ok(v) => r matches Ok(rv) && rv == v,
            Err(m) => r matches Err(e) && e@ == ErrorKind::TomlParse(m),
        },
{
    match parse_toml_text(text) {
        Ok(v) => Ok(v),
        Err(m) => Err(ManifestError::TomlParse(m)),
    }
}

} // verus!
