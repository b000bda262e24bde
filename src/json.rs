//! A JSON value model, and reading typed fields out of an object.

use vstd::prelude::*;
use crate::ident::{Uuid, uuid_of, uuid_text};
use crate::numeric::{Decimal, is_decimal_text, parse_usize, usize_of, usize_text_of};

verus! {

/// A JSON value. Numbers keep their literal text.
#[derive(Debug)]
pub enum Json {
    Null,
    Bool(bool),
    Number(String),
    Str(String),
    Array(Vec<Json>),
    Object(Vec<(String, Json)>),
}

/// Why a record could not be decoded.
#[derive(Clone, Copy, Debug, PartialEq, Eq, Structural)]
pub enum ErrorKind {
    MissingField,
    MalformedNumber,
    MalformedInteger,
    MalformedIdentifier,
    UnknownVariant,
    TypeMismatch,
}

/// A decode failure: its kind and the name of the field that failed.
#[derive(Debug)]
pub struct DecodeError {
    pub kind: ErrorKind,
    pub field: String,
}

/// The spec-level outcome of decoding a field of a record.
pub type Decoded<T> = Result<T, (ErrorKind, Seq<char>)>;

/// An executable decode result agrees with its spec-level outcome.
pub open spec fn agrees<T: View>(r: Result<T, DecodeError>, d: Decoded<T::V>) -> bool {
    match r {
        Ok(v) => d == Ok::<T::V, (ErrorKind, Seq<char>)>(v@),
        Err(e) => d == Err::<T::V, (ErrorKind, Seq<char>)>((e.kind, e.field@)),
    }
}

/// `i` is the first position of `key` among the object's fields.
pub open spec fn first_key(fields: Seq<(String, Json)>, key: Seq<char>, i: int) -> bool {
    0 <= i < fields.len() && fields[i].0@ == key && forall|j: int|
        0 <= j < i ==> (#[trigger] fields[j]).0@ != key
}

/// The value under `key` in an object's fields: the first one, if any.
pub open spec fn lookup(fields: Seq<(String, Json)>, key: Seq<char>) -> Option<Json> {
    if exists|i: int| first_key(fields, key, i) {
        Some(fields[choose|i: int| first_key(fields, key, i)].1)
    } else {
        None
    }
}

pub fn get<'a>(fields: &'a Vec<(String, Json)>, key: &str) -> (r: Option<&'a Json>)
    ensures
        r matches Some(v) ==> lookup(fields@, key@) == Some(*v),
        r is None ==> lookup(fields@, key@) is None,
{
    let k = key.to_owned();
    let mut i: usize = 0;
    while i < fields.len()
        invariant
            k@ == key@,
            i <= fields@.len(),
            forall|j: int| 0 <= j < i ==> (#[trigger] fields@[j]).0@ != key@,
        decreases fields.len() - i,
    {
        if fields[i].0 == k {
            proof {
                assert(first_key(fields@, key@, i as int));
                let c = choose|c: int| first_key(fields@, key@, c);
                assert(c == i) by {
                    if c < i {
                        assert(fields@[c].0@ != key@);
                    } else if c > i {
                        assert(fields@[i as int].0@ != key@);
                    }
                }
            }
            return Some(&fields[i].1);
        }
        i = i + 1;
    }
    None
}

pub open spec fn text_at(fields: Seq<(String, Json)>, key: Seq<char>) -> Result<Seq<char>, ErrorKind> {
    match lookup(fields, key) {
        None => Err(ErrorKind::MissingField),
        Some(Json::Str(s)) => Ok(s@),
        Some(_) => Err(ErrorKind::TypeMismatch),
    }
}

pub fn read_text(fields: &Vec<(String, Json)>, key: &str) -> (r: Result<String, ErrorKind>)
    ensures
        r matches Ok(s) ==> text_at(fields@, key@) == Ok::<Seq<char>, ErrorKind>(s@),
        r matches Err(e) ==> text_at(fields@, key@) == Err::<Seq<char>, ErrorKind>(e),
{
    match get(fields, key) {
        None => Err(ErrorKind::MissingField),
        Some(Json::Str(s)) => Ok(s.clone()),
        Some(_) => Err(ErrorKind::TypeMismatch),
    }
}

/// A decimal carried as a JSON string.
pub open spec fn decimal_at(fields: Seq<(String, Json)>, key: Seq<char>) -> Result<Seq<char>, ErrorKind> {
    match lookup(fields, key) {
        None => Err(ErrorKind::MissingField),
        Some(Json::Str(s)) => if is_decimal_text(s@) {
            Ok(s@)
        } else {
            Err(ErrorKind::MalformedNumber)
        },
        Some(_) => Err(ErrorKind::TypeMismatch),
    }
}

pub fn read_decimal(fields: &Vec<(String, Json)>, key: &str) -> (r: Result<Decimal, ErrorKind>)
    ensures
        r matches Ok(d) ==> decimal_at(fields@, key@) == Ok::<Seq<char>, ErrorKind>(d@) && d.wf(),
        r matches Err(e) ==> decimal_at(fields@, key@) == Err::<Seq<char>, ErrorKind>(e),
{
    match get(fields, key) {
        None => Err(ErrorKind::MissingField),
        Some(Json::Str(s)) => match Decimal::parse(s.as_str()) {
            Some(d) => Ok(d),
            None => Err(ErrorKind::MalformedNumber),
        },
        Some(_) => Err(ErrorKind::TypeMismatch),
    }
}

/// A decimal carried as a JSON string that may also be absent or null.
pub open spec fn optional_decimal_at(fields: Seq<(String, Json)>, key: Seq<char>) -> Result<Option<Seq<char>>, ErrorKind> {
    match lookup(fields, key) {
        None => Ok(None),
        Some(Json::Null) => Ok(None),
        Some(Json::Str(s)) => if is_decimal_text(s@) {
            Ok(Some(s@))
        } else {
            Err(ErrorKind::MalformedNumber)
        },
        Some(_) => Err(ErrorKind::TypeMismatch),
    }
}

pub fn read_optional_decimal(fields: &Vec<(String, Json)>, key: &str) -> (r: Result<Option<Decimal>, ErrorKind>)
    ensures
        r matches Ok(Some(d)) ==> optional_decimal_at(fields@, key@) == Ok::<Option<Seq<char>>, ErrorKind>(Some(d@)) && d.wf(),
        r matches Ok(None) ==> optional_decimal_at(fields@, key@) == Ok::<Option<Seq<char>>, ErrorKind>(None),
        r matches Err(e) ==> optional_decimal_at(fields@, key@) == Err::<Option<Seq<char>>, ErrorKind>(e),
{
    match get(fields, key) {
        None => Ok(None),
        Some(Json::Null) => Ok(None),
        Some(Json::Str(s)) => match Decimal::parse(s.as_str()) {
            Some(d) => Ok(Some(d)),
            None => Err(ErrorKind::MalformedNumber),
        },
        Some(_) => Err(ErrorKind::TypeMismatch),
    }
}

/// A decimal carried as a JSON number.
pub open spec fn number_at(fields: Seq<(String, Json)>, key: Seq<char>) -> Result<Seq<char>, ErrorKind> {
    match lookup(fields, key) {
        None => Err(ErrorKind::MissingField),
        Some(Json::Number(s)) => if is_decimal_text(s@) {
            Ok(s@)
        } else {
            Err(ErrorKind::MalformedNumber)
        },
        Some(_) => Err(ErrorKind::TypeMismatch),
    }
}

pub fn read_number(fields: &Vec<(String, Json)>, key: &str) -> (r: Result<Decimal, ErrorKind>)
    ensures
        r matches Ok(d) ==> number_at(fields@, key@) == Ok::<Seq<char>, ErrorKind>(d@) && d.wf(),
        r matches Err(e) ==> number_at(fields@, key@) == Err::<Seq<char>, ErrorKind>(e),
{
    match get(fields, key) {
        None => Err(ErrorKind::MissingField),
        Some(Json::Number(s)) => match Decimal::parse(s.as_str()) {
            Some(d) => Ok(d),
            None => Err(ErrorKind::MalformedNumber),
        },
        Some(_) => Err(ErrorKind::TypeMismatch),
    }
}

/// An unsigned integer carried as a JSON number (`as_number`) or as a
/// string of digits.
pub open spec fn usize_at(fields: Seq<(String, Json)>, key: Seq<char>, as_number: bool) -> Result<usize, ErrorKind> {
    match lookup(fields, key) {
        None => Err(ErrorKind::MissingField),
        Some(Json::Number(s)) if as_number => match usize_of(s@) {
            Some(n) => Ok(n),
            None => Err(ErrorKind::MalformedInteger),
        },
        Some(Json::Str(s)) if !as_number => match usize_of(s@) {
            Some(n) => Ok(n),
            None => Err(ErrorKind::MalformedInteger),
        },
        Some(_) => Err(ErrorKind::TypeMismatch),
    }
}

pub fn read_usize(fields: &Vec<(String, Json)>, key: &str, as_number: bool) -> (r: Result<usize, ErrorKind>)
    ensures
        r == usize_at(fields@, key@, as_number),
{
    match get(fields, key) {
        None => Err(ErrorKind::MissingField),
        Some(Json::Number(s)) if as_number => match parse_usize(s.as_str()) {
            Some(n) => Ok(n),
            None => Err(ErrorKind::MalformedInteger),
        },
        Some(Json::Str(s)) if !as_number => match parse_usize(s.as_str()) {
            Some(n) => Ok(n),
            None => Err(ErrorKind::MalformedInteger),
        },
        Some(_) => Err(ErrorKind::TypeMismatch),
    }
}

pub open spec fn uuid_at(fields: Seq<(String, Json)>, key: Seq<char>) -> Result<Uuid, ErrorKind> {
    match lookup(fields, key) {
        None => Err(ErrorKind::MissingField),
        Some(Json::Str(s)) => match uuid_of(s@) {
            Some(v) => Ok(Uuid { value: v }),
            None => Err(ErrorKind::MalformedIdentifier),
        },
        Some(_) => Err(ErrorKind::TypeMismatch),
    }
}

pub fn read_uuid(fields: &Vec<(String, Json)>, key: &str) -> (r: Result<Uuid, ErrorKind>)
    ensures
        r == uuid_at(fields@, key@),
{
    match get(fields, key) {
        None => Err(ErrorKind::MissingField),
        Some(Json::Str(s)) => match Uuid::parse(s.as_str()) {
            Some(u) => Ok(u),
            None => Err(ErrorKind::MalformedIdentifier),
        },
        Some(_) => Err(ErrorKind::TypeMismatch),
    }
}

pub open spec fn bool_at(fields: Seq<(String, Json)>, key: Seq<char>) -> Result<bool, ErrorKind> {
    match lookup(fields, key) {
        None => Err(ErrorKind::MissingField),
        Some(Json::Bool(b)) => Ok(b),
        Some(_) => Err(ErrorKind::TypeMismatch),
    }
}

pub fn read_bool(fields: &Vec<(String, Json)>, key: &str) -> (r: Result<bool, ErrorKind>)
    ensures
        r == bool_at(fields@, key@),
{
    match get(fields, key) {
        None => Err(ErrorKind::MissingField),
        Some(Json::Bool(b)) => Ok(*b),
        Some(_) => Err(ErrorKind::TypeMismatch),
    }
}

/// A nested object's fields.
pub open spec fn object_at(fields: Seq<(String, Json)>, key: Seq<char>) -> Result<Seq<(String, Json)>, ErrorKind> {
    match lookup(fields, key) {
        None => Err(ErrorKind::MissingField),
        Some(Json::Object(o)) => Ok(o@),
        Some(_) => Err(ErrorKind::TypeMismatch),
    }
}

pub fn read_object<'a>(fields: &'a Vec<(String, Json)>, key: &str) -> (r: Result<&'a Vec<(String, Json)>, ErrorKind>)
    ensures
        r matches Ok(o) ==> object_at(fields@, key@) == Ok::<Seq<(String, Json)>, ErrorKind>(o@),
        r matches Err(e) ==> object_at(fields@, key@) == Err::<Seq<(String, Json)>, ErrorKind>(e),
{
    match get(fields, key) {
        None => Err(ErrorKind::MissingField),
        Some(Json::Object(o)) => Ok(o),
        Some(_) => Err(ErrorKind::TypeMismatch),
    }
}

proof fn lemma_first_key_unique(fields: Seq<(String, Json)>, key: Seq<char>, i: int, j: int)
    requires
        first_key(fields, key, i),
        first_key(fields, key, j),
    ensures
        i == j,
{
    if i < j {
        assert(fields[i].0@ != key);
    } else if j < i {
        assert(fields[j].0@ != key);
    }
}

proof fn lemma_first_key_exists(fields: Seq<(String, Json)>, key: Seq<char>, j: int)
    requires
        0 <= j < fields.len(),
        fields[j].0@ == key,
    ensures
        exists|i: int| first_key(fields, key, i),
    decreases j,
{
    if exists|m: int| 0 <= m < j && (#[trigger] fields[m]).0@ == key {
        let m = choose|m: int| 0 <= m < j && (#[trigger] fields[m]).0@ == key;
        lemma_first_key_exists(fields, key, m);
    } else {
        assert(first_key(fields, key, j));
    }
}

/// Adding a field after the others leaves earlier keys as they were.
pub proof fn lemma_lookup_push(fields: Seq<(String, Json)>, k: String, v: Json, key: Seq<char>)
    ensures
        lookup(fields.push((k, v)), key) == (if lookup(fields, key) is Some {
            lookup(fields, key)
        } else if k@ == key {
            Some(v)
        } else {
            None
        }),
{
    let g = fields.push((k, v));
    if exists|i: int| first_key(fields, key, i) {
        let i = choose|i: int| first_key(fields, key, i);
        assert(first_key(g, key, i));
        let c = choose|c: int| first_key(g, key, c);
        lemma_first_key_unique(g, key, i, c);
    } else if k@ == key {
        let n = fields.len() as int;
        assert forall|j: int| 0 <= j < n implies (#[trigger] g[j]).0@ != key by {
            if g[j].0@ == key {
                assert(fields[j] == g[j]);
                lemma_first_key_exists(fields, key, j);
            }
        }
        assert(first_key(g, key, n));
        let c = choose|c: int| first_key(g, key, c);
        lemma_first_key_unique(g, key, n, c);
    } else {
        if exists|c: int| first_key(g, key, c) {
            let c = choose|c: int| first_key(g, key, c);
            assert(c < fields.len());
            assert(g[c] == fields[c]);
            assert forall|m: int| 0 <= m < c implies (#[trigger] fields[m]).0@ != key by {
                assert(g[m] == fields[m]);
            }
            assert(first_key(fields, key, c));
        }
    }
}

/// Appends a field to an object's fields.
pub fn push_field(fields: &mut Vec<(String, Json)>, key: &str, v: Json)
    ensures
        forall|q: Seq<char>|
            #[trigger] lookup(final(fields)@, q) == (if lookup(old(fields)@, q) is Some {
                lookup(old(fields)@, q)
            } else if q == key@ {
                Some(v)
            } else {
                None
            }),
{
    let k = key.to_owned();
    proof {
        assert forall|q: Seq<char>|
            #[trigger] lookup(old(fields)@.push((k, v)), q) == (if lookup(old(fields)@, q) is Some {
                lookup(old(fields)@, q)
            } else if q == key@ {
                Some(v)
            } else {
                None
            }) by {
            lemma_lookup_push(old(fields)@, k, v, q);
        }
    }
    fields.push((k, v));
}

pub open spec fn has_text(fields: Seq<(String, Json)>, key: Seq<char>, t: Seq<char>) -> bool {
    lookup(fields, key) matches Some(Json::Str(s)) && s@ == t
}

pub open spec fn has_number(fields: Seq<(String, Json)>, key: Seq<char>, t: Seq<char>) -> bool {
    lookup(fields, key) matches Some(Json::Number(s)) && s@ == t
}

pub open spec fn has_bool(fields: Seq<(String, Json)>, key: Seq<char>, b: bool) -> bool {
    lookup(fields, key) == Some(Json::Bool(b))
}

/// The field holds the UUID's text.
pub open spec fn has_uuid(fields: Seq<(String, Json)>, key: Seq<char>, u: Uuid) -> bool {
    lookup(fields, key) matches Some(Json::Str(s)) && s@ == uuid_text(u.value) && uuid_of(s@) == Some(
        u.value,
    )
}

/// The field holds an unsigned integer's digits, as a JSON number
/// (`as_number`) or as a string.
pub open spec fn has_usize(fields: Seq<(String, Json)>, key: Seq<char>, n: usize, as_number: bool) -> bool {
    if as_number {
        lookup(fields, key) matches Some(Json::Number(s)) && usize_text_of(s@, n)
    } else {
        lookup(fields, key) matches Some(Json::Str(s)) && usize_text_of(s@, n)
    }
}

/// Whether two strings hold the same characters.
pub fn same_text(a: &str, b: &str) -> (r: bool)
    ensures
        r == (a@ == b@),
{
    a.to_owned() == b.to_owned()
}

/// Names a field's failure in an executable result.
pub fn fail_at<T>(kind: ErrorKind, key: &str) -> (r: Result<T, DecodeError>)
    ensures
        r matches Err(e) && e.kind == kind && e.field@ == key@,
{
    Err(DecodeError { kind, field: key.to_owned() })
}

} // verus!
