//! The value-extraction layer: typed conversions out of the dynamic document
//! tree. Every conversion either yields the requested shape or a diagnostic
//! naming the exact key chain and the expected shape.

use vstd::prelude::*;

use crate::doc::{DocEntry, DocValue, Document, spec_lookup};
use crate::errors::{BuildError, BuildErrorV, Expected, KeyPath, KeyPathV};

verus! {

/// The key chain of a top-level key.
pub open spec fn top_path(key: Seq<char>) -> KeyPathV {
    KeyPathV { key, index: None, sub: None }
}

/// The key chain of element `i` of the list at a top-level key.
pub open spec fn elem_path(key: Seq<char>, i: int) -> KeyPathV {
    KeyPathV { key, index: Some(i), sub: None }
}

/// The key chain of field `sub` of element `i` of the list at a top-level key.
pub open spec fn field_path(key: Seq<char>, i: int, sub: Seq<char>) -> KeyPathV {
    KeyPathV { key, index: Some(i), sub: Some(sub) }
}

/// What string conversion yields on the node at key chain `p`.
pub open spec fn spec_string_at(v: DocValue, p: KeyPathV) -> Result<String, BuildErrorV> {
    match v {
        DocValue::Str(s) => Ok(s),
        _ => Err(BuildErrorV::TypeMismatch(p, Expected::Text)),
    }
}

/// What path conversion yields on the node at key chain `p`: a path is a
/// string, and the empty string is rejected as unparsable path syntax.
pub open spec fn spec_path_at(v: DocValue, p: KeyPathV) -> Result<String, BuildErrorV> {
    match v {
        DocValue::Str(s) => if s@.len() == 0 {
            Err(BuildErrorV::TypeMismatch(p, Expected::PathText))
        } else {
            Ok(s)
        },
        _ => Err(BuildErrorV::TypeMismatch(p, Expected::PathText)),
    }
}

/// What extracting the string at top-level `key` yields.
pub open spec fn spec_string_field(entries: Seq<DocEntry>, key: Seq<char>) -> Result<
    String,
    BuildErrorV,
> {
    match spec_lookup(entries, key) {
        None => Err(BuildErrorV::MissingKey(top_path(key))),
        Some(v) => spec_string_at(v, top_path(key)),
    }
}

/// What extracting the path at top-level `key` yields.
pub open spec fn spec_path_field(entries: Seq<DocEntry>, key: Seq<char>) -> Result<
    String,
    BuildErrorV,
> {
    match spec_lookup(entries, key) {
        None => Err(BuildErrorV::MissingKey(top_path(key))),
        Some(v) => spec_path_at(v, top_path(key)),
    }
}

/// What extracting the string field `sub` of record `i` under `key` yields.
pub open spec fn spec_record_string(
    fields: Seq<DocEntry>,
    key: Seq<char>,
    i: int,
    sub: Seq<char>,
) -> Result<String, BuildErrorV> {
    match spec_lookup(fields, sub) {
        None => Err(BuildErrorV::MissingKey(field_path(key, i, sub))),
        Some(v) => spec_string_at(v, field_path(key, i, sub)),
    }
}

/// What extracting the path field `sub` of record `i` under `key` yields.
pub open spec fn spec_record_path(
    fields: Seq<DocEntry>,
    key: Seq<char>,
    i: int,
    sub: Seq<char>,
) -> Result<String, BuildErrorV> {
    match spec_lookup(fields, sub) {
        None => Err(BuildErrorV::MissingKey(field_path(key, i, sub))),
        Some(v) => spec_path_at(v, field_path(key, i, sub)),
    }
}

/// A key chain for a top-level key.
pub fn top_key(key: &String) -> (p: KeyPath)
    ensures
        p@ == top_path(key@),
{
    KeyPath { key: key.clone(), index: None, sub: None }
}

/// A key chain for an element of a top-level list.
pub fn elem_key(key: &String, i: usize) -> (p: KeyPath)
    ensures
        p@ == elem_path(key@, i as int),
{
    KeyPath { key: key.clone(), index: Some(i), sub: None }
}

/// A key chain for a field of an element of a top-level list.
pub fn field_key(key: &String, i: usize, sub: &String) -> (p: KeyPath)
    ensures
        p@ == field_path(key@, i as int, sub@),
{
    KeyPath { key: key.clone(), index: Some(i), sub: Some(sub.clone()) }
}

/// Extract the string bound to top-level `key`.
pub fn string_field(doc: &Document, key: &String) -> (r: Result<String, BuildError>)
    ensures
        match r {
            Ok(s) => spec_string_field(doc.entries@, key@) == Ok::<String, BuildErrorV>(s),
            Err(e) => spec_string_field(doc.entries@, key@) == Err::<String, BuildErrorV>(e@),
        },
{
    match doc.lookup(key) {
        None => Err(BuildError::MissingKey(top_key(key))),
        Some(DocValue::Str(s)) => Ok(s.clone()),
        Some(_) => Err(BuildError::TypeMismatch(top_key(key), Expected::Text)),
    }
}

/// Extract the path bound to top-level `key`; the empty string is rejected.
pub fn path_field(doc: &Document, key: &String) -> (r: Result<String, BuildError>)
    ensures
        match r {
            Ok(s) => spec_path_field(doc.entries@, key@) == Ok::<String, BuildErrorV>(s),
            Err(e) => spec_path_field(doc.entries@, key@) == Err::<String, BuildErrorV>(e@),
        },
{
    match doc.lookup(key) {
        None => Err(BuildError::MissingKey(top_key(key))),
        Some(DocValue::Str(s)) => if s.as_str().is_empty() {
            Err(BuildError::TypeMismatch(top_key(key), Expected::PathText))
        } else {
            Ok(s.clone())
        },
        Some(_) => Err(BuildError::TypeMismatch(top_key(key), Expected::PathText)),
    }
}

/// Extract the string field `sub` of record `i` under the list at `key`.
pub fn record_string(fields: &Vec<DocEntry>, key: &String, i: usize, sub: &String) -> (r: Result<
    String,
    BuildError,
>)
    ensures
        match r {
            Ok(s) => spec_record_string(fields@, key@, i as int, sub@) == Ok::<
                String,
                BuildErrorV,
            >(s),
            Err(e) => spec_record_string(fields@, key@, i as int, sub@) == Err::<
                String,
                BuildErrorV,
            >(e@),
        },
{
    match crate::doc::lookup_in(fields, sub) {
        None => Err(BuildError::MissingKey(field_key(key, i, sub))),
        Some(DocValue::Str(s)) => Ok(s.clone()),
        Some(_) => Err(BuildError::TypeMismatch(field_key(key, i, sub), Expected::Text)),
    }
}

/// Extract the path field `sub` of record `i` under the list at `key`.
pub fn record_path(fields: &Vec<DocEntry>, key: &String, i: usize, sub: &String) -> (r: Result<
    String,
    BuildError,
>)
    ensures
        match r {
            Ok(s) => spec_record_path(fields@, key@, i as int, sub@) == Ok::<String, BuildErrorV>(
                s,
            ),
            Err(e) => spec_record_path(fields@, key@, i as int, sub@) == Err::<
                String,
                BuildErrorV,
            >(e@),
        },
{
    match crate::doc::lookup_in(fields, sub) {
        None => Err(BuildError::MissingKey(field_key(key, i, sub))),
        Some(DocValue::Str(s)) => if s.as_str().is_empty() {
            Err(BuildError::TypeMismatch(field_key(key, i, sub), Expected::PathText))
        } else {
            Ok(s.clone())
        },
        Some(_) => Err(BuildError::TypeMismatch(field_key(key, i, sub), Expected::PathText)),
    }
}

} // verus!
