//! Reading values out of JSON documents: what it means for a document to
//! hold a value of some type, and the building blocks that read one.

use crate::json::Json;
use vstd::prelude::*;

verus! {

/// A document that does not have the shape of the value to be read from it.
#[derive(Debug, Clone, Copy, PartialEq, Eq, Structural)]
pub struct DeserializationError;

/// A type whose values can be read from a JSON document.
pub trait Decode: Sized {
    /// Whether `document` has the shape of a value of this type.
    spec fn decodable(document: Json) -> bool;

    /// Whether `value` is what `document` holds.
    spec fn decodes(document: Json, value: Self) -> bool;

    /// Reads the value that `document` holds.
    fn decode(document: &Json) -> (read: Result<Self, DeserializationError>)
        ensures
            read is Ok <==> Self::decodable(*document),
            read matches Ok(value) ==> Self::decodes(*document, value),
    ;
}

impl Decode for String {
    open spec fn decodable(document: Json) -> bool {
        document is String
    }

    open spec fn decodes(document: Json, value: Self) -> bool {
        document matches Json::String(text) && text@ == value@
    }

    fn decode(document: &Json) -> (read: Result<Self, DeserializationError>) {
        match document {
            Json::String(text) => Ok(text.clone()),
            _ => Err(DeserializationError),
        }
    }
}

impl<T: Decode> Decode for Vec<T> {
    open spec fn decodable(document: Json) -> bool {
        document matches Json::Array(items) && forall|i: int|
            0 <= i < items.len() ==> T::decodable(#[trigger] items[i])
    }

    open spec fn decodes(document: Json, value: Self) -> bool {
        document matches Json::Array(items) && items.len() == value.len() && forall|i: int|
            0 <= i < items.len() ==> T::decodes(#[trigger] items[i], value[i])
    }

    fn decode(document: &Json) -> (read: Result<Self, DeserializationError>) {
        match document {
            Json::Array(items) => decode_items(items),
            _ => Err(DeserializationError),
        }
    }
}

/// Reads every document of a list, in order; fails where one of them fails.
fn decode_items<T: Decode>(items: &Vec<Json>) -> (read: Result<Vec<T>, DeserializationError>)
    ensures
        read is Ok <==> forall|i: int| 0 <= i < items.len() ==> T::decodable(#[trigger] items[i]),
        read matches Ok(values) ==> values.len() == items.len() && forall|i: int|
            0 <= i < items.len() ==> T::decodes(#[trigger] items[i], values[i]),
{
    let mut values: Vec<T> = Vec::new();
    let mut i: usize = 0;
    while i < items.len()
        invariant
            i <= items.len(),
            values.len() == i,
            forall|k: int| 0 <= k < i ==> T::decodable(#[trigger] items[k]),
            forall|k: int| 0 <= k < i ==> T::decodes(#[trigger] items[k], values[k]),
        decreases items.len() - i,
    {
        match T::decode(&items[i]) {
            Ok(value) => values.push(value),
            Err(error) => return Err(error),
        }
        i += 1;
    }
    Ok(values)
}

/// Whether the member `key` of `document` is there and has the shape of a `T`.
pub open spec fn required_ok<T: Decode>(document: Json, key: Seq<char>) -> bool {
    document.member(key) matches Some(member) && T::decodable(member)
}

/// Whether `value` is what the member `key` of `document` holds.
pub open spec fn required_is<T: Decode>(document: Json, key: Seq<char>, value: T) -> bool {
    document.member(key) matches Some(member) && T::decodes(member, value)
}

/// Whether the member `key` of `document` is missing, `null`, or has the
/// shape of a `T`.
pub open spec fn optional_ok<T: Decode>(document: Json, key: Seq<char>) -> bool {
    document.present(key) matches Some(member) ==> T::decodable(member)
}

/// Whether `value` is what the member `key` of `document` holds: nothing
/// where the member is missing or `null`.
pub open spec fn optional_is<T: Decode>(document: Json, key: Seq<char>, value: Option<T>) -> bool {
    match document.present(key) {
        Some(member) => value matches Some(inner) && T::decodes(member, inner),
        None => value is None,
    }
}

/// Reads a member that has to be there.
pub fn required<T: Decode>(document: &Json, key: &str) -> (read: Result<T, DeserializationError>)
    ensures
        read is Ok <==> required_ok::<T>(*document, key@),
        read matches Ok(value) ==> required_is::<T>(*document, key@, value),
{
    match document.get(key) {
        Some(member) => T::decode(member),
        None => Err(DeserializationError),
    }
}

/// Reads a member that may be missing.
pub fn optional<T: Decode>(document: &Json, key: &str) -> (read: Result<
    Option<T>,
    DeserializationError,
>)
    ensures
        read is Ok <==> optional_ok::<T>(*document, key@),
        read matches Ok(value) ==> optional_is::<T>(*document, key@, value),
{
    match document.get_present(key) {
        Some(member) => match T::decode(member) {
            Ok(value) => Ok(Some(value)),
            Err(error) => Err(error),
        },
        None => Ok(None),
    }
}

/// A member that is missing or `null` is read as nothing, never as an empty
/// value, and does not stand in the way of reading the rest.
pub proof fn lemma_absent_reads_as_none<T: Decode>(document: Json, key: Seq<char>, value: Option<T>)
    requires
        document.present(key) is None,
    ensures
        optional_ok::<T>(document, key),
        optional_is::<T>(document, key, value) <==> value is None,
{
}

/// A member that has to be there and is not makes the document unreadable.
pub proof fn lemma_missing_is_refused<T: Decode>(document: Json, key: Seq<char>)
    requires
        document.member(key) is None,
    ensures
        !required_ok::<T>(document, key),
{
}

/// A list is read item by item, in order: as many values as documents, the
/// value in each place read from the document in that place.
pub proof fn lemma_list_keeps_order<T: Decode>(items: Vec<Json>, values: Vec<T>, i: int)
    requires
        Vec::<T>::decodes(Json::Array(items), values),
        0 <= i < items.len(),
    ensures
        values.len() == items.len(),
        T::decodes(items[i], values[i]),
{
}

} // verus!
