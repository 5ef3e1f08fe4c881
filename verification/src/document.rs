//! The BSON values that the protocol's messages are made of.
//!
//! Documents stay those of the `bson` crate. The protocol reads four
//! shapes of value in them: text, generic binary data, booleans and
//! documents. Everything else is `Other`.

use vstd::prelude::*;

verus! {

/// `bson::Document`: an ordered map from keys to BSON values. Nothing of
/// it is known but what `document_shapes` says.
#[verifier::external_type_specification]
#[verifier::external_body]
pub struct ExDocument(bson::Document);

/// What the protocol tells apart in a BSON value.
pub enum Shape {
    /// A string.
    Text(Seq<char>),
    /// Binary data of the generic subtype.
    Binary(Seq<u8>),
    /// A boolean.
    Boolean(bool),
    /// An embedded document.
    Document(bson::Document),
    /// Any other value.
    Other,
}

/// A BSON value, as far as the protocol reads it.
#[derive(Debug)]
pub enum Value {
    /// A string.
    Text(String),
    /// Binary data of the generic subtype.
    Binary(Vec<u8>),
    /// A boolean.
    Boolean(bool),
    /// An embedded document.
    Document(bson::Document),
    /// Any other value.
    Other,
}

impl View for Value {
    type V = Shape;

    open spec fn view(&self) -> Shape {
        match self {
            Value::Text(text) => Shape::Text(text@),
            Value::Binary(bytes) => Shape::Binary(bytes@),
            Value::Boolean(flag) => Shape::Boolean(*flag),
            Value::Document(document) => Shape::Document(*document),
            Value::Other => Shape::Other,
        }
    }
}

/// The entries of a document: the shape of the value under each key.
pub uninterp spec fn document_shapes(document: bson::Document) -> Map<Seq<char>, Shape>;

/// The entries of a document that holds nothing.
pub open spec fn no_entries() -> Map<Seq<char>, Shape> {
    Map::empty()
}

/// The shape under `key` in a document, if the document has the key.
pub open spec fn shape_at(document: bson::Document, key: Seq<char>) -> Option<Shape> {
    if document_shapes(document).contains_key(key) {
        Some(document_shapes(document)[key])
    } else {
        None
    }
}

/// The shape of what `take` hands out.
pub open spec fn option_shape(value: Option<Value>) -> Option<Shape> {
    match value {
        Some(value) => Some(value@),
        None => None,
    }
}

/// `bson::Document::new`: a document without entries.
#[verifier::external_body]
pub(crate) fn new_document() -> (empty: bson::Document)
    ensures
        document_shapes(empty) == no_entries(),
{
    bson::Document::new()
}

/// `bson::Document::insert`: afterwards the document holds `value` under
/// `key`, in place of what it held there before, and its other entries are
/// unchanged. Text becomes `Bson::String`, bytes become `Bson::Binary` of
/// the generic subtype, a boolean `Bson::Boolean`, a document
/// `Bson::Document`.
#[verifier::external_body]
pub(crate) fn put(document: &mut bson::Document, key: &str, value: Value)
    requires
        !(value is Other),
    ensures
        document_shapes(*final(document)) == document_shapes(*old(document)).insert(key@, value@),
{
    let value = match value {
        Value::Text(text) => bson::Bson::String(text),
        Value::Binary(bytes) => bson::Bson::Binary(bson::Binary { subtype: bson::spec::BinarySubtype::Generic, bytes }),
        Value::Boolean(flag) => bson::Bson::Boolean(flag),
        Value::Document(inner) => bson::Bson::Document(inner),
        Value::Other => bson::Bson::Null,
    };
    document.insert(key, value);
}

/// `bson::Document::remove`: hands out what the document held under `key`,
/// `None` if it held nothing there, and leaves the other entries as they
/// were. A `Bson::String` comes out as text, a `Bson::Binary` of the
/// generic subtype as bytes, a `Bson::Boolean` as a boolean, a
/// `Bson::Document` as a document, and every other value as `Other`.
#[verifier::external_body]
pub(crate) fn take(document: &mut bson::Document, key: &str) -> (value: Option<Value>)
    ensures
        option_shape(value) == shape_at(*old(document), key@),
        document_shapes(*final(document)) == document_shapes(*old(document)).remove(key@),
{
    match document.remove(key) {
        Some(bson::Bson::String(text)) => Some(Value::Text(text)),
        Some(bson::Bson::Binary(bson::Binary { subtype: bson::spec::BinarySubtype::Generic, bytes })) => Some(Value::Binary(bytes)),
        Some(bson::Bson::Boolean(flag)) => Some(Value::Boolean(flag)),
        Some(bson::Bson::Document(inner)) => Some(Value::Document(inner)),
        Some(_) => Some(Value::Other),
        None => None,
    }
}

/// `bson::Document::is_empty`: whether the document has no entries.
#[verifier::external_body]
pub(crate) fn is_empty(document: &bson::Document) -> (empty: bool)
    ensures
        empty == (document_shapes(*document) == no_entries()),
{
    document.is_empty()
}

} // verus!
