//! What the library asks of a JSON document: a member of an object, the text
//! of a string, and the document written out.

use vstd::prelude::*;

verus! {

#[verifier::external_type_specification]
#[verifier::external_body]
pub struct ExJsonValue(serde_json::Value);

/// The member that `serde_json::Value::get` finds under a string key.
pub uninterp spec fn json_member(doc: serde_json::Value, key: Seq<char>) -> Option<serde_json::Value>;

/// The text that `serde_json::Value::as_str` finds in a document.
pub uninterp spec fn json_str(doc: serde_json::Value) -> Option<Seq<char>>;

/// The document as `serde_json::Value`'s `Display` writes it.
pub uninterp spec fn json_text(doc: serde_json::Value) -> Seq<char>;

/// Calls `serde_json::Value::get` with a string key: the member under that
/// key where the document is an object that has it, nothing otherwise. The
/// contract only names the result.
#[verifier::external_body]
pub(crate) fn member<'a>(doc: &'a serde_json::Value, key: &str) -> (found: Option<&'a serde_json::Value>)
    ensures
        match found {
            Some(m) => json_member(*doc, key@) == Some(*m),
            None => json_member(*doc, key@).is_none(),
        },
{
    doc.get(key)
}

/// Calls `serde_json::Value::as_str`: the text where the document is a JSON
/// string, nothing otherwise. The contract only names the result.
#[verifier::external_body]
pub(crate) fn text_of(doc: &serde_json::Value) -> (found: Option<String>)
    ensures
        match found {
            Some(s) => json_str(*doc) == Some(s@),
            None => json_str(*doc).is_none(),
        },
{
    doc.as_str().map(String::from)
}

/// Calls `to_string` on a `serde_json::Value`, which writes the document as
/// compact JSON through its `Display`. The contract only names the result.
#[verifier::external_body]
pub(crate) fn written(doc: &serde_json::Value) -> (text: String)
    ensures
        text@ == json_text(*doc),
{
    doc.to_string()
}

/// The text under the key `kind` of a document, where the document is an
/// object that holds a string there.
pub open spec fn kind_of(doc: serde_json::Value) -> Option<Seq<char>> {
    match json_member(doc, "kind"@) {
        Some(m) => json_str(m),
        None => None,
    }
}

/// Whether a kind is one of the two that name an endorsement.
pub open spec fn names_endorsement(kind: Seq<char>) -> bool {
    kind == "endorsement"@ || kind == "endorsement_with_slot"@
}

/// Whether `kind` names an endorsement.
pub fn is_endorsement_kind(kind: &String) -> (yes: bool)
    ensures
        yes == names_endorsement(kind@),
{
    let plain: String = "endorsement".to_owned();
    let slotted: String = "endorsement_with_slot".to_owned();
    *kind == plain || *kind == slotted
}

/// The kind of a document, read through `get` and `as_str`.
pub fn document_kind(doc: &serde_json::Value) -> (kind: Option<String>)
    ensures
        match kind {
            Some(k) => kind_of(*doc) == Some(k@),
            None => kind_of(*doc).is_none(),
        },
{
    match member(doc, "kind") {
        Some(m) => text_of(m),
        None => None,
    }
}

} // verus!
