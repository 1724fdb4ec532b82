//! JSON text that has been through the parser.
//!
//! The relay forwards the upstream document without looking inside it. What
//! it does need is the assurance that the text it embeds in its own messages
//! is one well-formed JSON document in compact form; [`JsonText`] is that
//! assurance, since the only way to obtain one is [`JsonText::parse`].

use crate::error::ProxyError;
use vstd::prelude::*;
use vstd::std_specs::cmp::PartialEqSpecImpl;

verus! {

/// The compact rendering of the JSON document that `bytes` spell, or `None`
/// where they spell none. It is whatever the JSON parser and printer make
/// of the bytes; the library reasons about it only through this name.
pub uninterp spec fn canonical_json(bytes: Seq<u8>) -> Option<Seq<char>>;

/// Trusted: `serde_json::from_slice` into a `serde_json::Value`, printed
/// back through the value's `to_string`. The claim is that the outcome is a
/// function of the bytes alone: whether they parse, and the text that the
/// value prints as. Nothing is claimed about what that text looks like.
#[verifier::external_body]
fn reprint(bytes: &[u8]) -> (res: core::result::Result<String, serde_json::Error>)
    ensures
        res is Ok <==> canonical_json(bytes@) is Some,
        res matches Ok(text) ==> canonical_json(bytes@) == Some(text@),
{
    match serde_json::from_slice::<serde_json::Value>(bytes) {
        Ok(value) => Ok(value.to_string()),
        Err(error) => Err(error),
    }
}

/// One JSON document in compact form.
#[derive(Debug)]
pub struct JsonText {
    text: String,
}

impl View for JsonText {
    type V = Seq<char>;

    closed spec fn view(&self) -> Seq<char> {
        self.text@
    }
}

impl JsonText {
    /// Reads `bytes` as one JSON document and keeps its compact rendering.
    /// Fails exactly when the bytes are not a JSON document.
    pub fn parse(bytes: &[u8]) -> (res: core::result::Result<JsonText, ProxyError>)
        ensures
            res is Ok <==> canonical_json(bytes@) is Some,
            res matches Ok(json) ==> canonical_json(bytes@) == Some(json@),
            res matches Err(error) ==> error is Json,
    {
        match reprint(bytes) {
            Ok(text) => Ok(JsonText { text }),
            Err(error) => Err(ProxyError::from(error)),
        }
    }

    /// The document's text.
    pub fn as_str(&self) -> (res: &str)
        ensures
            res@ == self@,
    {
        self.text.as_str()
    }
}

impl Clone for JsonText {
    fn clone(&self) -> (res: Self)
        ensures
            res == *self,
    {
        JsonText { text: self.text.clone() }
    }
}

impl PartialEq for JsonText {
    fn eq(&self, other: &Self) -> (r: bool) {
        self.text == other.text
    }
}

impl PartialEqSpecImpl for JsonText {
    open spec fn obeys_eq_spec() -> bool {
        true
    }

    open spec fn eq_spec(&self, other: &Self) -> bool {
        self@ == other@
    }
}

} // verus!
