//! Textual rendering of a model: the engine produces the canonical text, and
//! this module decides what its reply means. A null reply, or one that is
//! not well-formed text, is a formatting failure — never partial or garbage
//! output, and never a panic, since rendering only affects display.

use vstd::prelude::*;

verus! {

/// A formatting failure: the engine signalled a null string, or handed back
/// bytes that are not well-formed text.
#[derive(Clone, Copy, PartialEq, Eq, Structural, Debug)]
pub struct RenderError;

/// Relies on `String::from_utf8`: it succeeds exactly on well-formed UTF-8
/// and then yields the decoded characters.
#[verifier::external_body]
fn bytes_to_string(bytes: Vec<u8>) -> (r: Option<String>)
    ensures
        r is Some <==> vstd::utf8::valid_utf8(bytes@),
        r matches Some(s) ==> s@ == vstd::utf8::decode_utf8(bytes@),
{
    String::from_utf8(bytes).ok()
}

/// Decide a rendering reply, `None` standing for the engine's null string.
/// Rendering succeeds exactly when the engine produced bytes that are
/// well-formed text, and then yields exactly that text.
pub fn render_model_text(reply: Option<Vec<u8>>) -> (r: Result<String, RenderError>)
    ensures
        r is Ok <==> (reply matches Some(b) && vstd::utf8::valid_utf8(b@)),
        r matches Ok(s) ==> reply matches Some(b) && s@ == vstd::utf8::decode_utf8(b@),
{
    match reply {
        None => Err(RenderError),
        Some(b) => match bytes_to_string(b) {
            None => Err(RenderError),
            Some(s) => Ok(s),
        },
    }
}

} // verus!
