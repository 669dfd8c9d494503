use vstd::bytes::*;
use vstd::prelude::*;
use vstd::slice::slice_to_vec;
use vstd::utf8::*;

use crate::lifecycle::LifecycleError;

verus! {

/// The canonical, whitespace-free rendering of a JSON document, or `None`
/// when the text is not JSON.
pub uninterp spec fn minified_json(raw: Seq<char>) -> Option<Seq<char>>;

/// Relies on serde_json::from_str into a serde_json::Value, followed by
/// serde_json::to_string of that value: the result is the document without
/// insignificant whitespace, keys in source order, and it depends on the text
/// alone.
#[verifier::external_body]
fn minify_json(raw: &str) -> (r: Option<String>)
    ensures
        r is Some <==> minified_json(raw@) is Some,
        r matches Some(m) ==> minified_json(raw@) == Some(m@),
{
    match serde_json::from_str::<serde_json::Value>(raw) {
        Ok(value) => serde_json::to_string(&value).ok(),
        Err(_) => None,
    }
}

/// The private input of one proof: a numeric parameter and a minified JSON
/// payload. It is built once and never changed.
pub struct Witness {
    parameter: u32,
    payload: String,
}

/// The witness stream for a parameter and payload: the parameter as four
/// little-endian bytes, then the payload's UTF-8 bytes, as two segments.
pub open spec fn witness_stream(parameter: u32, payload: Seq<char>) -> Seq<Seq<u8>> {
    seq![spec_u32_to_le_bytes(parameter), encode_utf8(payload)]
}

impl Witness {
    pub closed spec fn spec_parameter(&self) -> u32 {
        self.parameter
    }

    pub closed spec fn spec_payload(&self) -> Seq<char> {
        self.payload@
    }

    pub fn parameter(&self) -> (r: u32)
        ensures
            r == self.spec_parameter(),
    {
        self.parameter
    }

    pub fn payload(&self) -> (r: &str)
        ensures
            r@ == self.spec_payload(),
    {
        self.payload.as_str()
    }

    /// The segments handed to the guest program, in the order it reads them.
    pub fn segments(&self) -> (r: Vec<Vec<u8>>)
        ensures
            r.deep_view() =~= witness_stream(self.spec_parameter(), self.spec_payload()),
    {
        let fixed = u32_to_le_bytes(self.parameter);
        let text = slice_to_vec(self.payload.as_str().as_bytes());
        assert(fixed.deep_view() =~= fixed@);
        assert(text.deep_view() =~= text@);
        let mut r: Vec<Vec<u8>> = Vec::new();
        r.push(fixed);
        r.push(text);
        assert(r.deep_view()[0] == fixed.deep_view());
        assert(r.deep_view()[1] == text.deep_view());
        r
    }
}

/// Builds the witness from a parameter and the text of a JSON document; the
/// document is re-encoded in its minimal form. Text that is not JSON is a
/// decode error.
pub fn build_witness(parameter: u32, raw: &str) -> (r: Result<Witness, LifecycleError>)
    ensures
        minified_json(raw@) is None ==> r == Err::<Witness, LifecycleError>(LifecycleError::Decode),
        minified_json(raw@) matches Some(m) ==> r matches Ok(w) && w.spec_parameter() == parameter
            && w.spec_payload() == m,
{
    match minify_json(raw) {
        Some(payload) => Ok(Witness { parameter, payload }),
        None => Err(LifecycleError::Decode),
    }
}

} // verus!
