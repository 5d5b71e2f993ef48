//! The response model for image generation: a creation stamp and the
//! generated images, each carried as an address or as base64 data.

use base64::prelude::Engine;
use vstd::prelude::*;

use crate::text_api::common::Integer;

verus! {

/// One generated-images response.
#[derive(Debug)]
pub struct Response {
    pub created: Integer,
    pub data: Vec<Image>,
}

/// One generated image.
#[derive(Debug)]
pub struct Image {
    pub b64_json: Option<B64>,
    pub url: Option<String>,
    pub revised_prompt: Option<String>,
}

/// Base64-carried image data.
#[derive(Debug, Clone)]
pub struct B64(pub String);

/// The data was not valid base64.
#[derive(Debug, Clone, Copy, PartialEq, Eq, Structural)]
pub struct DecodeError;

/// What decoding standard-alphabet base64 yields: `None` on malformed input.
/// The result is a function of the text alone.
pub uninterp spec fn b64_decoded(s: Seq<char>) -> Option<Seq<u8>>;

/// Relies on base64's standard-alphabet, padded engine: decodes the text or
/// reports malformed input.
#[verifier::external_body]
fn decode_standard(s: &str) -> (r: Result<Vec<u8>, DecodeError>)
    ensures
        r matches Ok(v) ==> b64_decoded(s@) == Some(v@),
        r is Err ==> b64_decoded(s@) is None,
{
    base64::prelude::BASE64_STANDARD.decode(s).map_err(|_| DecodeError)
}

impl B64 {
    /// The decoded bytes of the carried data.
    pub fn decode(&self) -> (r: Result<Vec<u8>, DecodeError>)
        ensures
            r matches Ok(v) ==> b64_decoded(self.0@) == Some(v@),
            r is Err ==> b64_decoded(self.0@) is None,
    {
        decode_standard(self.0.as_str())
    }
}

} // verus!
