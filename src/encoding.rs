//! Scope images travel to the front end as `data:` URIs holding the PNG in
//! standard base64 without padding.

use vstd::prelude::*;

verus! {

/// The literal that starts every image URI.
pub const PREFIX_DATA_URI: &'static str = "data:image/png;base64,";

/// Standard-alphabet base64 of `bytes`, without `=` padding.
pub uninterp spec fn base64_standard_no_pad(bytes: Seq<u8>) -> Seq<char>;

/// Length of unpadded base64 for `n` bytes.
pub open spec fn base64_len(n: nat) -> nat {
    (n / 3) * 4 + if n % 3 == 0 {
        0nat
    } else if n % 3 == 1 {
        2nat
    } else {
        3nat
    }
}

/// Relies on base64's `Engine::encode` with the
/// `general_purpose::STANDARD_NO_PAD` engine (standard alphabet, no
/// padding). Its output has the length `encoded_len` computes: four
/// characters for each three bytes, and two or three for a remainder of one
/// or two. It panics only when that length overflows `usize`, which the
/// length bound rules out.
#[verifier::external_body]
fn encode_base64(bytes: &Vec<u8>) -> (s: String)
    requires
        bytes@.len() <= usize::MAX / 2,
    ensures
        s@ == base64_standard_no_pad(bytes@),
        s@.len() == base64_len(bytes@.len()),
{
    base64::Engine::encode(&base64::engine::general_purpose::STANDARD_NO_PAD, bytes)
}

/// The `data:` URI of a PNG image.
pub open spec fn data_uri(png: Seq<u8>) -> Seq<char> {
    PREFIX_DATA_URI@ + base64_standard_no_pad(png)
}

/// The `data:` URI of a PNG image; `None` for an image too large to encode.
pub fn to_data_uri(png: &Vec<u8>) -> (r: Option<String>)
    ensures
        r is Some <==> png@.len() <= usize::MAX / 2,
        r matches Some(uri) ==> uri@ == data_uri(png@),
{
    if png.len() > usize::MAX / 2 {
        return None;
    }
    let encoded = encode_base64(png);
    let uri = PREFIX_DATA_URI.to_owned();
    Some(uri.concat(encoded.as_str()))
}

} // verus!
