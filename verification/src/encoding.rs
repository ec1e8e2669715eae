//! Base64 text of reduced transactions, as ErgoPay carries them.
use vstd::prelude::*;

use crate::outside::{
    base64_decode_std_nopad, base64_decode_std_pad, base64_decode_url_nopad,
    base64_decode_url_pad, base64_encode_url_nopad, base64_std_nopad_decode,
    base64_std_pad_decode, base64_url_nopad_decode, base64_url_nopad_encode,
    base64_url_pad_decode,
};

verus! {

/// The first of the four decodings that accepts `text`: URL-safe without padding,
/// URL-safe with padding, standard with padding, standard without padding.
pub open spec fn decode_any_base64(text: Seq<char>) -> Option<Seq<u8>> {
    if base64_url_nopad_decode(text) is Some {
        base64_url_nopad_decode(text)
    } else if base64_url_pad_decode(text) is Some {
        base64_url_pad_decode(text)
    } else if base64_std_pad_decode(text) is Some {
        base64_std_pad_decode(text)
    } else {
        base64_std_nopad_decode(text)
    }
}

/// Decodes base64 text in any of the four common forms, trying URL-safe without padding,
/// URL-safe with padding, standard with padding and standard without padding, in that
/// order. When none accepts the text, the error is the last decoder's.
pub fn decode_base64_any(text: &str) -> (r: Result<Vec<u8>, String>)
    ensures
        match decode_any_base64(text@) {
            Some(b) => r matches Ok(v) && v@ == b,
            None => r is Err,
        },
{
    match base64_decode_url_nopad(text) {
        Ok(b) => {
            return Ok(b);
        },
        Err(_) => {},
    }
    match base64_decode_url_pad(text) {
        Ok(b) => {
            return Ok(b);
        },
        Err(_) => {},
    }
    match base64_decode_std_pad(text) {
        Ok(b) => {
            return Ok(b);
        },
        Err(_) => {},
    }
    base64_decode_std_nopad(text)
}

/// Encodes bytes as URL-safe base64 without padding, the form ErgoPay URIs embed.
/// The text decodes back to the bytes.
pub fn encode_base64_url(bytes: &Vec<u8>) -> (r: String)
    ensures
        r@ == base64_url_nopad_encode(bytes@),
        decode_any_base64(r@) == Some(bytes@),
{
    base64_encode_url_nopad(bytes)
}

} // verus!
