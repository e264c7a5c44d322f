//! The text that the metrics endpoint serves.

use vstd::prelude::*;
use vstd::slice::slice_to_vec;
use vstd::string::StringExecFns;
use vstd::utf8::{decode_utf8, valid_utf8};
use crate::text::string_from_utf8;

verus! {

/// The text served for metrics that were encoded to `buffer`, or could not
/// be encoded: the buffer's text where there is a buffer and it is UTF-8,
/// else a line that says that encoding failed.
pub open spec fn metrics_text(buffer: Option<Seq<u8>>) -> Seq<char> {
    match buffer {
        Some(octets) if valid_utf8(octets) => decode_utf8(octets),
        _ => "Failed to encode metrics"@,
    }
}

/// The text that the metrics endpoint serves, from the encoder's output.
pub fn metrics_string(buffer: Option<&[u8]>) -> (text: String)
    ensures
        text@ == metrics_text(
            match buffer {
                Some(octets) => Some(octets@),
                None => None,
            },
        ),
{
    match buffer {
        None => String::from_str("Failed to encode metrics"),
        Some(octets) => match string_from_utf8(slice_to_vec(octets)) {
            Ok(text) => text,
            Err(_) => String::from_str("Failed to encode metrics"),
        },
    }
}

} // verus!
