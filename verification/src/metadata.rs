//! The routing header that goes with every query request.

use crate::error::Error;
use std::str::FromStr;
use tonic::metadata::errors::InvalidMetadataValue;
use tonic::metadata::{Ascii, MetadataValue};
use vstd::prelude::*;
use vstd::utf8::{encode_utf8, is_ascii_chars, is_ascii_chars_encode_utf8};

verus! {

/// The name of the routing header.
pub const REQUEST_PARAMS_HEADER: &'static str = "x-goog-request-params";

/// What stands before the instance in the routing header.
pub const NAME_PART: &'static str = "name=";

/// What stands between the instance and the application profile in the routing header.
pub const PROFILE_PART: &'static str = "&app_profile_id=";

/// A header can carry the byte: it is a tab, or no control character.
pub open spec fn header_byte(b: u8) -> bool {
    b == 9 || (b >= 32 && b != 127)
}

/// A header can carry the text: it can carry each byte of its UTF-8 form.
pub open spec fn fits_header(text: Seq<char>) -> bool {
    let bytes = encode_utf8(text);
    forall|i: int| 0 <= i < bytes.len() ==> header_byte(#[trigger] bytes[i])
}

/// The text of the routing header.
pub open spec fn routing_text(instance_prefix: Seq<char>, app_profile_id: Seq<char>) -> Seq<char> {
    NAME_PART@ + instance_prefix + PROFILE_PART@ + app_profile_id
}

/// `tonic::metadata::MetadataValue::from_str`: the bytes of the header value made of
/// `text`. They are those of the text's UTF-8 form, and there is a value just where each
/// of them is a tab or no control character. What the error says is left open.
#[verifier::external_body]
fn metadata_value_from_str(text: &str) -> (value: Result<Vec<u8>, InvalidMetadataValue>)
    ensures
        value is Ok <==> fits_header(text@),
        value matches Ok(bytes) ==> bytes@ == encode_utf8(text@),
{
    match MetadataValue::<Ascii>::from_str(text) {
        Ok(value) => Ok(value.as_bytes().to_vec()),
        Err(e) => Err(e),
    }
}

/// The value of the routing header.
pub fn request_params(instance_prefix: &str, app_profile_id: &str) -> (value: Result<
    Vec<u8>,
    Error,
>)
    ensures
        match value {
            Ok(bytes) => {
                &&& fits_header(routing_text(instance_prefix@, app_profile_id@))
                &&& bytes@ == encode_utf8(routing_text(instance_prefix@, app_profile_id@))
            },
            Err(e) => {
                &&& !fits_header(routing_text(instance_prefix@, app_profile_id@))
                &&& e is MetadataError
            },
        },
{
    let mut text = NAME_PART.to_owned();
    text.append(instance_prefix);
    text.append(PROFILE_PART);
    text.append(app_profile_id);
    match metadata_value_from_str(text.as_str()) {
        Ok(bytes) => Ok(bytes),
        Err(e) => Err(Error::MetadataError(e)),
    }
}

/// The character is a printable one of ASCII.
pub open spec fn printable(c: char) -> bool {
    ' ' <= c <= '~'
}

/// Names of printable ASCII characters always fit the routing header, so that requests with
/// such names do not fail for want of one.
pub proof fn printable_names_fit_the_header(instance_prefix: Seq<char>, app_profile_id: Seq<char>)
    requires
        forall|i: int| 0 <= i < instance_prefix.len() ==> printable(#[trigger] instance_prefix[i]),
        forall|i: int| 0 <= i < app_profile_id.len() ==> printable(#[trigger] app_profile_id[i]),
    ensures
        fits_header(routing_text(instance_prefix, app_profile_id)),
{
    reveal_strlit("name=");
    reveal_strlit("&app_profile_id=");
    let text = routing_text(instance_prefix, app_profile_id);
    let n = NAME_PART@.len();
    let m = n + instance_prefix.len();
    let k = m + PROFILE_PART@.len();
    assert forall|i: int| 0 <= i < text.len() implies printable(#[trigger] text[i]) by {
        if i < n {
            assert(text[i] == NAME_PART@[i]);
        } else if i < m {
            assert(text[i] == instance_prefix[i - n]);
        } else if i < k {
            assert(text[i] == PROFILE_PART@[i - m]);
        } else {
            assert(text[i] == app_profile_id[i - k]);
        }
    }
    assert(is_ascii_chars(text));
    is_ascii_chars_encode_utf8(text);
    let bytes = encode_utf8(text);
    assert forall|i: int| 0 <= i < bytes.len() implies header_byte(#[trigger] bytes[i]) by {
        assert(printable(text[i]));
    }
}

} // verus!
