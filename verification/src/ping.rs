//! The PING response.
//!
//! The response is one null-terminated string and nothing else. Source
//! servers answer with fourteen `0` characters, GoldSource servers with the
//! empty string; the decoder returns whatever string is there.

use crate::error::DecodeError;
use crate::parser_util::{
    all_consumed, c_string, same_result, spec_all_consumed, spec_c_string,
};
use vstd::prelude::*;

verus! {

/// What decoding the buffer `s` as a PING response gives: the string at its
/// front, unless bytes are left over behind it.
pub open spec fn spec_parse_ping(s: Seq<u8>) -> Result<Seq<char>, DecodeError> {
    match spec_c_string(s, 0) {
        Err(e) => Err(e),
        Ok((text, n)) => match spec_all_consumed(s, n as int) {
            Err(e) => Err(e),
            Ok(_) => Ok(text),
        },
    }
}

/// Decodes a PING response from `input`, the payload of the response without
/// the message tag. The terminator is not part of the string returned.
pub fn parse_ping(input: &[u8]) -> (r: Result<String, DecodeError>)
    ensures
        same_result(r, spec_parse_ping(input@)),
{
    let (text, n) = c_string(input, 0)?;
    all_consumed(input, n)?;
    Ok(text)
}

} // verus!
