//! The requests that a client sends.
//!
//! An INFO request carries a fixed query string, and after it, where the
//! server has asked for one, a challenge number. The PLAYER and RULES
//! requests carry a challenge number and nothing else.

use crate::error::{DecodeError, ErrorKind};
use crate::parser_util::{
    all_consumed, c_string, le_i32, opt_le_i32, same_result, spec_all_consumed, spec_c_string,
    spec_le_i32, spec_opt_le_i32,
};
use vstd::prelude::*;
use vstd::slice::{slice_subrange, slice_to_vec};
use vstd::string::StringExecFns;

verus! {

/// An INFO request.
#[derive(Clone, Debug, PartialEq, Eq)]
pub struct InfoRequest {
    /// The query string, always `Source Engine Query`.
    pub payload: String,
    /// The challenge number, where the request carries one. `-1` asks the
    /// server for a number.
    pub challenge: Option<i32>,
    /// Whatever follows, kept as it is: later games may send more.
    pub remaining: Vec<u8>,
}

/// What an `InfoRequest` holds, as mathematical values.
pub struct InfoRequestView {
    pub payload: Seq<char>,
    pub challenge: Option<i32>,
    pub remaining: Seq<u8>,
}

impl View for InfoRequest {
    type V = InfoRequestView;

    open spec fn view(&self) -> InfoRequestView {
        InfoRequestView {
            payload: self.payload@,
            challenge: self.challenge,
            remaining: self.remaining@,
        }
    }
}

impl DeepView for InfoRequest {
    type V = InfoRequestView;

    open spec fn deep_view(&self) -> InfoRequestView {
        self@
    }
}

/// A PLAYER or RULES request.
#[derive(Clone, Copy, Debug, PartialEq, Eq, Structural)]
pub struct ChallengeRequest {
    /// The challenge number. `-1` asks the server for a number.
    pub challenge: i32,
}

impl View for ChallengeRequest {
    type V = ChallengeRequest;

    open spec fn view(&self) -> ChallengeRequest {
        *self
    }
}

impl DeepView for ChallengeRequest {
    type V = ChallengeRequest;

    open spec fn deep_view(&self) -> ChallengeRequest {
        *self
    }
}

/// The query string of an INFO request.
pub open spec fn spec_query_text() -> Seq<char> {
    "Source Engine Query"@
}

/// What decoding the buffer `s` as an INFO request gives. The string at the
/// front has to be the query string; a different string is an error that
/// points behind it. A challenge number follows if four bytes are left, and
/// what is left then is kept.
pub open spec fn spec_parse_info_request(s: Seq<u8>) -> Result<InfoRequestView, DecodeError> {
    match spec_c_string(s, 0) {
        Err(e) => Err(e),
        Ok((payload, n0)) => if payload != spec_query_text() {
            Err(DecodeError { kind: ErrorKind::UnexpectedPayload, offset: n0 })
        } else {
            let challenge = spec_opt_le_i32(s, n0 as int);
            Ok(
                InfoRequestView {
                    payload,
                    challenge: challenge.0,
                    remaining: s.subrange(n0 + challenge.1, s.len() as int),
                },
            )
        },
    }
}

/// What decoding the buffer `s` as a PLAYER or RULES request gives: the
/// challenge number, unless bytes are left over behind it.
pub open spec fn spec_parse_challenge_request(s: Seq<u8>) -> Result<ChallengeRequest, DecodeError> {
    match spec_le_i32(s, 0) {
        Err(e) => Err(e),
        Ok((challenge, n)) => match spec_all_consumed(s, n as int) {
            Err(e) => Err(e),
            Ok(_) => Ok(ChallengeRequest { challenge }),
        },
    }
}

fn p_challenge_request(input: &[u8]) -> (r: Result<ChallengeRequest, DecodeError>)
    ensures
        r == spec_parse_challenge_request(input@),
{
    let (challenge, n) = le_i32(input, 0)?;
    all_consumed(input, n)?;
    Ok(ChallengeRequest { challenge })
}

/// Decodes an INFO request from `input`, the payload of the request without
/// the message tag.
pub fn parse_info_request(input: &[u8]) -> (r: Result<InfoRequest, DecodeError>)
    ensures
        same_result(r, spec_parse_info_request(input@)),
{
    let (payload, n0) = c_string(input, 0)?;
    let expected = String::from_str("Source Engine Query");
    if !(payload == expected) {
        return Err(DecodeError::new(ErrorKind::UnexpectedPayload, n0));
    }
    let (challenge, n1) = opt_le_i32(input, n0);
    let remaining = slice_to_vec(slice_subrange(input, n0 + n1, input.len()));
    Ok(InfoRequest { payload, challenge, remaining })
}

/// Decodes a PLAYER request from `input`, the payload of the request without
/// the message tag.
pub fn parse_players_request(input: &[u8]) -> (r: Result<ChallengeRequest, DecodeError>)
    ensures
        r == spec_parse_challenge_request(input@),
{
    p_challenge_request(input)
}

/// Decodes a RULES request from `input`, the payload of the request without
/// the message tag.
pub fn parse_rules_request(input: &[u8]) -> (r: Result<ChallengeRequest, DecodeError>)
    ensures
        r == spec_parse_challenge_request(input@),
{
    p_challenge_request(input)
}

} // verus!
