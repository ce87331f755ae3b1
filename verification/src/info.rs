//! The INFO response.
//!
//! There are three decode entry points, one per dialect:
//! [`parse_pregoldsource_info`] and [`parse_goldsource_info`], which live in
//! [`crate::info_goldsource`], and [`parse_source_info`], which lives in
//! [`crate::info_source`]. The caller picks one by the message tag it has
//! already read; nothing here looks at the bytes to guess the dialect. The
//! entry points and their records can all be named through this module.
//!
//! The module itself holds what the dialects share: the server-type and
//! environment bytes, and the policy on bytes left over behind a record.

use crate::error::DecodeError;
pub use crate::info_goldsource::{
    parse_goldsource_info, parse_goldsource_info_with, parse_pregoldsource_info,
    GoldSourceResponseInfo, HalfLifeMod, ModDLL, ModType, PreGoldSourceResponseInfo,
};
pub use crate::info_source::{
    parse_source_info, parse_source_info_with, ExtraDataFields, SourceResponseInfo,
    TheShipFields, TheShipGameMode,
};
use crate::parser_util::{all_consumed, le_u8, spec_all_consumed, spec_le_u8, within};
use vstd::prelude::*;
use vstd::std_specs::convert::FromSpecImpl;

verus! {

/// How a server is hosted.
#[derive(Clone, Copy, Debug, PartialEq, Eq, Structural)]
pub enum ServerType {
    /// `D` or `d`: a dedicated server.
    Dedicated,
    /// `L` or `l`: a listen server, run by one of the players.
    NonDedicated,
    /// `P` or `p`: a SourceTV relay.
    SourceTV,
    /// Zero, which Rag Doll Kung Fu always sends.
    RagDollKungFu,
    /// Any other byte, kept as it was read.
    Other(u8),
}

/// The server type that the byte `value` stands for.
pub open spec fn spec_server_type(value: u8) -> ServerType {
    if value == 0x44 || value == 0x64 {
        ServerType::Dedicated
    } else if value == 0x4C || value == 0x6C {
        ServerType::NonDedicated
    } else if value == 0x50 || value == 0x70 {
        ServerType::SourceTV
    } else if value == 0x00 {
        ServerType::RagDollKungFu
    } else {
        ServerType::Other(value)
    }
}

impl From<u8> for ServerType {
    fn from(input: u8) -> (server_type: ServerType)
        ensures
            server_type == spec_server_type(input),
    {
        match input {
            0x44 | 0x64 => ServerType::Dedicated,
            0x4C | 0x6C => ServerType::NonDedicated,
            0x50 | 0x70 => ServerType::SourceTV,
            0x00 => ServerType::RagDollKungFu,
            _ => ServerType::Other(input),
        }
    }
}

impl FromSpecImpl<u8> for ServerType {
    open spec fn obeys_from_spec() -> bool {
        true
    }

    open spec fn from_spec(input: u8) -> ServerType {
        spec_server_type(input)
    }
}

/// The operating system that a server runs on.
#[derive(Clone, Copy, Debug, PartialEq, Eq, Structural)]
pub enum Environment {
    /// `L` or `l`.
    Linux,
    /// `W` or `w`.
    Windows,
    /// `M`, `m`, `O` or `o`.
    MacOS,
    /// Any other byte, kept as it was read.
    Other(u8),
}

/// The environment that the byte `value` stands for.
pub open spec fn spec_environment(value: u8) -> Environment {
    if value == 0x4C || value == 0x6C {
        Environment::Linux
    } else if value == 0x57 || value == 0x77 {
        Environment::Windows
    } else if value == 0x4D || value == 0x6D || value == 0x4F || value == 0x6F {
        Environment::MacOS
    } else {
        Environment::Other(value)
    }
}

impl From<u8> for Environment {
    fn from(input: u8) -> (environment: Environment)
        ensures
            environment == spec_environment(input),
    {
        match input {
            0x4C | 0x6C => Environment::Linux,
            0x57 | 0x77 => Environment::Windows,
            0x4D | 0x6D | 0x4F | 0x6F => Environment::MacOS,
            _ => Environment::Other(input),
        }
    }
}

impl FromSpecImpl<u8> for Environment {
    open spec fn obeys_from_spec() -> bool {
        true
    }

    open spec fn from_spec(input: u8) -> Environment {
        spec_environment(input)
    }
}

/// What a decoder does when bytes are left over behind the record.
#[derive(Clone, Copy, Debug, PartialEq, Eq, Structural)]
pub enum Completion {
    /// Left-over bytes are an error.
    Strict,
    /// Left-over bytes are ignored. Old servers cut a response to the size of
    /// one packet, so that a record may be followed by the start of something
    /// that never arrived.
    Lenient,
}

/// The server-type byte at `pos`. Every byte is accepted.
pub open spec fn spec_server_type_at(s: Seq<u8>, pos: int) -> Result<
    (ServerType, usize),
    DecodeError,
> {
    match spec_le_u8(s, pos) {
        Err(e) => Err(e),
        Ok((value, n)) => Ok((spec_server_type(value), n)),
    }
}

/// The environment byte at `pos`. Every byte is accepted.
pub open spec fn spec_environment_at(s: Seq<u8>, pos: int) -> Result<
    (Environment, usize),
    DecodeError,
> {
    match spec_le_u8(s, pos) {
        Err(e) => Err(e),
        Ok((value, n)) => Ok((spec_environment(value), n)),
    }
}

/// The completion check of a record that ends at `end`, under the policy
/// `completion`: under the strict policy bytes left over are an error that
/// points at the first of them, under the lenient policy nothing is.
pub open spec fn spec_check_complete(s: Seq<u8>, end: int, completion: Completion) -> Result<
    (),
    DecodeError,
> {
    match completion {
        Completion::Strict => spec_all_consumed(s, end),
        Completion::Lenient => Ok(()),
    }
}

/// Reads the server-type byte at `offset`.
pub fn server_type(input: &[u8], offset: usize) -> (r: Result<(ServerType, usize), DecodeError>)
    ensures
        r == spec_server_type_at(input@, offset as int),
        r matches Ok((_, n)) ==> within(input@, offset, n),
{
    let (value, n) = le_u8(input, offset)?;
    Ok((ServerType::from(value), n))
}

/// Reads the environment byte at `offset`.
pub fn environment(input: &[u8], offset: usize) -> (r: Result<(Environment, usize), DecodeError>)
    ensures
        r == spec_environment_at(input@, offset as int),
        r matches Ok((_, n)) ==> within(input@, offset, n),
{
    let (value, n) = le_u8(input, offset)?;
    Ok((Environment::from(value), n))
}

/// Applies the completion policy to a record of `input` that ends at `end`.
pub fn check_complete(input: &[u8], end: usize, completion: Completion) -> (r: Result<
    (),
    DecodeError,
>)
    ensures
        r == spec_check_complete(input@, end as int, completion),
{
    match completion {
        Completion::Strict => all_consumed(input, end),
        Completion::Lenient => Ok(()),
    }
}

} // verus!
