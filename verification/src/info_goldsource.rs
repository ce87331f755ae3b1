//! The INFO response of GoldSource servers and of the servers before them.
//!
//! Both send the same layout. They differ in what may follow the record: a
//! GoldSource response is the record and nothing else, while a server of the
//! older kind may have cut its response to the size of one packet, so that
//! bytes of no use trail the record. [`parse_goldsource_info`] therefore
//! decodes under `Completion::Strict` and [`parse_pregoldsource_info`] under
//! `Completion::Lenient`; [`parse_goldsource_info_with`] takes the policy
//! from the caller.

use crate::error::DecodeError;
use crate::info::{
    check_complete, environment, server_type, spec_check_complete, spec_environment_at,
    spec_server_type_at, Completion, Environment, ServerType,
};
use crate::parser_util::{
    advance, c_string, le_i32, le_u8, offset_of, parse_bool, parse_null, same_result, same_step,
    spec_c_string, spec_le_i32, spec_le_u8, spec_parse_bool, spec_parse_null, value_of, within,
};
use vstd::prelude::*;
use vstd::std_specs::convert::FromSpecImpl;

verus! {

/// Whether a Half-Life mod can be played alone.
#[derive(Clone, Copy, Debug, PartialEq, Eq, Structural)]
pub enum ModType {
    /// 0: single player and multiplayer.
    SingleAndMultiplayer,
    /// 1: multiplayer only.
    MultiplayerOnly,
    /// Any other byte, kept as it was read.
    Other(u8),
}

/// The mod type that the byte `value` stands for.
pub open spec fn spec_mod_type(value: u8) -> ModType {
    if value == 0 {
        ModType::SingleAndMultiplayer
    } else if value == 1 {
        ModType::MultiplayerOnly
    } else {
        ModType::Other(value)
    }
}

impl From<u8> for ModType {
    fn from(input: u8) -> (mod_type: ModType)
        ensures
            mod_type == spec_mod_type(input),
    {
        match input {
            0 => ModType::SingleAndMultiplayer,
            1 => ModType::MultiplayerOnly,
            _ => ModType::Other(input),
        }
    }
}

impl FromSpecImpl<u8> for ModType {
    open spec fn obeys_from_spec() -> bool {
        true
    }

    open spec fn from_spec(input: u8) -> ModType {
        spec_mod_type(input)
    }
}

/// Whether a Half-Life mod brings its own DLL.
#[derive(Clone, Copy, Debug, PartialEq, Eq, Structural)]
pub enum ModDLL {
    /// 0: the mod uses the DLL of Half-Life.
    HalfLife,
    /// 1: the mod uses a DLL of its own.
    Custom,
    /// Any other byte, kept as it was read.
    Other(u8),
}

/// The DLL kind that the byte `value` stands for.
pub open spec fn spec_mod_dll(value: u8) -> ModDLL {
    if value == 0 {
        ModDLL::HalfLife
    } else if value == 1 {
        ModDLL::Custom
    } else {
        ModDLL::Other(value)
    }
}

impl From<u8> for ModDLL {
    fn from(input: u8) -> (dll: ModDLL)
        ensures
            dll == spec_mod_dll(input),
    {
        match input {
            0 => ModDLL::HalfLife,
            1 => ModDLL::Custom,
            _ => ModDLL::Other(input),
        }
    }
}

impl FromSpecImpl<u8> for ModDLL {
    open spec fn obeys_from_spec() -> bool {
        true
    }

    open spec fn from_spec(input: u8) -> ModDLL {
        spec_mod_dll(input)
    }
}

/// What a server says of the Half-Life mod that it runs.
#[derive(Clone, Debug, PartialEq, Eq)]
pub struct HalfLifeMod {
    /// The website of the mod.
    pub link: String,
    /// Where the mod can be downloaded.
    pub download_link: String,
    /// The version of the mod.
    pub version: i32,
    /// The size of the mod in bytes.
    pub size: i32,
    /// Whether the mod can be played alone.
    pub mod_type: ModType,
    /// Whether the mod brings its own DLL.
    pub dll: ModDLL,
}

/// What a `HalfLifeMod` holds, as mathematical values.
pub struct HalfLifeModView {
    pub link: Seq<char>,
    pub download_link: Seq<char>,
    pub version: i32,
    pub size: i32,
    pub mod_type: ModType,
    pub dll: ModDLL,
}

impl View for HalfLifeMod {
    type V = HalfLifeModView;

    open spec fn view(&self) -> HalfLifeModView {
        HalfLifeModView {
            link: self.link@,
            download_link: self.download_link@,
            version: self.version,
            size: self.size,
            mod_type: self.mod_type,
            dll: self.dll,
        }
    }
}

impl DeepView for HalfLifeMod {
    type V = HalfLifeModView;

    open spec fn deep_view(&self) -> HalfLifeModView {
        self@
    }
}

/// The INFO record of a GoldSource server.
#[derive(Clone, Debug, PartialEq, Eq)]
pub struct GoldSourceResponseInfo {
    /// The address of the server, `ip:port`.
    pub address: String,
    /// The name of the server.
    pub name: String,
    /// The map that is loaded.
    pub map: String,
    /// The folder that holds the game files.
    pub folder: String,
    /// The full name of the game.
    pub game: String,
    /// The players on the server, those still connecting included.
    pub players: u8,
    /// The most players the server takes.
    pub max_players: u8,
    /// The protocol version of the server.
    pub protocol: u8,
    /// How the server is hosted.
    pub server_type: ServerType,
    /// The operating system of the server.
    pub environment: Environment,
    /// True when the server asks for a password.
    pub visibility: bool,
    /// True when the game is a Half-Life mod.
    pub mod_half_life: bool,
    /// The mod, present exactly when `mod_half_life` is true.
    pub mod_fields: Option<HalfLifeMod>,
    /// True when the server is secured by VAC.
    pub vac: bool,
    /// The bots on the server.
    pub bots: u8,
}

/// The INFO record of a server older than GoldSource. It has the fields of
/// the GoldSource record.
pub type PreGoldSourceResponseInfo = GoldSourceResponseInfo;

/// What a `GoldSourceResponseInfo` holds, as mathematical values.
pub struct GoldSourceInfoView {
    pub address: Seq<char>,
    pub name: Seq<char>,
    pub map: Seq<char>,
    pub folder: Seq<char>,
    pub game: Seq<char>,
    pub players: u8,
    pub max_players: u8,
    pub protocol: u8,
    pub server_type: ServerType,
    pub environment: Environment,
    pub visibility: bool,
    pub mod_half_life: bool,
    pub mod_fields: Option<HalfLifeModView>,
    pub vac: bool,
    pub bots: u8,
}

impl View for GoldSourceResponseInfo {
    type V = GoldSourceInfoView;

    open spec fn view(&self) -> GoldSourceInfoView {
        GoldSourceInfoView {
            address: self.address@,
            name: self.name@,
            map: self.map@,
            folder: self.folder@,
            game: self.game@,
            players: self.players,
            max_players: self.max_players,
            protocol: self.protocol,
            server_type: self.server_type,
            environment: self.environment,
            visibility: self.visibility,
            mod_half_life: self.mod_half_life,
            mod_fields: self.mod_fields.deep_view(),
            vac: self.vac,
            bots: self.bots,
        }
    }
}

impl DeepView for GoldSourceResponseInfo {
    type V = GoldSourceInfoView;

    open spec fn deep_view(&self) -> GoldSourceInfoView {
        self@
    }
}

/// The mod-type byte at `pos`. Every byte is accepted.
pub open spec fn spec_mod_type_at(s: Seq<u8>, pos: int) -> Result<(ModType, usize), DecodeError> {
    match spec_le_u8(s, pos) {
        Err(e) => Err(e),
        Ok((value, n)) => Ok((spec_mod_type(value), n)),
    }
}

/// The DLL byte at `pos`. Every byte is accepted.
pub open spec fn spec_dll_at(s: Seq<u8>, pos: int) -> Result<(ModDLL, usize), DecodeError> {
    match spec_le_u8(s, pos) {
        Err(e) => Err(e),
        Ok((value, n)) => Ok((spec_mod_dll(value), n)),
    }
}

/// The mod block at `pos`, read only where `is_mod` holds: link, download
/// link, a byte that has to be zero, version, size, mod type, DLL. Where
/// `is_mod` does not hold nothing is read.
pub open spec fn spec_mod_fields(s: Seq<u8>, pos: int, is_mod: bool) -> Result<
    (Option<HalfLifeModView>, usize),
    DecodeError,
> {
    if is_mod {
        let link = spec_c_string(s, pos);
        let p1 = advance(Ok(pos), link);
        let download_link = spec_c_string(s, offset_of(p1));
        let p2 = advance(p1, download_link);
        let null = spec_parse_null(s, offset_of(p2));
        let p3 = advance(p2, null);
        let version = spec_le_i32(s, offset_of(p3));
        let p4 = advance(p3, version);
        let size = spec_le_i32(s, offset_of(p4));
        let p5 = advance(p4, size);
        let mod_type = spec_mod_type_at(s, offset_of(p5));
        let p6 = advance(p5, mod_type);
        let dll = spec_dll_at(s, offset_of(p6));
        let p7 = advance(p6, dll);
        match p7 {
            Err(e) => Err(e),
            Ok(end) => Ok(
                (
                    Some(
                        HalfLifeModView {
                            link: value_of(link),
                            download_link: value_of(download_link),
                            version: value_of(version),
                            size: value_of(size),
                            mod_type: value_of(mod_type),
                            dll: value_of(dll),
                        },
                    ),
                    (end - pos) as usize,
                ),
            ),
        }
    } else {
        Ok((None, 0usize))
    }
}

/// The GoldSource INFO record at `pos`, with the number of bytes it takes up.
pub open spec fn spec_goldsource_info(s: Seq<u8>, pos: int) -> Result<
    (GoldSourceInfoView, usize),
    DecodeError,
> {
    let address = spec_c_string(s, pos);
    let p1 = advance(Ok(pos), address);
    let name = spec_c_string(s, offset_of(p1));
    let p2 = advance(p1, name);
    let map = spec_c_string(s, offset_of(p2));
    let p3 = advance(p2, map);
    let folder = spec_c_string(s, offset_of(p3));
    let p4 = advance(p3, folder);
    let game = spec_c_string(s, offset_of(p4));
    let p5 = advance(p4, game);
    let players = spec_le_u8(s, offset_of(p5));
    let p6 = advance(p5, players);
    let max_players = spec_le_u8(s, offset_of(p6));
    let p7 = advance(p6, max_players);
    let protocol = spec_le_u8(s, offset_of(p7));
    let p8 = advance(p7, protocol);
    let server_type = spec_server_type_at(s, offset_of(p8));
    let p9 = advance(p8, server_type);
    let environment = spec_environment_at(s, offset_of(p9));
    let p10 = advance(p9, environment);
    let visibility = spec_parse_bool(s, offset_of(p10));
    let p11 = advance(p10, visibility);
    let mod_half_life = spec_parse_bool(s, offset_of(p11));
    let p12 = advance(p11, mod_half_life);
    let mod_fields = spec_mod_fields(s, offset_of(p12), value_of(mod_half_life));
    let p13 = advance(p12, mod_fields);
    let vac = spec_parse_bool(s, offset_of(p13));
    let p14 = advance(p13, vac);
    let bots = spec_le_u8(s, offset_of(p14));
    let p15 = advance(p14, bots);
    match p15 {
        Err(e) => Err(e),
        Ok(end) => Ok(
            (
                GoldSourceInfoView {
                    address: value_of(address),
                    name: value_of(name),
                    map: value_of(map),
                    folder: value_of(folder),
                    game: value_of(game),
                    players: value_of(players),
                    max_players: value_of(max_players),
                    protocol: value_of(protocol),
                    server_type: value_of(server_type),
                    environment: value_of(environment),
                    visibility: value_of(visibility),
                    mod_half_life: value_of(mod_half_life),
                    mod_fields: value_of(mod_fields),
                    vac: value_of(vac),
                    bots: value_of(bots),
                },
                (end - pos) as usize,
            ),
        ),
    }
}

/// What decoding the buffer `s` as a GoldSource INFO record gives under the
/// policy `completion`.
pub open spec fn spec_parse_goldsource_info(s: Seq<u8>, completion: Completion) -> Result<
    GoldSourceInfoView,
    DecodeError,
> {
    match spec_goldsource_info(s, 0) {
        Err(e) => Err(e),
        Ok((info, n)) => match spec_check_complete(s, n as int, completion) {
            Err(e) => Err(e),
            Ok(_) => Ok(info),
        },
    }
}

/// Every record of the GoldSource layout that decodes, under either policy,
/// has its mod block exactly when its mod flag is set.
pub proof fn lemma_goldsource_info_presence(s: Seq<u8>, completion: Completion)
    ensures
        spec_parse_goldsource_info(s, completion) matches Ok(info) ==> (info.mod_fields is Some
            <==> info.mod_half_life),
{
}

fn mod_type(input: &[u8], offset: usize) -> (r: Result<(ModType, usize), DecodeError>)
    ensures
        r == spec_mod_type_at(input@, offset as int),
        r matches Ok((_, n)) ==> within(input@, offset, n),
{
    let (value, n) = le_u8(input, offset)?;
    Ok((ModType::from(value), n))
}

fn dll(input: &[u8], offset: usize) -> (r: Result<(ModDLL, usize), DecodeError>)
    ensures
        r == spec_dll_at(input@, offset as int),
        r matches Ok((_, n)) ==> within(input@, offset, n),
{
    let (value, n) = le_u8(input, offset)?;
    Ok((ModDLL::from(value), n))
}

fn mod_fields(input: &[u8], offset: usize, is_mod: bool) -> (r: Result<
    (Option<HalfLifeMod>, usize),
    DecodeError,
>)
    requires
        offset <= input@.len(),
    ensures
        same_step(r, spec_mod_fields(input@, offset as int, is_mod)),
        r matches Ok((_, n)) ==> within(input@, offset, n),
{
    if is_mod {
        let mut pos = offset;
        let (link, n) = c_string(input, pos)?;
        pos += n;
        let (download_link, n) = c_string(input, pos)?;
        pos += n;
        let (_, n) = parse_null(input, pos)?;
        pos += n;
        let (version, n) = le_i32(input, pos)?;
        pos += n;
        let (size, n) = le_i32(input, pos)?;
        pos += n;
        let (mod_type, n) = mod_type(input, pos)?;
        pos += n;
        let (dll, n) = dll(input, pos)?;
        pos += n;
        Ok((Some(HalfLifeMod { link, download_link, version, size, mod_type, dll }), pos - offset))
    } else {
        Ok((None, 0))
    }
}

#[verifier::rlimit(50)]
fn goldsource_info(input: &[u8], offset: usize) -> (r: Result<
    (GoldSourceResponseInfo, usize),
    DecodeError,
>)
    ensures
        same_step(r, spec_goldsource_info(input@, offset as int)),
        r matches Ok((_, n)) ==> within(input@, offset, n),
{
    let mut pos = offset;
    let (address, n) = c_string(input, pos)?;
    pos += n;
    let (name, n) = c_string(input, pos)?;
    pos += n;
    let (map, n) = c_string(input, pos)?;
    pos += n;
    let (folder, n) = c_string(input, pos)?;
    pos += n;
    let (game, n) = c_string(input, pos)?;
    pos += n;
    let (players, n) = le_u8(input, pos)?;
    pos += n;
    let (max_players, n) = le_u8(input, pos)?;
    pos += n;
    let (protocol, n) = le_u8(input, pos)?;
    pos += n;
    let (server_type, n) = server_type(input, pos)?;
    pos += n;
    let (environment, n) = environment(input, pos)?;
    pos += n;
    let (visibility, n) = parse_bool(input, pos)?;
    pos += n;
    let (mod_half_life, n) = parse_bool(input, pos)?;
    pos += n;
    let (mod_fields, n) = mod_fields(input, pos, mod_half_life)?;
    pos += n;
    let (vac, n) = parse_bool(input, pos)?;
    pos += n;
    let (bots, n) = le_u8(input, pos)?;
    pos += n;
    Ok(
        (
            GoldSourceResponseInfo {
                address,
                name,
                map,
                folder,
                game,
                players,
                max_players,
                protocol,
                server_type,
                environment,
                visibility,
                mod_half_life,
                mod_fields,
                vac,
                bots,
            },
            pos - offset,
        ),
    )
}

/// Decodes a record of the GoldSource layout from `input`, the payload of
/// the response without the message tag, under the completion policy
/// `completion`.
pub fn parse_goldsource_info_with(input: &[u8], completion: Completion) -> (r: Result<
    GoldSourceResponseInfo,
    DecodeError,
>)
    ensures
        same_result(r, spec_parse_goldsource_info(input@, completion)),
        r matches Ok(info) ==> (info.mod_fields is Some <==> info.mod_half_life),
{
    let (info, n) = goldsource_info(input, 0)?;
    check_complete(input, n, completion)?;
    proof {
        lemma_goldsource_info_presence(input@, completion);
    }
    Ok(info)
}

/// Decodes the INFO record of a GoldSource server from `input`, the payload
/// of the response without the message tag. The policy is
/// `Completion::Strict`: the record has to fill the buffer.
pub fn parse_goldsource_info(input: &[u8]) -> (r: Result<GoldSourceResponseInfo, DecodeError>)
    ensures
        same_result(r, spec_parse_goldsource_info(input@, Completion::Strict)),
        r matches Ok(info) ==> (info.mod_fields is Some <==> info.mod_half_life),
{
    parse_goldsource_info_with(input, Completion::Strict)
}

/// Decodes the INFO record of a server older than GoldSource from `input`,
/// the payload of the response without the message tag. The policy is
/// `Completion::Lenient`: what follows the record is ignored.
pub fn parse_pregoldsource_info(input: &[u8]) -> (r: Result<
    PreGoldSourceResponseInfo,
    DecodeError,
>)
    ensures
        same_result(r, spec_parse_goldsource_info(input@, Completion::Lenient)),
        r matches Ok(info) ==> (info.mod_fields is Some <==> info.mod_half_life),
{
    parse_goldsource_info_with(input, Completion::Lenient)
}

} // verus!
