//! The INFO response of the Source engine.
//!
//! The record is read in one pass, front to back. Two parts of it are there
//! only on a condition that an earlier field settles: the three bytes of The
//! Ship follow only an application id of that game, and each of the trailing
//! optional fields follows only where its bit is set in the extra data flag.
//! The flag byte itself may be missing, which counts as a flag of zero.

use crate::error::DecodeError;
use crate::info::{
    check_complete, environment, server_type, spec_check_complete, spec_environment_at,
    spec_server_type_at, Completion, Environment, ServerType,
};
use crate::parser_util::{
    advance, c_string, le_i16, le_u64, le_u8, offset_of, opt_le_u8, parse_bool, same_result,
    same_step, spec_c_string, spec_le_i16, spec_le_u64, spec_le_u8, spec_opt_le_u8,
    spec_parse_bool, terminator_index, utf8_lossy, value_of, within,
};
use vstd::prelude::*;
use vstd::std_specs::convert::FromSpecImpl;

verus! {

/// The game modes of The Ship.
#[allow(non_camel_case_types)]
#[derive(Clone, Copy, Debug, PartialEq, Eq, Structural)]
pub enum TheShipGameMode {
    /// 0
    Hunt,
    /// 1
    Elimination,
    /// 2
    Duel,
    /// 3
    Deathmatch,
    /// 4
    VIP_Team,
    /// 5
    Team_Elimination,
    /// Any other byte, kept as it was read.
    Other(u8),
}

/// The game mode that the byte `value` stands for.
pub open spec fn spec_game_mode(value: u8) -> TheShipGameMode {
    if value == 0 {
        TheShipGameMode::Hunt
    } else if value == 1 {
        TheShipGameMode::Elimination
    } else if value == 2 {
        TheShipGameMode::Duel
    } else if value == 3 {
        TheShipGameMode::Deathmatch
    } else if value == 4 {
        TheShipGameMode::VIP_Team
    } else if value == 5 {
        TheShipGameMode::Team_Elimination
    } else {
        TheShipGameMode::Other(value)
    }
}

impl From<u8> for TheShipGameMode {
    fn from(input: u8) -> (mode: TheShipGameMode)
        ensures
            mode == spec_game_mode(input),
    {
        match input {
            0 => TheShipGameMode::Hunt,
            1 => TheShipGameMode::Elimination,
            2 => TheShipGameMode::Duel,
            3 => TheShipGameMode::Deathmatch,
            4 => TheShipGameMode::VIP_Team,
            5 => TheShipGameMode::Team_Elimination,
            _ => TheShipGameMode::Other(input),
        }
    }
}

impl FromSpecImpl<u8> for TheShipGameMode {
    open spec fn obeys_from_spec() -> bool {
        true
    }

    open spec fn from_spec(input: u8) -> TheShipGameMode {
        spec_game_mode(input)
    }
}

/// The three fields that only servers of The Ship send.
#[derive(Clone, Copy, Debug, PartialEq, Eq, Structural)]
pub struct TheShipFields {
    /// The game mode.
    pub mode: TheShipGameMode,
    /// How many witnesses it takes to have a player arrested.
    pub witnesses: u8,
    /// How many seconds pass before a witnessed player is arrested.
    pub duration: u8,
}

/// The optional fields at the end of the record. Each is there exactly when
/// its bit is set in the extra data flag.
#[derive(Clone, Debug, PartialEq, Eq)]
pub struct ExtraDataFields {
    /// Bit `0x80`: the port of the game server.
    pub port: Option<i16>,
    /// Bit `0x10`: the SteamID of the server.
    pub steam_id: Option<u64>,
    /// Bit `0x40`: the port of the SourceTV relay.
    pub source_tv_port: Option<i16>,
    /// Bit `0x40`: the name of the SourceTV relay.
    pub source_tv_name: Option<String>,
    /// Bit `0x20`: the tags that describe the game.
    pub keywords: Option<String>,
    /// Bit `0x01`: the 64-bit game id, whose low 24 bits are the application
    /// id in full.
    pub game_id: Option<u64>,
}

/// What an `ExtraDataFields` holds, as mathematical values.
pub struct ExtraDataFieldsView {
    pub port: Option<i16>,
    pub steam_id: Option<u64>,
    pub source_tv_port: Option<i16>,
    pub source_tv_name: Option<Seq<char>>,
    pub keywords: Option<Seq<char>>,
    pub game_id: Option<u64>,
}

impl View for ExtraDataFields {
    type V = ExtraDataFieldsView;

    open spec fn view(&self) -> ExtraDataFieldsView {
        ExtraDataFieldsView {
            port: self.port,
            steam_id: self.steam_id,
            source_tv_port: self.source_tv_port,
            source_tv_name: self.source_tv_name.deep_view(),
            keywords: self.keywords.deep_view(),
            game_id: self.game_id,
        }
    }
}

impl DeepView for ExtraDataFields {
    type V = ExtraDataFieldsView;

    open spec fn deep_view(&self) -> ExtraDataFieldsView {
        self@
    }
}

/// The INFO record of a Source server.
#[derive(Clone, Debug, PartialEq, Eq)]
pub struct SourceResponseInfo {
    /// The protocol version of the server.
    pub protocol: u8,
    /// The name of the server.
    pub name: String,
    /// The map that is loaded.
    pub map: String,
    /// The folder that holds the game files.
    pub folder: String,
    /// The full name of the game.
    pub game: String,
    /// The Steam application id of the game.
    pub app_id: i16,
    /// The players on the server, those still connecting included.
    pub players: u8,
    /// The most players the server takes.
    pub max_players: u8,
    /// The bots on the server.
    pub bots: u8,
    /// How the server is hosted.
    pub server_type: ServerType,
    /// The operating system of the server.
    pub environment: Environment,
    /// True when the server asks for a password.
    pub visibility: bool,
    /// True when the server is secured by VAC.
    pub vac: bool,
    /// The fields of The Ship, present exactly when `app_id` is one of the
    /// ids of that game.
    pub the_ship: Option<TheShipFields>,
    /// The version of the game on the server.
    pub version: String,
    /// The extra data flag; zero where the server sent none.
    pub extra_data_flag: u8,
    /// The optional fields that the flag announces.
    pub extra_data_fields: ExtraDataFields,
}

/// What a `SourceResponseInfo` holds, as mathematical values.
pub struct SourceInfoView {
    pub protocol: u8,
    pub name: Seq<char>,
    pub map: Seq<char>,
    pub folder: Seq<char>,
    pub game: Seq<char>,
    pub app_id: i16,
    pub players: u8,
    pub max_players: u8,
    pub bots: u8,
    pub server_type: ServerType,
    pub environment: Environment,
    pub visibility: bool,
    pub vac: bool,
    pub the_ship: Option<TheShipFields>,
    pub version: Seq<char>,
    pub extra_data_flag: u8,
    pub extra_data_fields: ExtraDataFieldsView,
}

impl View for SourceResponseInfo {
    type V = SourceInfoView;

    open spec fn view(&self) -> SourceInfoView {
        SourceInfoView {
            protocol: self.protocol,
            name: self.name@,
            map: self.map@,
            folder: self.folder@,
            game: self.game@,
            app_id: self.app_id,
            players: self.players,
            max_players: self.max_players,
            bots: self.bots,
            server_type: self.server_type,
            environment: self.environment,
            visibility: self.visibility,
            vac: self.vac,
            the_ship: self.the_ship,
            version: self.version@,
            extra_data_flag: self.extra_data_flag,
            extra_data_fields: self.extra_data_fields@,
        }
    }
}

impl DeepView for SourceResponseInfo {
    type V = SourceInfoView;

    open spec fn deep_view(&self) -> SourceInfoView {
        self@
    }
}

/// True for the application ids of The Ship and of its tutorial builds. The
/// ids are a closed list, not a range.
pub open spec fn spec_is_the_ship(app_id: i16) -> bool {
    app_id == 2400 || app_id == 2401 || app_id == 2402 || app_id == 2412 || app_id == 2430
        || app_id == 2405 || app_id == 2406
}

/// The bit of the extra data flag that announces the port.
pub const EDF_PORT: u8 = 0x80;

/// The bit of the extra data flag that announces the SteamID.
pub const EDF_STEAM_ID: u8 = 0x10;

/// The bit of the extra data flag that announces port and name of the
/// SourceTV relay.
pub const EDF_SOURCE_TV: u8 = 0x40;

/// The bit of the extra data flag that announces the keywords.
pub const EDF_KEYWORDS: u8 = 0x20;

/// The bit of the extra data flag that announces the game id.
pub const EDF_GAME_ID: u8 = 0x01;

/// True when `flag` has the bit `bit` set.
pub open spec fn spec_has_flag(flag: u8, bit: u8) -> bool {
    flag & bit != 0
}

/// The fields of The Ship at `pos`, read only where `is_ship` holds: mode,
/// witnesses, duration, one byte each.
pub open spec fn spec_the_ship(s: Seq<u8>, pos: int, is_ship: bool) -> Result<
    (Option<TheShipFields>, usize),
    DecodeError,
> {
    if is_ship {
        let mode = spec_le_u8(s, pos);
        let p1 = advance(Ok(pos), mode);
        let witnesses = spec_le_u8(s, offset_of(p1));
        let p2 = advance(p1, witnesses);
        let duration = spec_le_u8(s, offset_of(p2));
        let p3 = advance(p2, duration);
        match p3 {
            Err(e) => Err(e),
            Ok(end) => Ok(
                (
                    Some(
                        TheShipFields {
                            mode: spec_game_mode(value_of(mode)),
                            witnesses: value_of(witnesses),
                            duration: value_of(duration),
                        },
                    ),
                    (end - pos) as usize,
                ),
            ),
        }
    } else {
        Ok((None, 0usize))
    }
}

/// A 16-bit field at `pos` that is there only where `present` holds.
pub open spec fn spec_optional_i16(s: Seq<u8>, pos: int, present: bool) -> Result<
    (Option<i16>, usize),
    DecodeError,
> {
    if present {
        match spec_le_i16(s, pos) {
            Err(e) => Err(e),
            Ok((value, n)) => Ok((Some(value), n)),
        }
    } else {
        Ok((None, 0usize))
    }
}

/// A 64-bit field at `pos` that is there only where `present` holds.
pub open spec fn spec_optional_u64(s: Seq<u8>, pos: int, present: bool) -> Result<
    (Option<u64>, usize),
    DecodeError,
> {
    if present {
        match spec_le_u64(s, pos) {
            Err(e) => Err(e),
            Ok((value, n)) => Ok((Some(value), n)),
        }
    } else {
        Ok((None, 0usize))
    }
}

/// A string at `pos` that is there only where `present` holds.
pub open spec fn spec_optional_c_string(s: Seq<u8>, pos: int, present: bool) -> Result<
    (Option<Seq<char>>, usize),
    DecodeError,
> {
    if present {
        match spec_c_string(s, pos) {
            Err(e) => Err(e),
            Ok((value, n)) => Ok((Some(value), n)),
        }
    } else {
        Ok((None, 0usize))
    }
}

/// The optional fields at `pos` that `flag` announces, in the order in which
/// they are sent: port, SteamID, SourceTV port and name, keywords, game id.
pub open spec fn spec_extra_data_fields(s: Seq<u8>, pos: int, flag: u8) -> Result<
    (ExtraDataFieldsView, usize),
    DecodeError,
> {
    let port = spec_optional_i16(s, pos, spec_has_flag(flag, EDF_PORT));
    let p1 = advance(Ok(pos), port);
    let steam_id = spec_optional_u64(s, offset_of(p1), spec_has_flag(flag, EDF_STEAM_ID));
    let p2 = advance(p1, steam_id);
    let source_tv_port = spec_optional_i16(s, offset_of(p2), spec_has_flag(flag, EDF_SOURCE_TV));
    let p3 = advance(p2, source_tv_port);
    let source_tv_name = spec_optional_c_string(
        s,
        offset_of(p3),
        spec_has_flag(flag, EDF_SOURCE_TV),
    );
    let p4 = advance(p3, source_tv_name);
    let keywords = spec_optional_c_string(s, offset_of(p4), spec_has_flag(flag, EDF_KEYWORDS));
    let p5 = advance(p4, keywords);
    let game_id = spec_optional_u64(s, offset_of(p5), spec_has_flag(flag, EDF_GAME_ID));
    let p6 = advance(p5, game_id);
    match p6 {
        Err(e) => Err(e),
        Ok(end) => Ok(
            (
                ExtraDataFieldsView {
                    port: value_of(port),
                    steam_id: value_of(steam_id),
                    source_tv_port: value_of(source_tv_port),
                    source_tv_name: value_of(source_tv_name),
                    keywords: value_of(keywords),
                    game_id: value_of(game_id),
                },
                (end - pos) as usize,
            ),
        ),
    }
}

/// The extra data flag that an optional flag byte stands for: zero where the
/// byte is missing.
pub open spec fn spec_flag_or_zero(flag: Option<u8>) -> u8 {
    match flag {
        Some(value) => value,
        None => 0,
    }
}

/// The Source INFO record at `pos`, with the number of bytes it takes up.
pub open spec fn spec_source_info(s: Seq<u8>, pos: int) -> Result<
    (SourceInfoView, usize),
    DecodeError,
> {
    let protocol = spec_le_u8(s, pos);
    let p1 = advance(Ok(pos), protocol);
    let name = spec_c_string(s, offset_of(p1));
    let p2 = advance(p1, name);
    let map = spec_c_string(s, offset_of(p2));
    let p3 = advance(p2, map);
    let folder = spec_c_string(s, offset_of(p3));
    let p4 = advance(p3, folder);
    let game = spec_c_string(s, offset_of(p4));
    let p5 = advance(p4, game);
    let app_id = spec_le_i16(s, offset_of(p5));
    let p6 = advance(p5, app_id);
    let players = spec_le_u8(s, offset_of(p6));
    let p7 = advance(p6, players);
    let max_players = spec_le_u8(s, offset_of(p7));
    let p8 = advance(p7, max_players);
    let bots = spec_le_u8(s, offset_of(p8));
    let p9 = advance(p8, bots);
    let server_type = spec_server_type_at(s, offset_of(p9));
    let p10 = advance(p9, server_type);
    let environment = spec_environment_at(s, offset_of(p10));
    let p11 = advance(p10, environment);
    let visibility = spec_parse_bool(s, offset_of(p11));
    let p12 = advance(p11, visibility);
    let vac = spec_parse_bool(s, offset_of(p12));
    let p13 = advance(p12, vac);
    let the_ship = spec_the_ship(s, offset_of(p13), spec_is_the_ship(value_of(app_id)));
    let p14 = advance(p13, the_ship);
    let version = spec_c_string(s, offset_of(p14));
    let p15 = advance(p14, version);
    let flag = spec_opt_le_u8(s, offset_of(p15));
    let p16 = advance(p15, Ok::<(Option<u8>, usize), DecodeError>(flag));
    let extra_data_flag = spec_flag_or_zero(flag.0);
    let extra_data_fields = spec_extra_data_fields(s, offset_of(p16), extra_data_flag);
    let p17 = advance(p16, extra_data_fields);
    match p17 {
        Err(e) => Err(e),
        Ok(end) => Ok(
            (
                SourceInfoView {
                    protocol: value_of(protocol),
                    name: value_of(name),
                    map: value_of(map),
                    folder: value_of(folder),
                    game: value_of(game),
                    app_id: value_of(app_id),
                    players: value_of(players),
                    max_players: value_of(max_players),
                    bots: value_of(bots),
                    server_type: value_of(server_type),
                    environment: value_of(environment),
                    visibility: value_of(visibility),
                    vac: value_of(vac),
                    the_ship: value_of(the_ship),
                    version: value_of(version),
                    extra_data_flag,
                    extra_data_fields: value_of(extra_data_fields),
                },
                (end - pos) as usize,
            ),
        ),
    }
}

/// What decoding the buffer `s` as a Source INFO record gives under the
/// policy `completion`.
pub open spec fn spec_parse_source_info(s: Seq<u8>, completion: Completion) -> Result<
    SourceInfoView,
    DecodeError,
> {
    match spec_source_info(s, 0) {
        Err(e) => Err(e),
        Ok((info, n)) => match spec_check_complete(s, n as int, completion) {
            Err(e) => Err(e),
            Ok(_) => Ok(info),
        },
    }
}

/// The buffer of 38 bytes that is zero everywhere but at index 15, where it
/// holds `flag`. Read as a Source INFO record it is a record of empty strings
/// and zero numbers with the flag byte `flag`, followed by 22 zero bytes:
/// room for all the optional fields at once.
pub open spec fn spec_flag_witness(flag: u8) -> Seq<u8> {
    Seq::new(
        38,
        |i: int|
            if i == 15 {
                flag
            } else {
                0u8
            },
    )
}

/// Each optional field is governed by its own bit. Whatever the buffer, the
/// offset and the flag: if the optional fields decode, the port is there
/// exactly when bit `0x80` is set, the SteamID exactly when bit `0x10` is
/// set, the port and the name of the SourceTV relay exactly when bit `0x40`
/// is set, the keywords exactly when bit `0x20` is set, and the game id
/// exactly when bit `0x01` is set. No other bit has a say in any of them.
pub proof fn lemma_extra_data_presence(s: Seq<u8>, pos: int, flag: u8)
    ensures
        spec_extra_data_fields(s, pos, flag) matches Ok((fields, _)) ==> {
            &&& fields.port is Some <==> spec_has_flag(flag, EDF_PORT)
            &&& fields.steam_id is Some <==> spec_has_flag(flag, EDF_STEAM_ID)
            &&& fields.source_tv_port is Some <==> spec_has_flag(flag, EDF_SOURCE_TV)
            &&& fields.source_tv_name is Some <==> spec_has_flag(flag, EDF_SOURCE_TV)
            &&& fields.keywords is Some <==> spec_has_flag(flag, EDF_KEYWORDS)
            &&& fields.game_id is Some <==> spec_has_flag(flag, EDF_GAME_ID)
        },
{
}

/// The conditions on which the optional parts of a record are there: the
/// fields of The Ship exactly when the application id is one of the ids of
/// The Ship, and each optional field exactly when its bit is set in the flag
/// of the record.
pub open spec fn spec_presence(info: SourceInfoView) -> bool {
    let flag = info.extra_data_flag;
    let fields = info.extra_data_fields;
    &&& info.the_ship is Some <==> spec_is_the_ship(info.app_id)
    &&& fields.port is Some <==> spec_has_flag(flag, EDF_PORT)
    &&& fields.steam_id is Some <==> spec_has_flag(flag, EDF_STEAM_ID)
    &&& fields.source_tv_port is Some <==> spec_has_flag(flag, EDF_SOURCE_TV)
    &&& fields.source_tv_name is Some <==> spec_has_flag(flag, EDF_SOURCE_TV)
    &&& fields.keywords is Some <==> spec_has_flag(flag, EDF_KEYWORDS)
    &&& fields.game_id is Some <==> spec_has_flag(flag, EDF_GAME_ID)
}

/// Every Source INFO record that decodes, under either policy, meets
/// `spec_presence`, whatever else the buffer holds: what is there of the
/// optional parts is told by the application id and the flag alone.
pub proof fn lemma_source_info_presence(s: Seq<u8>, completion: Completion)
    ensures
        spec_parse_source_info(s, completion) matches Ok(info) ==> spec_presence(info),
{
}

/// In `spec_flag_witness(flag)` a string read anywhere but at the flag byte
/// is the empty string, and takes up one byte.
proof fn lemma_witness_strings(flag: u8, pos: int)
    requires
        0 <= pos < spec_flag_witness(flag).len(),
        pos != 15,
    ensures
        spec_c_string(spec_flag_witness(flag), pos) == Ok::<(Seq<char>, usize), DecodeError>(
            (utf8_lossy(Seq::empty()), 1usize),
        ),
{
    let s = spec_flag_witness(flag);
    assert(terminator_index(s, pos) == pos);
    assert(s.subrange(pos, pos) =~= Seq::empty());
}

/// In `spec_flag_witness(flag)` the optional fields behind the flag byte
/// decode, whatever `flag` is.
proof fn lemma_witness_extra_data(flag: u8)
    ensures
        spec_extra_data_fields(spec_flag_witness(flag), 16, flag) is Ok,
{
    let s = spec_flag_witness(flag);
    let port = spec_optional_i16(s, 16, spec_has_flag(flag, EDF_PORT));
    let p1 = advance(Ok(16), port);
    assert(p1 is Ok && 16 <= offset_of(p1) <= 18);
    let steam_id = spec_optional_u64(s, offset_of(p1), spec_has_flag(flag, EDF_STEAM_ID));
    let p2 = advance(p1, steam_id);
    assert(p2 is Ok && 16 <= offset_of(p2) <= 26);
    let source_tv_port = spec_optional_i16(s, offset_of(p2), spec_has_flag(flag, EDF_SOURCE_TV));
    let p3 = advance(p2, source_tv_port);
    assert(p3 is Ok && 16 <= offset_of(p3) <= 28);
    lemma_witness_strings(flag, offset_of(p3));
    let source_tv_name = spec_optional_c_string(
        s,
        offset_of(p3),
        spec_has_flag(flag, EDF_SOURCE_TV),
    );
    let p4 = advance(p3, source_tv_name);
    assert(p4 is Ok && 16 <= offset_of(p4) <= 29);
    lemma_witness_strings(flag, offset_of(p4));
    let keywords = spec_optional_c_string(s, offset_of(p4), spec_has_flag(flag, EDF_KEYWORDS));
    let p5 = advance(p4, keywords);
    assert(p5 is Ok && 16 <= offset_of(p5) <= 30);
    let game_id = spec_optional_u64(s, offset_of(p5), spec_has_flag(flag, EDF_GAME_ID));
    let p6 = advance(p5, game_id);
    assert(p6 is Ok);
}

/// Every flag byte can be met. For each of the 256 values of `flag` there is
/// a buffer, `spec_flag_witness(flag)`, that decodes to a record with that
/// flag, and so with the optional fields that the flag announces and no
/// others: no combination of bits rules itself out. The buffer has room for
/// all optional fields, so that bytes may be left over behind the record;
/// the policy is therefore the lenient one.
pub proof fn lemma_every_flag_decodes(flag: u8)
    ensures
        spec_parse_source_info(spec_flag_witness(flag), Completion::Lenient) matches Ok(info)
            && info.extra_data_flag == flag && spec_presence(info),
{
    let s = spec_flag_witness(flag);
    lemma_witness_strings(flag, 1);
    lemma_witness_strings(flag, 2);
    lemma_witness_strings(flag, 3);
    lemma_witness_strings(flag, 4);
    lemma_witness_strings(flag, 14);
    lemma_witness_extra_data(flag);
    let protocol = spec_le_u8(s, 0);
    let p1 = advance(Ok(0), protocol);
    let name = spec_c_string(s, offset_of(p1));
    let p2 = advance(p1, name);
    let map = spec_c_string(s, offset_of(p2));
    let p3 = advance(p2, map);
    let folder = spec_c_string(s, offset_of(p3));
    let p4 = advance(p3, folder);
    let game = spec_c_string(s, offset_of(p4));
    let p5 = advance(p4, game);
    assert(p5 == Ok::<int, DecodeError>(5));
    let app_id = spec_le_i16(s, offset_of(p5));
    assert(value_of(app_id) == 0);
    let p6 = advance(p5, app_id);
    let players = spec_le_u8(s, offset_of(p6));
    let p7 = advance(p6, players);
    let max_players = spec_le_u8(s, offset_of(p7));
    let p8 = advance(p7, max_players);
    let bots = spec_le_u8(s, offset_of(p8));
    let p9 = advance(p8, bots);
    assert(p9 == Ok::<int, DecodeError>(10));
    let server_type = spec_server_type_at(s, offset_of(p9));
    let p10 = advance(p9, server_type);
    let environment = spec_environment_at(s, offset_of(p10));
    let p11 = advance(p10, environment);
    let visibility = spec_parse_bool(s, offset_of(p11));
    let p12 = advance(p11, visibility);
    let vac = spec_parse_bool(s, offset_of(p12));
    let p13 = advance(p12, vac);
    assert(p13 == Ok::<int, DecodeError>(14));
    let the_ship = spec_the_ship(s, offset_of(p13), spec_is_the_ship(value_of(app_id)));
    let p14 = advance(p13, the_ship);
    let version = spec_c_string(s, offset_of(p14));
    let p15 = advance(p14, version);
    assert(p15 == Ok::<int, DecodeError>(15));
    let flag_byte = spec_opt_le_u8(s, offset_of(p15));
    assert(flag_byte == (Some(flag), 1usize));
    let p16 = advance(p15, Ok::<(Option<u8>, usize), DecodeError>(flag_byte));
    assert(p16 == Ok::<int, DecodeError>(16));
    assert(spec_source_info(s, 0) is Ok);
    lemma_source_info_presence(s, Completion::Lenient);
}

/// Tells whether `app_id` is one of the ids of The Ship.
pub fn is_the_ship(app_id: i16) -> (b: bool)
    ensures
        b == spec_is_the_ship(app_id),
{
    match app_id {
        2400 | 2401 | 2402 | 2412 => true,
        2430 | 2405 | 2406 => true,
        _ => false,
    }
}

/// Tells whether `flag` has the bit `bit` set.
pub fn has_flag(flag: u8, bit: u8) -> (b: bool)
    ensures
        b == spec_has_flag(flag, bit),
{
    flag & bit != 0
}

fn the_ship(input: &[u8], offset: usize, is_ship: bool) -> (r: Result<
    (Option<TheShipFields>, usize),
    DecodeError,
>)
    requires
        offset <= input@.len(),
    ensures
        r == spec_the_ship(input@, offset as int, is_ship),
        r matches Ok((_, n)) ==> within(input@, offset, n),
{
    if is_ship {
        let mut pos = offset;
        let (mode, n) = le_u8(input, pos)?;
        pos += n;
        let (witnesses, n) = le_u8(input, pos)?;
        pos += n;
        let (duration, n) = le_u8(input, pos)?;
        pos += n;
        Ok((Some(TheShipFields { mode: TheShipGameMode::from(mode), witnesses, duration }), pos - offset))
    } else {
        Ok((None, 0))
    }
}

fn port(input: &[u8], offset: usize, flag: u8) -> (r: Result<(Option<i16>, usize), DecodeError>)
    requires
        offset <= input@.len(),
    ensures
        r == spec_optional_i16(input@, offset as int, spec_has_flag(flag, EDF_PORT)),
        r matches Ok((_, n)) ==> within(input@, offset, n),
{
    if has_flag(flag, EDF_PORT) {
        let (port, n) = le_i16(input, offset)?;
        Ok((Some(port), n))
    } else {
        Ok((None, 0))
    }
}

fn steam_id(input: &[u8], offset: usize, flag: u8) -> (r: Result<(Option<u64>, usize), DecodeError>)
    requires
        offset <= input@.len(),
    ensures
        r == spec_optional_u64(input@, offset as int, spec_has_flag(flag, EDF_STEAM_ID)),
        r matches Ok((_, n)) ==> within(input@, offset, n),
{
    if has_flag(flag, EDF_STEAM_ID) {
        let (steam_id, n) = le_u64(input, offset)?;
        Ok((Some(steam_id), n))
    } else {
        Ok((None, 0))
    }
}

fn source_tv_port(input: &[u8], offset: usize, flag: u8) -> (r: Result<
    (Option<i16>, usize),
    DecodeError,
>)
    requires
        offset <= input@.len(),
    ensures
        r == spec_optional_i16(input@, offset as int, spec_has_flag(flag, EDF_SOURCE_TV)),
        r matches Ok((_, n)) ==> within(input@, offset, n),
{
    if has_flag(flag, EDF_SOURCE_TV) {
        let (port, n) = le_i16(input, offset)?;
        Ok((Some(port), n))
    } else {
        Ok((None, 0))
    }
}

fn source_tv_name(input: &[u8], offset: usize, flag: u8) -> (r: Result<
    (Option<String>, usize),
    DecodeError,
>)
    requires
        offset <= input@.len(),
    ensures
        same_step(
            r,
            spec_optional_c_string(input@, offset as int, spec_has_flag(flag, EDF_SOURCE_TV)),
        ),
        r matches Ok((_, n)) ==> within(input@, offset, n),
{
    if has_flag(flag, EDF_SOURCE_TV) {
        let (name, n) = c_string(input, offset)?;
        Ok((Some(name), n))
    } else {
        Ok((None, 0))
    }
}

fn keywords(input: &[u8], offset: usize, flag: u8) -> (r: Result<
    (Option<String>, usize),
    DecodeError,
>)
    requires
        offset <= input@.len(),
    ensures
        same_step(
            r,
            spec_optional_c_string(input@, offset as int, spec_has_flag(flag, EDF_KEYWORDS)),
        ),
        r matches Ok((_, n)) ==> within(input@, offset, n),
{
    if has_flag(flag, EDF_KEYWORDS) {
        let (keywords, n) = c_string(input, offset)?;
        Ok((Some(keywords), n))
    } else {
        Ok((None, 0))
    }
}

fn game_id(input: &[u8], offset: usize, flag: u8) -> (r: Result<(Option<u64>, usize), DecodeError>)
    requires
        offset <= input@.len(),
    ensures
        r == spec_optional_u64(input@, offset as int, spec_has_flag(flag, EDF_GAME_ID)),
        r matches Ok((_, n)) ==> within(input@, offset, n),
{
    if has_flag(flag, EDF_GAME_ID) {
        let (game_id, n) = le_u64(input, offset)?;
        Ok((Some(game_id), n))
    } else {
        Ok((None, 0))
    }
}

fn extra_data_fields(input: &[u8], offset: usize, extra_data_flag: u8) -> (r: Result<
    (ExtraDataFields, usize),
    DecodeError,
>)
    requires
        offset <= input@.len(),
    ensures
        same_step(r, spec_extra_data_fields(input@, offset as int, extra_data_flag)),
        r matches Ok((_, n)) ==> within(input@, offset, n),
{
    let mut pos = offset;
    let (port, n) = port(input, pos, extra_data_flag)?;
    pos += n;
    let (steam_id, n) = steam_id(input, pos, extra_data_flag)?;
    pos += n;
    let (source_tv_port, n) = source_tv_port(input, pos, extra_data_flag)?;
    pos += n;
    let (source_tv_name, n) = source_tv_name(input, pos, extra_data_flag)?;
    pos += n;
    let (keywords, n) = keywords(input, pos, extra_data_flag)?;
    pos += n;
    let (game_id, n) = game_id(input, pos, extra_data_flag)?;
    pos += n;
    Ok(
        (
            ExtraDataFields { port, steam_id, source_tv_port, source_tv_name, keywords, game_id },
            pos - offset,
        ),
    )
}

#[verifier::rlimit(100)]
fn source_info(input: &[u8], offset: usize) -> (r: Result<(SourceResponseInfo, usize), DecodeError>)
    ensures
        same_step(r, spec_source_info(input@, offset as int)),
        r matches Ok((_, n)) ==> within(input@, offset, n),
{
    let mut pos = offset;
    let (protocol, n) = le_u8(input, pos)?;
    pos += n;
    let (name, n) = c_string(input, pos)?;
    pos += n;
    let (map, n) = c_string(input, pos)?;
    pos += n;
    let (folder, n) = c_string(input, pos)?;
    pos += n;
    let (game, n) = c_string(input, pos)?;
    pos += n;
    let (app_id, n) = le_i16(input, pos)?;
    pos += n;
    let (players, n) = le_u8(input, pos)?;
    pos += n;
    let (max_players, n) = le_u8(input, pos)?;
    pos += n;
    let (bots, n) = le_u8(input, pos)?;
    pos += n;
    let (server_type, n) = server_type(input, pos)?;
    pos += n;
    let (environment, n) = environment(input, pos)?;
    pos += n;
    let (visibility, n) = parse_bool(input, pos)?;
    pos += n;
    let (vac, n) = parse_bool(input, pos)?;
    pos += n;
    let (the_ship, n) = the_ship(input, pos, is_the_ship(app_id))?;
    pos += n;
    let (version, n) = c_string(input, pos)?;
    pos += n;
    let (flag, n) = opt_le_u8(input, pos);
    pos += n;
    let extra_data_flag: u8 = match flag {
        Some(value) => value,
        None => 0,
    };
    let (extra_data_fields, n) = extra_data_fields(input, pos, extra_data_flag)?;
    pos += n;
    Ok(
        (
            SourceResponseInfo {
                protocol,
                name,
                map,
                folder,
                game,
                app_id,
                players,
                max_players,
                bots,
                server_type,
                environment,
                visibility,
                vac,
                the_ship,
                version,
                extra_data_flag,
                extra_data_fields,
            },
            pos - offset,
        ),
    )
}

/// Decodes a Source INFO record from `input`, the payload of the response
/// without the message tag, under the completion policy `completion`.
pub fn parse_source_info_with(input: &[u8], completion: Completion) -> (r: Result<
    SourceResponseInfo,
    DecodeError,
>)
    ensures
        same_result(r, spec_parse_source_info(input@, completion)),
        r matches Ok(info) ==> spec_presence(info@),
{
    let (info, n) = source_info(input, 0)?;
    check_complete(input, n, completion)?;
    proof {
        lemma_source_info_presence(input@, completion);
    }
    Ok(info)
}

/// Decodes a Source INFO record from `input`, the payload of the response
/// without the message tag. The policy is `Completion::Strict`: the record
/// has to fill the buffer.
pub fn parse_source_info(input: &[u8]) -> (r: Result<SourceResponseInfo, DecodeError>)
    ensures
        same_result(r, spec_parse_source_info(input@, Completion::Strict)),
        r matches Ok(info) ==> spec_presence(info@),
{
    parse_source_info_with(input, Completion::Strict)
}

} // verus!
