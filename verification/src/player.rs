//! The PLAYER response.
//!
//! The response starts with the number of players. Then come the players,
//! one entry each, but possibly fewer than the number: a player who is still
//! connecting is counted and not described. Servers of The Ship then send a
//! second list, of deaths and money for each player. Nothing in the bytes
//! says whether that list is there. It is taken to be there when it has as
//! many entries as the first list, and its entries are then paired with the
//! players by position.

use crate::error::DecodeError;
use crate::parser_util::{
    advance, all_consumed, c_string, le_i32, le_u32, le_u8, offset_of, opt_le_u8, same_result,
    same_step, spec_all_consumed, spec_c_string, spec_le_i32, spec_le_u32, spec_le_u8,
    spec_opt_le_u8, value_of, within,
};
use vstd::prelude::*;
use vstd::slice::slice_subrange;

verus! {

/// What The Ship adds to a player.
#[derive(Clone, Copy, Debug, PartialEq, Eq, Structural)]
pub struct TheShipData {
    /// How often the player died.
    pub deaths: i32,
    /// How much money the player has.
    pub money: i32,
}

/// One player.
#[derive(Clone, Debug, PartialEq, Eq)]
pub struct PlayerData {
    /// The index of the entry, as the server sent it.
    pub index: u8,
    /// The name of the player.
    pub name: String,
    /// The score of the player.
    pub score: i32,
    /// How long the player has been connected, in seconds: the bits of an
    /// IEEE 754 single-precision number, as `f32::from_bits` takes them.
    pub duration: u32,
    /// What The Ship adds, where the server sent it.
    pub ship_data: Option<TheShipData>,
}

/// What a `PlayerData` holds, as mathematical values.
pub struct PlayerDataView {
    pub index: u8,
    pub name: Seq<char>,
    pub score: i32,
    pub duration: u32,
    pub ship_data: Option<TheShipData>,
}

impl View for PlayerData {
    type V = PlayerDataView;

    open spec fn view(&self) -> PlayerDataView {
        PlayerDataView {
            index: self.index,
            name: self.name@,
            score: self.score,
            duration: self.duration,
            ship_data: self.ship_data,
        }
    }
}

impl DeepView for PlayerData {
    type V = PlayerDataView;

    open spec fn deep_view(&self) -> PlayerDataView {
        self@
    }
}

/// The decoded PLAYER response.
#[derive(Clone, Debug, PartialEq, Eq)]
pub struct PlayerResponse {
    /// The number of players that the server announced.
    pub players: u8,
    /// The players that the server described, in the order sent: never more
    /// than `players`, and fewer where the response was cut short.
    pub player_data: Vec<PlayerData>,
}

/// What a `PlayerResponse` holds, as mathematical values.
pub struct PlayerResponseView {
    pub players: u8,
    pub player_data: Seq<PlayerDataView>,
}

impl View for PlayerResponse {
    type V = PlayerResponseView;

    open spec fn view(&self) -> PlayerResponseView {
        PlayerResponseView { players: self.players, player_data: self.player_data.deep_view() }
    }
}

impl DeepView for PlayerResponse {
    type V = PlayerResponseView;

    open spec fn deep_view(&self) -> PlayerResponseView {
        self@
    }
}

/// One player entry at `pos`: index, name, score, duration. The entry comes
/// without data of The Ship.
pub open spec fn spec_player_data(s: Seq<u8>, pos: int) -> Result<
    (PlayerDataView, usize),
    DecodeError,
> {
    let index = spec_le_u8(s, pos);
    let p1 = advance(Ok(pos), index);
    let name = spec_c_string(s, offset_of(p1));
    let p2 = advance(p1, name);
    let score = spec_le_i32(s, offset_of(p2));
    let p3 = advance(p2, score);
    let duration = spec_le_u32(s, offset_of(p3));
    let p4 = advance(p3, duration);
    match p4 {
        Err(e) => Err(e),
        Ok(end) => Ok(
            (
                PlayerDataView {
                    index: value_of(index),
                    name: value_of(name),
                    score: value_of(score),
                    duration: value_of(duration),
                    ship_data: None,
                },
                (end - pos) as usize,
            ),
        ),
    }
}

/// One entry of The Ship at `pos`: deaths, money.
pub open spec fn spec_ship_data(s: Seq<u8>, pos: int) -> Result<(TheShipData, usize), DecodeError> {
    let deaths = spec_le_i32(s, pos);
    let p1 = advance(Ok(pos), deaths);
    let money = spec_le_i32(s, offset_of(p1));
    let p2 = advance(p1, money);
    match p2 {
        Err(e) => Err(e),
        Ok(end) => Ok(
            (TheShipData { deaths: value_of(deaths), money: value_of(money) }, (end - pos) as usize),
        ),
    }
}

/// The player entries at `pos`, as many as can be read one after another but
/// no more than `max`, with the number of bytes they take up. An entry that
/// cannot be read ends the list; it is no error, and none of its bytes count
/// as read.
pub open spec fn spec_many_player_data(s: Seq<u8>, pos: int, max: nat) -> (Seq<PlayerDataView>, int)
    decreases max,
{
    if max == 0 {
        (Seq::empty(), 0)
    } else {
        match spec_player_data(s, pos) {
            Err(_) => (Seq::empty(), 0),
            Ok((player, n)) => {
                let rest = spec_many_player_data(s, pos + n, (max - 1) as nat);
                (seq![player] + rest.0, n + rest.1)
            },
        }
    }
}

/// The entries of The Ship at `pos`, as many as can be read one after another
/// but no more than `max`, with the number of bytes they take up.
pub open spec fn spec_many_the_ship_data(s: Seq<u8>, pos: int, max: nat) -> (Seq<TheShipData>, int)
    decreases max,
{
    if max == 0 {
        (Seq::empty(), 0)
    } else {
        match spec_ship_data(s, pos) {
            Err(_) => (Seq::empty(), 0),
            Ok((data, n)) => {
                let rest = spec_many_the_ship_data(s, pos + n, (max - 1) as nat);
                (seq![data] + rest.0, n + rest.1)
            },
        }
    }
}

/// The players with the data of The Ship attached. Where there are as many
/// entries of The Ship as players, player `i` gets entry `i`. Where the
/// numbers differ no player gets any.
pub open spec fn spec_merge(players: Seq<PlayerDataView>, ship_data: Seq<TheShipData>) -> Seq<
    PlayerDataView,
> {
    Seq::new(
        players.len(),
        |i: int|
            PlayerDataView {
                index: players[i].index,
                name: players[i].name,
                score: players[i].score,
                duration: players[i].duration,
                ship_data: if ship_data.len() == players.len() {
                    Some(ship_data[i])
                } else {
                    None
                },
            },
    )
}

/// The PLAYER response at `pos`, with the number of bytes it takes up. A
/// response without even the count byte is a response of no players. This
/// step cannot fail: what it cannot read it leaves unread.
pub open spec fn spec_player(s: Seq<u8>, pos: int) -> (PlayerResponseView, int) {
    let count = spec_opt_le_u8(s, pos);
    match count.0 {
        None => (PlayerResponseView { players: 0, player_data: Seq::empty() }, 0),
        Some(players) => {
            let entries = spec_many_player_data(s, pos + count.1, players as nat);
            let ship = spec_many_the_ship_data(s, pos + count.1 + entries.1, players as nat);
            (
                PlayerResponseView { players, player_data: spec_merge(entries.0, ship.0) },
                count.1 + entries.1 + ship.1,
            )
        },
    }
}

/// What decoding the buffer `s` as a PLAYER response gives: the response,
/// unless bytes are left over behind it.
pub open spec fn spec_parse_player(s: Seq<u8>) -> Result<PlayerResponseView, DecodeError> {
    let decoded = spec_player(s, 0);
    match spec_all_consumed(s, decoded.1) {
        Err(e) => Err(e),
        Ok(_) => Ok(decoded.0),
    }
}

/// The list of players is never longer than `max`, and it ends within the
/// buffer.
pub proof fn lemma_many_player_data_bounds(s: Seq<u8>, pos: int, max: nat)
    requires
        0 <= pos <= s.len(),
    ensures
        spec_many_player_data(s, pos, max).0.len() <= max,
        0 <= spec_many_player_data(s, pos, max).1,
        pos + spec_many_player_data(s, pos, max).1 <= s.len(),
    decreases max,
{
    if max > 0 {
        match spec_player_data(s, pos) {
            Err(_) => {},
            Ok((_, n)) => {
                lemma_many_player_data_bounds(s, pos + n, (max - 1) as nat);
            },
        }
    }
}

/// Merging pairs by position or not at all: with `n` players and `m` entries
/// of The Ship, the result has `n` players, each the player at its place in
/// all but the data of The Ship; that data is the entry at the same place if
/// `m == n`, and absent from every player if `m != n`.
pub proof fn lemma_merge(players: Seq<PlayerDataView>, ship_data: Seq<TheShipData>)
    ensures
        spec_merge(players, ship_data).len() == players.len(),
        forall|i: int|
            0 <= i < players.len() ==> {
                let merged = #[trigger] spec_merge(players, ship_data)[i];
                &&& merged.index == players[i].index
                &&& merged.name == players[i].name
                &&& merged.score == players[i].score
                &&& merged.duration == players[i].duration
                &&& (merged.ship_data is Some <==> ship_data.len() == players.len())
                &&& ship_data.len() == players.len() ==> merged.ship_data == Some(ship_data[i])
            },
{
}

/// In every PLAYER response that decodes, with `n` the number of player
/// entries read and `m` the number of entries of The Ship read behind them:
/// the response has `n` players, and each of them has data of The Ship
/// exactly when `m == n`. If `m != n` none has.
pub proof fn lemma_player_ship_data(s: Seq<u8>)
    requires
        s.len() >= 1,
    ensures
        ({
            let count = s[0] as nat;
            let entries = spec_many_player_data(s, 1, count);
            let ship = spec_many_the_ship_data(s, 1 + entries.1, count);
            let decoded = spec_player(s, 0).0;
            &&& decoded.players == s[0]
            &&& decoded.player_data.len() == entries.0.len()
            &&& forall|i: int|
                0 <= i < decoded.player_data.len() ==> ((
                #[trigger] decoded.player_data[i]).ship_data is Some <==> ship.0.len()
                    == entries.0.len())
            &&& spec_parse_player(s) matches Ok(response) ==> response == decoded
        }),
{
    let count = s[0] as nat;
    let entries = spec_many_player_data(s, 1, count);
    let ship = spec_many_the_ship_data(s, 1 + entries.1, count);
    lemma_merge(entries.0, ship.0);
}

/// A response cut short decodes without error. If the buffer holds the count
/// byte and then nothing but complete player entries, fewer of them than the
/// count says, the response is those entries under the count as sent, and
/// none of them has data of The Ship.
///
/// The entries have to fill the buffer: bytes of a further, incomplete entry
/// would be taken for data of The Ship or left over, which is an error.
pub proof fn lemma_truncated_player_list(s: Seq<u8>)
    requires
        s.len() >= 1,
        1 + spec_many_player_data(s, 1, s[0] as nat).1 == s.len(),
        spec_many_player_data(s, 1, s[0] as nat).0.len() < s[0],
    ensures
        spec_parse_player(s) is Ok,
        spec_parse_player(s)->Ok_0.players == s[0],
        spec_parse_player(s)->Ok_0.player_data.len() == spec_many_player_data(
            s,
            1,
            s[0] as nat,
        ).0.len(),
        spec_parse_player(s)->Ok_0.player_data.len() < spec_parse_player(s)->Ok_0.players,
        forall|i: int|
            0 <= i < spec_parse_player(s)->Ok_0.player_data.len() ==> (
            #[trigger] spec_parse_player(s)->Ok_0.player_data[i]).ship_data is None,
{
    let players = s[0];
    let entries = spec_many_player_data(s, 1, players as nat);
    let ship = spec_many_the_ship_data(s, s.len() as int, players as nat);
    assert(ship.0.len() == 0 && ship.1 == 0);
    lemma_merge(entries.0, ship.0);
}

fn player_data(input: &[u8], offset: usize) -> (r: Result<(PlayerData, usize), DecodeError>)
    ensures
        same_step(r, spec_player_data(input@, offset as int)),
        r matches Ok((_, n)) ==> within(input@, offset, n) && n > 0,
{
    let mut pos = offset;
    let (index, n) = le_u8(input, pos)?;
    pos += n;
    let (name, n) = c_string(input, pos)?;
    pos += n;
    let (score, n) = le_i32(input, pos)?;
    pos += n;
    let (duration, n) = le_u32(input, pos)?;
    pos += n;
    Ok((PlayerData { index, name, score, duration, ship_data: None }, pos - offset))
}

fn ship_data(input: &[u8], offset: usize) -> (r: Result<(TheShipData, usize), DecodeError>)
    ensures
        r == spec_ship_data(input@, offset as int),
        r matches Ok((_, n)) ==> within(input@, offset, n) && n > 0,
{
    let (deaths, n0) = le_i32(input, offset)?;
    let (money, n1) = le_i32(input, offset + n0)?;
    Ok((TheShipData { deaths, money }, n0 + n1))
}

fn many_player_data(input: &[u8], offset: usize, player_count: u8) -> (r: (Vec<PlayerData>, usize))
    requires
        offset <= input@.len(),
    ensures
        r.0.deep_view() == spec_many_player_data(input@, offset as int, player_count as nat).0,
        r.1 == spec_many_player_data(input@, offset as int, player_count as nat).1,
        within(input@, offset, r.1),
{
    let mut entries: Vec<PlayerData> = Vec::new();
    let mut pos = offset;
    let mut left = player_count;
    let ghost all = spec_many_player_data(input@, offset as int, player_count as nat);
    assert(entries.deep_view() =~= Seq::empty());
    while left > 0
        invariant
            offset <= pos <= input@.len(),
            all == spec_many_player_data(input@, offset as int, player_count as nat),
            all.0 == entries.deep_view() + spec_many_player_data(
                input@,
                pos as int,
                left as nat,
            ).0,
            all.1 == (pos - offset) + spec_many_player_data(input@, pos as int, left as nat).1,
        ensures
            offset <= pos <= input@.len(),
            all.0 == entries.deep_view(),
            all.1 == pos - offset,
        decreases left,
    {
        match player_data(input, pos) {
            Err(_) => {
                assert(entries.deep_view() + Seq::<PlayerDataView>::empty()
                    =~= entries.deep_view());
                break ;
            },
            Ok((player, n)) => {
                let ghost before = entries.deep_view();
                let ghost rest = spec_many_player_data(
                    input@,
                    pos as int + n,
                    (left - 1) as nat,
                );
                entries.push(player);
                assert(entries.deep_view() =~= before.push(player@));
                assert(before + (seq![player@] + rest.0) =~= before.push(player@) + rest.0);
                pos += n;
                left -= 1;
            },
        }
    }
    assert(entries.deep_view() + Seq::<PlayerDataView>::empty() =~= entries.deep_view());
    (entries, pos - offset)
}

fn many_the_ship_data(input: &[u8], offset: usize, players: u8) -> (r: (Vec<TheShipData>, usize))
    requires
        offset <= input@.len(),
    ensures
        r.0@ == spec_many_the_ship_data(input@, offset as int, players as nat).0,
        r.1 == spec_many_the_ship_data(input@, offset as int, players as nat).1,
        within(input@, offset, r.1),
{
    let mut entries: Vec<TheShipData> = Vec::new();
    let mut pos = offset;
    let mut left = players;
    let ghost all = spec_many_the_ship_data(input@, offset as int, players as nat);
    while left > 0
        invariant
            offset <= pos <= input@.len(),
            all == spec_many_the_ship_data(input@, offset as int, players as nat),
            all.0 == entries@ + spec_many_the_ship_data(input@, pos as int, left as nat).0,
            all.1 == (pos - offset) + spec_many_the_ship_data(input@, pos as int, left as nat).1,
        ensures
            offset <= pos <= input@.len(),
            all.0 == entries@,
            all.1 == pos - offset,
        decreases left,
    {
        match ship_data(input, pos) {
            Err(_) => {
                assert(entries@ + Seq::<TheShipData>::empty() =~= entries@);
                break ;
            },
            Ok((data, n)) => {
                let ghost before = entries@;
                let ghost rest = spec_many_the_ship_data(
                    input@,
                    pos as int + n,
                    (left - 1) as nat,
                );
                entries.push(data);
                assert(before + (seq![data] + rest.0) =~= before.push(data) + rest.0);
                pos += n;
                left -= 1;
            },
        }
    }
    assert(entries@ + Seq::<TheShipData>::empty() =~= entries@);
    (entries, pos - offset)
}

/// Attaches the data of The Ship to the players: entry `i` to player `i`
/// where the two lists are equally long, and nothing to anyone where they
/// are not.
pub fn merge_ship_data(player_data: Vec<PlayerData>, ship_data: &Vec<TheShipData>) -> (merged: Vec<
    PlayerData,
>)
    ensures
        merged.deep_view() == spec_merge(player_data.deep_view(), ship_data@),
{
    let mut merged = player_data;
    let count = merged.len();
    let attach = ship_data.len() == count;
    let mut i: usize = 0;
    while i < count
        invariant
            i <= count,
            count == merged.len(),
            count == player_data.len(),
            attach == (ship_data@.len() == player_data@.len()),
            forall|j: int|
                0 <= j < i ==> (#[trigger] merged[j])@ == spec_merge(
                    player_data.deep_view(),
                    ship_data@,
                )[j],
            forall|j: int| i <= j < count ==> #[trigger] merged[j] == player_data[j],
        decreases count - i,
    {
        merged[i].ship_data = if attach {
            Some(ship_data[i])
        } else {
            None
        };
        i += 1;
    }
    assert(merged.deep_view() =~= spec_merge(player_data.deep_view(), ship_data@));
    merged
}

fn player(input: &[u8], offset: usize) -> (r: (PlayerResponse, usize))
    requires
        offset <= input@.len(),
    ensures
        r.0@ == spec_player(input@, offset as int).0,
        r.1 == spec_player(input@, offset as int).1,
        within(input@, offset, r.1),
        r.0.player_data.len() <= r.0.players,
{
    let (count, n0) = opt_le_u8(input, offset);
    let players = match count {
        Some(value) => value,
        None => {
            let response = PlayerResponse { players: 0, player_data: Vec::new() };
            assert(response.player_data.deep_view() =~= Seq::empty());
            return (response, 0);
        },
    };
    let (entries, n1) = many_player_data(input, offset + n0, players);
    let (ship, n2) = many_the_ship_data(input, offset + n0 + n1, players);
    let player_data = merge_ship_data(entries, &ship);
    proof {
        lemma_many_player_data_bounds(input@, offset + n0, players as nat);
        assert(player_data.deep_view().len() == player_data.len());
    }
    (PlayerResponse { players, player_data }, n0 + n1 + n2)
}

/// Decodes a PLAYER response from `input`, the payload of the response
/// without the message tag, and hands back what is left of `input` behind
/// it, which is always nothing: bytes left over are an error.
pub fn p_player<'a>(input: &'a [u8]) -> (r: Result<(&'a [u8], PlayerResponse), DecodeError>)
    ensures
        match r {
            Ok((rest, response)) => rest@.len() == 0 && spec_parse_player(input@) == Ok::<
                PlayerResponseView,
                DecodeError,
            >(response@),
            Err(e) => spec_parse_player(input@) == Err::<PlayerResponseView, DecodeError>(e),
        },
        r matches Ok((_, response)) ==> response.player_data.len() <= response.players,
{
    let (response, n) = player(input, 0);
    all_consumed(input, n)?;
    Ok((slice_subrange(input, n, input.len()), response))
}

/// Decodes a PLAYER response from `input`, the payload of the response
/// without the message tag.
pub fn parse_player(input: &[u8]) -> (r: Result<PlayerResponse, DecodeError>)
    ensures
        same_result(r, spec_parse_player(input@)),
        r matches Ok(response) ==> response.player_data.len() <= response.players,
{
    let (_, response) = p_player(input)?;
    Ok(response)
}

} // verus!
