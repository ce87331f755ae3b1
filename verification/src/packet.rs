//! The envelope of a datagram: single packet or fragment of a split response.
//!
//! A datagram starts with a four-byte marker, `-1` for a single packet and
//! `-2` for a fragment. A single packet goes on with a one-byte message tag
//! and the payload. A fragment goes on with a header whose layout depends on
//! the engine that sent it; the caller says which layout to read. Fragments
//! are decoded one by one: putting the payloads of one response together, and
//! decompressing them where the header says so, is left to the caller.

use crate::error::{DecodeError, ErrorKind};
use crate::parser_util::{
    advance, le_i32, le_u16, le_u32, le_u8, offset_of, same_result, spec_le_i32, spec_le_u16,
    spec_le_u32, spec_le_u8, value_of, within,
};
use vstd::prelude::*;
use vstd::slice::slice_subrange;
use vstd::std_specs::convert::FromSpecImpl;

verus! {

/// The kind of message that a packet carries, told by its one-byte tag.
#[derive(Clone, Copy, Debug, PartialEq, Eq, Structural)]
pub enum MessageHeader {
    /// `T`: a request for server information.
    InfoRequest,
    /// `I`: server information in the Source layout.
    InfoResponseSource,
    /// `m`: server information in the GoldSource layout.
    InfoResponseGoldSource,
    /// `U`: a request for the player list.
    PlayerRequest,
    /// `D`: the player list.
    PlayerResponse,
    /// `V`: a request for the rule list.
    RulesRequest,
    /// `E`: the rule list.
    RulesResponse,
    /// `i`: a ping.
    PingRequest,
    /// `j`: the answer to a ping.
    PingResponse,
    /// `W`: a request for a challenge number.
    ChallengeRequest,
    /// `A`: a challenge number.
    ChallengeResponse,
    /// Any other tag, kept as it was read.
    Other(u8),
}

/// The message kind that the tag `tag` stands for.
pub open spec fn spec_message_header(tag: u8) -> MessageHeader {
    if tag == 0x54 {
        MessageHeader::InfoRequest
    } else if tag == 0x49 {
        MessageHeader::InfoResponseSource
    } else if tag == 0x6D {
        MessageHeader::InfoResponseGoldSource
    } else if tag == 0x55 {
        MessageHeader::PlayerRequest
    } else if tag == 0x44 {
        MessageHeader::PlayerResponse
    } else if tag == 0x56 {
        MessageHeader::RulesRequest
    } else if tag == 0x45 {
        MessageHeader::RulesResponse
    } else if tag == 0x69 {
        MessageHeader::PingRequest
    } else if tag == 0x6A {
        MessageHeader::PingResponse
    } else if tag == 0x57 {
        MessageHeader::ChallengeRequest
    } else if tag == 0x41 {
        MessageHeader::ChallengeResponse
    } else {
        MessageHeader::Other(tag)
    }
}

impl From<u8> for MessageHeader {
    fn from(input: u8) -> (header: MessageHeader)
        ensures
            header == spec_message_header(input),
    {
        match input {
            0x54 => MessageHeader::InfoRequest,
            0x49 => MessageHeader::InfoResponseSource,
            0x6D => MessageHeader::InfoResponseGoldSource,
            0x55 => MessageHeader::PlayerRequest,
            0x44 => MessageHeader::PlayerResponse,
            0x56 => MessageHeader::RulesRequest,
            0x45 => MessageHeader::RulesResponse,
            0x69 => MessageHeader::PingRequest,
            0x6A => MessageHeader::PingResponse,
            0x57 => MessageHeader::ChallengeRequest,
            0x41 => MessageHeader::ChallengeResponse,
            _ => MessageHeader::Other(input),
        }
    }
}

impl FromSpecImpl<u8> for MessageHeader {
    open spec fn obeys_from_spec() -> bool {
        true
    }

    open spec fn from_spec(input: u8) -> MessageHeader {
        spec_message_header(input)
    }
}

/// A message that came in one packet.
#[derive(Clone, Debug, PartialEq, Eq)]
pub struct SinglePacket<'a> {
    /// The kind of message.
    pub message_header: MessageHeader,
    /// The bytes after the tag, borrowed from the buffer that was decoded.
    pub payload: &'a [u8],
}

/// What a `SinglePacket` holds, as mathematical values.
pub struct SinglePacketView {
    pub message_header: MessageHeader,
    pub payload: Seq<u8>,
}

impl<'a> View for SinglePacket<'a> {
    type V = SinglePacketView;

    open spec fn view(&self) -> SinglePacketView {
        SinglePacketView { message_header: self.message_header, payload: self.payload@ }
    }
}

impl<'a> DeepView for SinglePacket<'a> {
    type V = SinglePacketView;

    open spec fn deep_view(&self) -> SinglePacketView {
        self@
    }
}

/// The two numbers that the first fragment of a compressed Source response
/// carries for the caller who puts the response together.
#[derive(Clone, Copy, Debug, PartialEq, Eq, Structural)]
pub struct CompressionData {
    /// The size in bytes of the whole response once decompressed.
    pub decompressed_size: i32,
    /// The CRC32 checksum of the decompressed response.
    pub crc32_checksum: u32,
}

/// One fragment of a response that was split over several packets.
#[derive(Clone, Debug, PartialEq, Eq)]
pub struct PacketFragment<'a> {
    /// The number that all fragments of one response share.
    pub id: i32,
    /// How many fragments the response has.
    pub total_packets: u8,
    /// The place of this fragment among them, counted from zero.
    pub packet_number: u8,
    /// Source only: the largest size of a fragment. A few games leave the
    /// field out.
    pub size: Option<u16>,
    /// Source only: present on fragment zero of a response whose `id` has its
    /// sign bit set, which marks the response as compressed.
    pub compression_data: Option<CompressionData>,
    /// The bytes after the header, borrowed from the buffer that was decoded.
    pub payload: &'a [u8],
}

/// What a `PacketFragment` holds, as mathematical values.
pub struct PacketFragmentView {
    pub id: i32,
    pub total_packets: u8,
    pub packet_number: u8,
    pub size: Option<u16>,
    pub compression_data: Option<CompressionData>,
    pub payload: Seq<u8>,
}

impl<'a> View for PacketFragment<'a> {
    type V = PacketFragmentView;

    open spec fn view(&self) -> PacketFragmentView {
        PacketFragmentView {
            id: self.id,
            total_packets: self.total_packets,
            packet_number: self.packet_number,
            size: self.size,
            compression_data: self.compression_data,
            payload: self.payload@,
        }
    }
}

impl<'a> DeepView for PacketFragment<'a> {
    type V = PacketFragmentView;

    open spec fn deep_view(&self) -> PacketFragmentView {
        self@
    }
}

impl<'a> PacketFragment<'a> {
    /// True when this fragment says that the response it belongs to is
    /// compressed.
    pub fn payload_compressed(&self) -> (b: bool)
        ensures
            b == self.compression_data is Some,
    {
        self.compression_data.is_some()
    }
}

/// A decoded datagram.
#[derive(Clone, Debug, PartialEq, Eq)]
pub enum Packet<'a> {
    /// The message is in this one packet.
    Single(SinglePacket<'a>),
    /// The packet is one fragment of a message.
    Fragment(PacketFragment<'a>),
}

/// What a `Packet` holds, as mathematical values.
pub enum PacketView {
    Single(SinglePacketView),
    Fragment(PacketFragmentView),
}

impl<'a> View for Packet<'a> {
    type V = PacketView;

    open spec fn view(&self) -> PacketView {
        match self {
            Packet::Single(p) => PacketView::Single(p@),
            Packet::Fragment(p) => PacketView::Fragment(p@),
        }
    }
}

impl<'a> DeepView for Packet<'a> {
    type V = PacketView;

    open spec fn deep_view(&self) -> PacketView {
        self@
    }
}

/// The layout of a fragment header, which the bytes themselves do not tell.
#[derive(Clone, Copy, Debug, PartialEq, Eq, Structural)]
pub enum FragmentLayout {
    /// GoldSource: id, then one byte that packs number and count.
    GoldSource,
    /// Source: id, count, number, size, and the compression data where the
    /// id and the number call for it.
    Source,
    /// Source as sent by the few games that leave the size field out: those
    /// with application id 215, 17550 or 17700, and 240 where the protocol
    /// version is 7.
    SourceWithoutSize,
}

/// The packet marker at `pos`: false for `-1`, true for `-2`. Any other
/// marker is an error that points behind the marker.
pub open spec fn spec_is_split(s: Seq<u8>, pos: int) -> Result<(bool, usize), DecodeError> {
    match spec_le_i32(s, pos) {
        Err(e) => Err(e),
        Ok((marker, n)) => if marker == -1 {
            Ok((false, n))
        } else if marker == -2 {
            Ok((true, n))
        } else {
            Err(DecodeError { kind: ErrorKind::MalformedEnvelope, offset: (pos + n) as usize })
        },
    }
}

/// The message tag at `pos`. Every byte is a tag; only a missing byte is an
/// error.
pub open spec fn spec_message_type(s: Seq<u8>, pos: int) -> Result<
    (MessageHeader, usize),
    DecodeError,
> {
    match spec_le_u8(s, pos) {
        Err(e) => Err(e),
        Ok((tag, n)) => Ok((spec_message_header(tag), n)),
    }
}

/// A single packet without its marker, starting at `pos`: a known tag, then
/// the payload, which is all that follows. An unknown tag is an error that
/// points behind the tag.
pub open spec fn spec_single_packet(s: Seq<u8>, pos: int) -> Result<SinglePacketView, DecodeError> {
    match spec_message_type(s, pos) {
        Err(e) => Err(e),
        Ok((header, n)) => if header is Other {
            Err(
                DecodeError {
                    kind: ErrorKind::UnrecognizedMessageType,
                    offset: (pos + n) as usize,
                },
            )
        } else {
            Ok(
                SinglePacketView {
                    message_header: header,
                    payload: s.subrange(pos + n, s.len() as int),
                },
            )
        },
    }
}

/// The fragment number that a GoldSource fragment byte packs: its upper four
/// bits.
pub open spec fn spec_goldsource_packet_number(packed: u8) -> u8 {
    packed / 16
}

/// The fragment count that a GoldSource fragment byte packs: its lower four
/// bits.
pub open spec fn spec_goldsource_total_packets(packed: u8) -> u8 {
    packed % 16
}

/// A GoldSource fragment without its marker, starting at `pos`: the id, the
/// byte that packs number and count, and the payload, which is all that
/// follows.
pub open spec fn spec_goldsource_multi_packet(s: Seq<u8>, pos: int) -> Result<
    PacketFragmentView,
    DecodeError,
> {
    let id = spec_le_i32(s, pos);
    let p1 = advance(Ok(pos), id);
    let packed = spec_le_u8(s, offset_of(p1));
    let p2 = advance(p1, packed);
    match p2 {
        Err(e) => Err(e),
        Ok(end) => Ok(
            PacketFragmentView {
                id: value_of(id),
                total_packets: spec_goldsource_total_packets(value_of(packed)),
                packet_number: spec_goldsource_packet_number(value_of(packed)),
                size: None,
                compression_data: None,
                payload: s.subrange(end, s.len() as int),
            },
        ),
    }
}

/// The size field of a Source fragment at `pos`, read only where the caller
/// says that it is there.
pub open spec fn spec_fragment_size(s: Seq<u8>, pos: int, size_included: bool) -> Result<
    (Option<u16>, usize),
    DecodeError,
> {
    if size_included {
        match spec_le_u16(s, pos) {
            Err(e) => Err(e),
            Ok((size, n)) => Ok((Some(size), n)),
        }
    } else {
        Ok((None, 0usize))
    }
}

/// The compression data of a Source fragment at `pos`, read only where
/// `compressed` holds: the decompressed size, then the checksum.
pub open spec fn spec_compression_data(s: Seq<u8>, pos: int, compressed: bool) -> Result<
    (Option<CompressionData>, usize),
    DecodeError,
> {
    if compressed {
        let decompressed_size = spec_le_i32(s, pos);
        let p1 = advance(Ok(pos), decompressed_size);
        let crc32_checksum = spec_le_u32(s, offset_of(p1));
        let p2 = advance(p1, crc32_checksum);
        match p2 {
            Err(e) => Err(e),
            Ok(end) => Ok(
                (
                    Some(
                        CompressionData {
                            decompressed_size: value_of(decompressed_size),
                            crc32_checksum: value_of(crc32_checksum),
                        },
                    ),
                    (end - pos) as usize,
                ),
            ),
        }
    } else {
        Ok((None, 0usize))
    }
}

/// True when a Source fragment with this id and number carries compression
/// data: it is fragment zero, and the sign bit of the id is set.
pub open spec fn spec_carries_compression(id: i32, packet_number: u8) -> bool {
    packet_number == 0 && id < 0
}

/// A Source fragment without its marker, starting at `pos`: the id, the
/// count, the number, the size where `size_included` holds, the compression
/// data where id and number call for it, and the payload, which is all that
/// follows.
pub open spec fn spec_source_multi_packet(s: Seq<u8>, pos: int, size_included: bool) -> Result<
    PacketFragmentView,
    DecodeError,
> {
    let id = spec_le_i32(s, pos);
    let p1 = advance(Ok(pos), id);
    let total_packets = spec_le_u8(s, offset_of(p1));
    let p2 = advance(p1, total_packets);
    let packet_number = spec_le_u8(s, offset_of(p2));
    let p3 = advance(p2, packet_number);
    let size = spec_fragment_size(s, offset_of(p3), size_included);
    let p4 = advance(p3, size);
    let compression_data = spec_compression_data(
        s,
        offset_of(p4),
        spec_carries_compression(value_of(id), value_of(packet_number)),
    );
    let p5 = advance(p4, compression_data);
    match p5 {
        Err(e) => Err(e),
        Ok(end) => Ok(
            PacketFragmentView {
                id: value_of(id),
                total_packets: value_of(total_packets),
                packet_number: value_of(packet_number),
                size: value_of(size),
                compression_data: value_of(compression_data),
                payload: s.subrange(end, s.len() as int),
            },
        ),
    }
}

/// A fragment without its marker, starting at `pos`, in the layout `layout`.
pub open spec fn spec_fragment(s: Seq<u8>, pos: int, layout: FragmentLayout) -> Result<
    PacketFragmentView,
    DecodeError,
> {
    match layout {
        FragmentLayout::GoldSource => spec_goldsource_multi_packet(s, pos),
        FragmentLayout::Source => spec_source_multi_packet(s, pos, true),
        FragmentLayout::SourceWithoutSize => spec_source_multi_packet(s, pos, false),
    }
}

/// A whole datagram: the marker, then a single packet or a fragment in the
/// layout `layout`.
pub open spec fn spec_packet(s: Seq<u8>, layout: FragmentLayout) -> Result<PacketView, DecodeError> {
    match spec_is_split(s, 0) {
        Err(e) => Err(e),
        Ok((split, n)) => if split {
            match spec_fragment(s, n as int, layout) {
                Err(e) => Err(e),
                Ok(fragment) => Ok(PacketView::Fragment(fragment)),
            }
        } else {
            match spec_single_packet(s, n as int) {
                Err(e) => Err(e),
                Ok(single) => Ok(PacketView::Single(single)),
            }
        },
    }
}

/// What `is_payload_split` returns for the datagram `s`.
pub open spec fn spec_is_payload_split(s: Seq<u8>) -> Result<bool, DecodeError> {
    match spec_is_split(s, 0) {
        Err(e) => Err(e),
        Ok((split, _)) => Ok(split),
    }
}

/// What `message_type` returns for the buffer `s`.
pub open spec fn spec_message_type_of(s: Seq<u8>) -> Result<MessageHeader, DecodeError> {
    match spec_message_type(s, 0) {
        Err(e) => Err(e),
        Ok((header, _)) => Ok(header),
    }
}

/// What a Source fragment holds beyond id, count and number is told by the
/// caller and by id and number alone, never by the length of what follows:
/// the size is there exactly when the caller said so, and the compression
/// data exactly on fragment zero of an id with the sign bit set. The payload
/// is the end of the buffer.
pub proof fn lemma_source_fragment_presence(s: Seq<u8>, pos: int, size_included: bool)
    ensures
        spec_source_multi_packet(s, pos, size_included) matches Ok(fragment) ==> {
            &&& fragment.size is Some <==> size_included
            &&& fragment.compression_data is Some <==> fragment.packet_number == 0 && fragment.id
                < 0
            &&& fragment.payload.len() <= s.len()
            &&& fragment.payload == s.subrange(s.len() - fragment.payload.len(), s.len() as int)
        },
{
}

/// A GoldSource fragment has neither size nor compression data, and the two
/// halves of its one byte are numbers below sixteen. The payload is all that
/// follows the five bytes of the header.
pub proof fn lemma_goldsource_fragment(s: Seq<u8>, pos: int)
    ensures
        spec_goldsource_multi_packet(s, pos) matches Ok(fragment) ==> {
            &&& fragment.size is None
            &&& fragment.compression_data is None
            &&& fragment.packet_number < 16
            &&& fragment.total_packets < 16
            &&& fragment.payload == s.subrange(pos + 5, s.len() as int)
        },
{
}

fn is_split(input: &[u8], offset: usize) -> (r: Result<(bool, usize), DecodeError>)
    ensures
        r == spec_is_split(input@, offset as int),
        r matches Ok((_, n)) ==> within(input@, offset, n),
{
    let (marker, n) = le_i32(input, offset)?;
    if marker == -1 {
        Ok((false, n))
    } else if marker == -2 {
        Ok((true, n))
    } else {
        Err(DecodeError::new(ErrorKind::MalformedEnvelope, offset + n))
    }
}

fn message_header(input: &[u8], offset: usize) -> (r: Result<(MessageHeader, usize), DecodeError>)
    ensures
        r == spec_message_type(input@, offset as int),
        r matches Ok((_, n)) ==> within(input@, offset, n),
{
    let (tag, n) = le_u8(input, offset)?;
    Ok((MessageHeader::from(tag), n))
}

fn single_packet<'a>(input: &'a [u8], offset: usize) -> (r: Result<SinglePacket<'a>, DecodeError>)
    requires
        offset <= input@.len(),
    ensures
        same_result(r, spec_single_packet(input@, offset as int)),
{
    let (message_header, n) = message_header(input, offset)?;
    if let MessageHeader::Other(_) = message_header {
        return Err(DecodeError::new(ErrorKind::UnrecognizedMessageType, offset + n));
    }
    let payload = slice_subrange(input, offset + n, input.len());
    Ok(SinglePacket { message_header, payload })
}

fn goldsource_multi_packet<'a>(input: &'a [u8], offset: usize) -> (r: Result<
    PacketFragment<'a>,
    DecodeError,
>)
    requires
        offset <= input@.len(),
    ensures
        same_result(r, spec_goldsource_multi_packet(input@, offset as int)),
{
    let mut pos = offset;
    let (id, n) = le_i32(input, pos)?;
    pos += n;
    let (packed, n) = le_u8(input, pos)?;
    pos += n;
    let packet_number = packed >> 4;
    let total_packets = packed & 0x0F;
    assert(packed >> 4 == packed / 16) by (bit_vector);
    assert(packed & 0x0F == packed % 16) by (bit_vector);
    let payload = slice_subrange(input, pos, input.len());
    Ok(
        PacketFragment {
            id,
            total_packets,
            packet_number,
            size: None,
            compression_data: None,
            payload,
        },
    )
}

fn fragment_size(input: &[u8], offset: usize, size_included: bool) -> (r: Result<
    (Option<u16>, usize),
    DecodeError,
>)
    requires
        offset <= input@.len(),
    ensures
        r == spec_fragment_size(input@, offset as int, size_included),
        r matches Ok((_, n)) ==> within(input@, offset, n),
{
    if size_included {
        let (size, n) = le_u16(input, offset)?;
        Ok((Some(size), n))
    } else {
        Ok((None, 0))
    }
}

fn compression_data(input: &[u8], offset: usize, compressed: bool) -> (r: Result<
    (Option<CompressionData>, usize),
    DecodeError,
>)
    requires
        offset <= input@.len(),
    ensures
        r == spec_compression_data(input@, offset as int, compressed),
        r matches Ok((_, n)) ==> within(input@, offset, n),
{
    if compressed {
        let (decompressed_size, n0) = le_i32(input, offset)?;
        let (crc32_checksum, n1) = le_u32(input, offset + n0)?;
        Ok((Some(CompressionData { decompressed_size, crc32_checksum }), n0 + n1))
    } else {
        Ok((None, 0))
    }
}

fn source_multi_packet<'a>(input: &'a [u8], offset: usize, size_included: bool) -> (r: Result<
    PacketFragment<'a>,
    DecodeError,
>)
    requires
        offset <= input@.len(),
    ensures
        same_result(r, spec_source_multi_packet(input@, offset as int, size_included)),
{
    let mut pos = offset;
    let (id, n) = le_i32(input, pos)?;
    pos += n;
    let (total_packets, n) = le_u8(input, pos)?;
    pos += n;
    let (packet_number, n) = le_u8(input, pos)?;
    pos += n;
    let (size, n) = fragment_size(input, pos, size_included)?;
    pos += n;
    let (compression_data, n) = compression_data(input, pos, packet_number == 0 && id < 0)?;
    pos += n;
    let payload = slice_subrange(input, pos, input.len());
    Ok(PacketFragment { id, total_packets, packet_number, size, compression_data, payload })
}

/// Reads the marker at the front of a datagram and tells whether the
/// datagram is a fragment (`true`) or a single packet (`false`).
pub fn is_payload_split(input: &[u8]) -> (r: Result<bool, DecodeError>)
    ensures
        r == spec_is_payload_split(input@),
{
    let (split, _) = is_split(input, 0)?;
    Ok(split)
}

/// Reads the message tag at the front of `input`, which is a packet without
/// its marker. An unknown tag is returned as `MessageHeader::Other`.
pub fn message_type(input: &[u8]) -> (r: Result<MessageHeader, DecodeError>)
    ensures
        r == spec_message_type_of(input@),
{
    let (header, _) = message_header(input, 0)?;
    Ok(header)
}

/// Decodes a single packet without its marker: the tag and the payload.
pub fn parse_single_packet<'a>(input: &'a [u8]) -> (r: Result<SinglePacket<'a>, DecodeError>)
    ensures
        same_result(r, spec_single_packet(input@, 0)),
{
    single_packet(input, 0)
}

/// Decodes a GoldSource fragment without its marker.
pub fn parse_goldsource_multi_packet<'a>(input: &'a [u8]) -> (r: Result<
    PacketFragment<'a>,
    DecodeError,
>)
    ensures
        same_result(r, spec_goldsource_multi_packet(input@, 0)),
{
    goldsource_multi_packet(input, 0)
}

/// Decodes a Source fragment without its marker. `size` says whether the
/// header holds the size field, which all but a few games send.
pub fn parse_source_multi_packet<'a>(input: &'a [u8], size: bool) -> (r: Result<
    PacketFragment<'a>,
    DecodeError,
>)
    ensures
        same_result(r, spec_source_multi_packet(input@, 0, size)),
{
    source_multi_packet(input, 0, size)
}

/// Decodes a whole datagram, marker included. Fragments are read in the
/// layout `layout`; a single packet looks the same in every layout.
pub fn parse_packet<'a>(input: &'a [u8], layout: FragmentLayout) -> (r: Result<
    Packet<'a>,
    DecodeError,
>)
    ensures
        same_result(r, spec_packet(input@, layout)),
{
    let (split, n) = is_split(input, 0)?;
    if split {
        let fragment = match layout {
            FragmentLayout::GoldSource => goldsource_multi_packet(input, n)?,
            FragmentLayout::Source => source_multi_packet(input, n, true)?,
            FragmentLayout::SourceWithoutSize => source_multi_packet(input, n, false)?,
        };
        Ok(Packet::Fragment(fragment))
    } else {
        let single = single_packet(input, n)?;
        Ok(Packet::Single(single))
    }
}

} // verus!
