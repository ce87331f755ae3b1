//! Primitive field readers.
//!
//! A reader is given the whole buffer and the offset at which its field
//! starts. It returns the field's value together with the number of bytes the
//! field occupies, or the error that names the offset at which reading
//! stopped. A reader never looks at a byte before `offset` and never reads
//! past the end of the buffer.
//!
//! For each reader `f` there is a specification function `spec_f` over
//! `Seq<u8>`; the reader returns exactly what `spec_f` says. The fixed-width
//! integers are read by `nom`'s little-endian number parsers, which this
//! module trusts to do what their documentation says.

use crate::error::{eof_at, DecodeError, ErrorKind};
use vstd::prelude::*;
use vstd::slice::slice_subrange;

verus! {

/// True when `n` bytes of `s` can be read starting at `pos`.
pub open spec fn has_bytes(s: Seq<u8>, pos: int, n: int) -> bool {
    0 <= pos && pos + n <= s.len()
}

/// True when a field of `n` bytes at `offset` ends within `s` and the offset
/// behind the field can be computed without overflow.
pub open spec fn within(s: Seq<u8>, offset: usize, n: usize) -> bool {
    offset + n <= s.len() && offset + n <= usize::MAX
}

/// The unsigned number that the two bytes at `pos` spell, least significant
/// byte first.
pub open spec fn u16_at(s: Seq<u8>, pos: int) -> u16 {
    (s[pos] as int + 0x100 * (s[pos + 1] as int)) as u16
}

/// The unsigned number that the four bytes at `pos` spell, least significant
/// byte first.
pub open spec fn u32_at(s: Seq<u8>, pos: int) -> u32 {
    (s[pos] as int + 0x100 * (s[pos + 1] as int) + 0x1_0000 * (s[pos + 2] as int) + 0x100_0000 * (
    s[pos + 3] as int)) as u32
}

/// The unsigned number that the eight bytes at `pos` spell, least significant
/// byte first.
pub open spec fn u64_at(s: Seq<u8>, pos: int) -> u64 {
    (u32_at(s, pos) as int + 0x1_0000_0000 * (u32_at(s, pos + 4) as int)) as u64
}

/// The two bytes at `pos` read as a two's complement number.
pub open spec fn i16_at(s: Seq<u8>, pos: int) -> i16 {
    let u = u16_at(s, pos) as int;
    if u < 0x8000 {
        u as i16
    } else {
        (u - 0x1_0000) as i16
    }
}

/// The four bytes at `pos` read as a two's complement number.
pub open spec fn i32_at(s: Seq<u8>, pos: int) -> i32 {
    let u = u32_at(s, pos) as int;
    if u < 0x8000_0000 {
        u as i32
    } else {
        (u - 0x1_0000_0000) as i32
    }
}

/// One byte.
pub open spec fn spec_le_u8(s: Seq<u8>, pos: int) -> Result<(u8, usize), DecodeError> {
    if has_bytes(s, pos, 1) {
        Ok((s[pos], 1usize))
    } else {
        Err(eof_at(pos))
    }
}

/// A little-endian unsigned 16-bit integer.
pub open spec fn spec_le_u16(s: Seq<u8>, pos: int) -> Result<(u16, usize), DecodeError> {
    if has_bytes(s, pos, 2) {
        Ok((u16_at(s, pos), 2usize))
    } else {
        Err(eof_at(pos))
    }
}

/// A little-endian signed 16-bit integer.
pub open spec fn spec_le_i16(s: Seq<u8>, pos: int) -> Result<(i16, usize), DecodeError> {
    if has_bytes(s, pos, 2) {
        Ok((i16_at(s, pos), 2usize))
    } else {
        Err(eof_at(pos))
    }
}

/// A little-endian unsigned 32-bit integer.
pub open spec fn spec_le_u32(s: Seq<u8>, pos: int) -> Result<(u32, usize), DecodeError> {
    if has_bytes(s, pos, 4) {
        Ok((u32_at(s, pos), 4usize))
    } else {
        Err(eof_at(pos))
    }
}

/// A little-endian signed 32-bit integer.
pub open spec fn spec_le_i32(s: Seq<u8>, pos: int) -> Result<(i32, usize), DecodeError> {
    if has_bytes(s, pos, 4) {
        Ok((i32_at(s, pos), 4usize))
    } else {
        Err(eof_at(pos))
    }
}

/// A little-endian unsigned 64-bit integer.
pub open spec fn spec_le_u64(s: Seq<u8>, pos: int) -> Result<(u64, usize), DecodeError> {
    if has_bytes(s, pos, 8) {
        Ok((u64_at(s, pos), 8usize))
    } else {
        Err(eof_at(pos))
    }
}

/// A boolean: one byte, false when it is zero and true otherwise.
pub open spec fn spec_parse_bool(s: Seq<u8>, pos: int) -> Result<(bool, usize), DecodeError> {
    if has_bytes(s, pos, 1) {
        Ok((s[pos] != 0, 1usize))
    } else {
        Err(eof_at(pos))
    }
}

/// A byte that has to be zero.
pub open spec fn spec_parse_null(s: Seq<u8>, pos: int) -> Result<((), usize), DecodeError> {
    if !has_bytes(s, pos, 1) {
        Err(eof_at(pos))
    } else if s[pos] != 0 {
        Err(DecodeError { kind: ErrorKind::MissingNull, offset: pos as usize })
    } else {
        Ok(((), 1usize))
    }
}

/// A byte that may be missing: `None`, and nothing consumed, when no byte is
/// left at `pos`.
pub open spec fn spec_opt_le_u8(s: Seq<u8>, pos: int) -> (Option<u8>, usize) {
    if has_bytes(s, pos, 1) {
        (Some(s[pos]), 1usize)
    } else {
        (None, 0usize)
    }
}

/// A little-endian signed 32-bit integer that may be missing: `None`, and
/// nothing consumed, when fewer than four bytes are left at `pos`.
pub open spec fn spec_opt_le_i32(s: Seq<u8>, pos: int) -> (Option<i32>, usize) {
    if has_bytes(s, pos, 4) {
        (Some(i32_at(s, pos)), 4usize)
    } else {
        (None, 0usize)
    }
}

/// The index of the first zero byte of `s` at or after `pos`, or `s.len()`
/// when there is none.
pub open spec fn terminator_index(s: Seq<u8>, pos: int) -> int
    decreases s.len() - pos,
{
    if pos < 0 || pos >= s.len() {
        s.len() as int
    } else if s[pos] == 0 {
        pos
    } else {
        terminator_index(s, pos + 1)
    }
}

/// The characters that `String::from_utf8_lossy` makes of `bytes`: the text
/// that the bytes encode where they are valid UTF-8, and otherwise that text
/// with U+FFFD in place of each ill-formed sequence.
pub uninterp spec fn utf8_lossy(bytes: Seq<u8>) -> Seq<char>;

/// A null-terminated string: the bytes from `pos` up to, not including, the
/// first zero byte, decoded permissively. The terminator is consumed. When no
/// zero byte follows, the error points at the end of the buffer, where the
/// terminator was looked for last.
pub open spec fn spec_c_string(s: Seq<u8>, pos: int) -> Result<(Seq<char>, usize), DecodeError> {
    let end = terminator_index(s, pos);
    if !has_bytes(s, pos, 0) {
        Err(eof_at(pos))
    } else if end >= s.len() {
        Err(eof_at(s.len() as int))
    } else {
        Ok((utf8_lossy(s.subrange(pos, end)), (end - pos + 1) as usize))
    }
}

/// The check that nothing follows a record that ends at `end`: bytes left
/// over are an error that points at the first of them.
pub open spec fn spec_all_consumed(s: Seq<u8>, end: int) -> Result<(), DecodeError> {
    if end < s.len() {
        Err(DecodeError { kind: ErrorKind::TrailingData, offset: end as usize })
    } else {
        Ok(())
    }
}

/// Where reading stands after one more field. `at` is the offset at which the
/// field starts, or the error met before it; `step` is what reading the field
/// there gives. The result is the offset behind the field, or the first error
/// met: an error, once met, is handed on unchanged.
pub open spec fn advance<T>(at: Result<int, DecodeError>, step: Result<(T, usize), DecodeError>)
    -> Result<int, DecodeError> {
    match at {
        Err(e) => Err(e),
        Ok(pos) => match step {
            Err(e) => Err(e),
            Ok((_, n)) => Ok(pos + n),
        },
    }
}

/// The offset that `at` stands for. Where `at` is an error the offset is of
/// no account: `advance` hands the error on whatever is read there.
pub open spec fn offset_of(at: Result<int, DecodeError>) -> int {
    match at {
        Ok(pos) => pos,
        Err(_) => 0,
    }
}

/// The value that `step` read. Where `step` is an error the value is of no
/// account.
pub open spec fn value_of<T>(step: Result<(T, usize), DecodeError>) -> T {
    step->Ok_0.0
}

/// True when the result `r` of a reader is what the specification function
/// gave as `expected`: the same error, or the same number of bytes and a
/// value whose view is the expected one.
pub open spec fn same_step<T: DeepView>(
    r: Result<(T, usize), DecodeError>,
    expected: Result<(T::V, usize), DecodeError>,
) -> bool {
    match r {
        Ok((value, n)) => expected == Ok::<(T::V, usize), DecodeError>((value.deep_view(), n)),
        Err(e) => expected == Err::<(T::V, usize), DecodeError>(e),
    }
}

/// True when the result `r` of a decoder is what the specification function
/// gave as `expected`: the same error, or a value whose view is the expected
/// one.
pub open spec fn same_result<T: DeepView>(
    r: Result<T, DecodeError>,
    expected: Result<T::V, DecodeError>,
) -> bool {
    match r {
        Ok(value) => expected == Ok::<T::V, DecodeError>(value.deep_view()),
        Err(e) => expected == Err::<T::V, DecodeError>(e),
    }
}

/// Decoding is deterministic. A decoder promises `same_result(r, expected)`
/// for the `expected` that its specification function makes of the bytes.
/// Two results that meet this promise for the same bytes are both the same
/// error, offset included, or both a value, and the two values have the same
/// view.
pub proof fn lemma_decoding_is_deterministic<T: DeepView>(
    first: Result<T, DecodeError>,
    second: Result<T, DecodeError>,
    expected: Result<T::V, DecodeError>,
)
    requires
        same_result(first, expected),
        same_result(second, expected),
    ensures
        first is Err <==> second is Err,
        first is Err ==> first->Err_0 == second->Err_0,
        first is Ok ==> first->Ok_0.deep_view() == second->Ok_0.deep_view(),
{
}

/// Reading is deterministic. A reader promises `same_step(r, expected)` for
/// the `expected` that its specification function makes of bytes and offset.
/// Two results that meet this promise for the same bytes and offset are both
/// the same error, or both a value of the same view and the same number of
/// bytes.
pub proof fn lemma_reading_is_deterministic<T: DeepView>(
    first: Result<(T, usize), DecodeError>,
    second: Result<(T, usize), DecodeError>,
    expected: Result<(T::V, usize), DecodeError>,
)
    requires
        same_step(first, expected),
        same_step(second, expected),
    ensures
        first is Err <==> second is Err,
        first is Err ==> first->Err_0 == second->Err_0,
        first is Ok ==> first->Ok_0.0.deep_view() == second->Ok_0.0.deep_view(),
        first is Ok ==> first->Ok_0.1 == second->Ok_0.1,
{
}

/// `terminator_index` finds the first zero byte: no byte between `pos` and
/// the index is zero, and the byte at the index is zero unless the index is
/// the length of `s`.
pub proof fn lemma_terminator_index(s: Seq<u8>, pos: int)
    requires
        0 <= pos <= s.len(),
    ensures
        pos <= terminator_index(s, pos) <= s.len(),
        forall|i: int| pos <= i < terminator_index(s, pos) ==> s[i] != 0,
        terminator_index(s, pos) < s.len() ==> s[terminator_index(s, pos)] == 0,
    decreases s.len() - pos,
{
    if pos < s.len() && s[pos] != 0 {
        lemma_terminator_index(s, pos + 1);
    }
}

/// Calls `nom::number::complete::le_u8`: the first byte of `input`, or
/// nothing when `input` is empty.
#[verifier::external_body]
fn nom_le_u8(input: &[u8]) -> (r: Option<u8>)
    ensures
        input@.len() >= 1 ==> r == Some(input@[0]),
        input@.len() < 1 ==> r is None,
{
    match nom::number::complete::le_u8::<&[u8], nom::error::Error<&[u8]>>(input) {
        Ok((_, value)) => Some(value),
        Err(_) => None,
    }
}

/// Calls `nom::number::complete::le_u16`: the first two bytes of `input` as a
/// little-endian unsigned number, or nothing when `input` is shorter.
#[verifier::external_body]
fn nom_le_u16(input: &[u8]) -> (r: Option<u16>)
    ensures
        input@.len() >= 2 ==> r == Some(u16_at(input@, 0)),
        input@.len() < 2 ==> r is None,
{
    match nom::number::complete::le_u16::<&[u8], nom::error::Error<&[u8]>>(input) {
        Ok((_, value)) => Some(value),
        Err(_) => None,
    }
}

/// Calls `nom::number::complete::le_i16`: the first two bytes of `input` as a
/// little-endian two's complement number, or nothing when `input` is shorter.
#[verifier::external_body]
fn nom_le_i16(input: &[u8]) -> (r: Option<i16>)
    ensures
        input@.len() >= 2 ==> r == Some(i16_at(input@, 0)),
        input@.len() < 2 ==> r is None,
{
    match nom::number::complete::le_i16::<&[u8], nom::error::Error<&[u8]>>(input) {
        Ok((_, value)) => Some(value),
        Err(_) => None,
    }
}

/// Calls `nom::number::complete::le_u32`: the first four bytes of `input` as
/// a little-endian unsigned number, or nothing when `input` is shorter.
#[verifier::external_body]
fn nom_le_u32(input: &[u8]) -> (r: Option<u32>)
    ensures
        input@.len() >= 4 ==> r == Some(u32_at(input@, 0)),
        input@.len() < 4 ==> r is None,
{
    match nom::number::complete::le_u32::<&[u8], nom::error::Error<&[u8]>>(input) {
        Ok((_, value)) => Some(value),
        Err(_) => None,
    }
}

/// Calls `nom::number::complete::le_i32`: the first four bytes of `input` as
/// a little-endian two's complement number, or nothing when `input` is
/// shorter.
#[verifier::external_body]
fn nom_le_i32(input: &[u8]) -> (r: Option<i32>)
    ensures
        input@.len() >= 4 ==> r == Some(i32_at(input@, 0)),
        input@.len() < 4 ==> r is None,
{
    match nom::number::complete::le_i32::<&[u8], nom::error::Error<&[u8]>>(input) {
        Ok((_, value)) => Some(value),
        Err(_) => None,
    }
}

/// Calls `nom::number::complete::le_u64`: the first eight bytes of `input` as
/// a little-endian unsigned number, or nothing when `input` is shorter.
#[verifier::external_body]
fn nom_le_u64(input: &[u8]) -> (r: Option<u64>)
    ensures
        input@.len() >= 8 ==> r == Some(u64_at(input@, 0)),
        input@.len() < 8 ==> r is None,
{
    match nom::number::complete::le_u64::<&[u8], nom::error::Error<&[u8]>>(input) {
        Ok((_, value)) => Some(value),
        Err(_) => None,
    }
}

/// Calls `String::from_utf8_lossy` and takes ownership of what it returns.
/// Nothing is claimed of the result but that it depends on the bytes alone:
/// it is `utf8_lossy` of them.
#[verifier::external_body]
pub(crate) fn lossy_string(bytes: &[u8]) -> (text: String)
    ensures
        text@ == utf8_lossy(bytes@),
{
    String::from_utf8_lossy(bytes).into_owned()
}

/// The part of `input` from `offset` to its end, where `offset` lies within
/// `input`.
fn tail(input: &[u8], offset: usize) -> (t: &[u8])
    requires
        offset <= input@.len(),
    ensures
        t@ == input@.subrange(offset as int, input@.len() as int),
{
    slice_subrange(input, offset, input.len())
}

/// Reads one byte at `offset`.
pub fn le_u8(input: &[u8], offset: usize) -> (r: Result<(u8, usize), DecodeError>)
    ensures
        r == spec_le_u8(input@, offset as int),
        r matches Ok((_, n)) ==> within(input@, offset, n),
{
    if offset > input.len() {
        return Err(DecodeError::new(ErrorKind::UnexpectedEof, offset));
    }
    match nom_le_u8(tail(input, offset)) {
        Some(value) => Ok((value, 1)),
        None => Err(DecodeError::new(ErrorKind::UnexpectedEof, offset)),
    }
}

/// Reads a little-endian unsigned 16-bit integer at `offset`.
pub fn le_u16(input: &[u8], offset: usize) -> (r: Result<(u16, usize), DecodeError>)
    ensures
        r == spec_le_u16(input@, offset as int),
        r matches Ok((_, n)) ==> within(input@, offset, n),
{
    if offset > input.len() {
        return Err(DecodeError::new(ErrorKind::UnexpectedEof, offset));
    }
    match nom_le_u16(tail(input, offset)) {
        Some(value) => Ok((value, 2)),
        None => Err(DecodeError::new(ErrorKind::UnexpectedEof, offset)),
    }
}

/// Reads a little-endian signed 16-bit integer at `offset`.
pub fn le_i16(input: &[u8], offset: usize) -> (r: Result<(i16, usize), DecodeError>)
    ensures
        r == spec_le_i16(input@, offset as int),
        r matches Ok((_, n)) ==> within(input@, offset, n),
{
    if offset > input.len() {
        return Err(DecodeError::new(ErrorKind::UnexpectedEof, offset));
    }
    match nom_le_i16(tail(input, offset)) {
        Some(value) => Ok((value, 2)),
        None => Err(DecodeError::new(ErrorKind::UnexpectedEof, offset)),
    }
}

/// Reads a little-endian unsigned 32-bit integer at `offset`.
pub fn le_u32(input: &[u8], offset: usize) -> (r: Result<(u32, usize), DecodeError>)
    ensures
        r == spec_le_u32(input@, offset as int),
        r matches Ok((_, n)) ==> within(input@, offset, n),
{
    if offset > input.len() {
        return Err(DecodeError::new(ErrorKind::UnexpectedEof, offset));
    }
    match nom_le_u32(tail(input, offset)) {
        Some(value) => Ok((value, 4)),
        None => Err(DecodeError::new(ErrorKind::UnexpectedEof, offset)),
    }
}

/// Reads a little-endian signed 32-bit integer at `offset`.
pub fn le_i32(input: &[u8], offset: usize) -> (r: Result<(i32, usize), DecodeError>)
    ensures
        r == spec_le_i32(input@, offset as int),
        r matches Ok((_, n)) ==> within(input@, offset, n),
{
    if offset > input.len() {
        return Err(DecodeError::new(ErrorKind::UnexpectedEof, offset));
    }
    match nom_le_i32(tail(input, offset)) {
        Some(value) => Ok((value, 4)),
        None => Err(DecodeError::new(ErrorKind::UnexpectedEof, offset)),
    }
}

/// Reads a little-endian unsigned 64-bit integer at `offset`.
pub fn le_u64(input: &[u8], offset: usize) -> (r: Result<(u64, usize), DecodeError>)
    ensures
        r == spec_le_u64(input@, offset as int),
        r matches Ok((_, n)) ==> within(input@, offset, n),
{
    if offset > input.len() {
        return Err(DecodeError::new(ErrorKind::UnexpectedEof, offset));
    }
    match nom_le_u64(tail(input, offset)) {
        Some(value) => Ok((value, 8)),
        None => Err(DecodeError::new(ErrorKind::UnexpectedEof, offset)),
    }
}

/// Reads one byte at `offset` as a boolean: zero is false, anything else is
/// true.
pub fn parse_bool(input: &[u8], offset: usize) -> (r: Result<(bool, usize), DecodeError>)
    ensures
        r == spec_parse_bool(input@, offset as int),
        r matches Ok((_, n)) ==> within(input@, offset, n),
{
    match le_u8(input, offset) {
        Ok((value, n)) => Ok((value != 0, n)),
        Err(e) => Err(e),
    }
}

/// Reads the byte at `offset` and accepts it only if it is zero.
pub fn parse_null(input: &[u8], offset: usize) -> (r: Result<((), usize), DecodeError>)
    ensures
        r == spec_parse_null(input@, offset as int),
        r matches Ok((_, n)) ==> within(input@, offset, n),
{
    match le_u8(input, offset) {
        Ok((value, n)) => {
            if value == 0 {
                Ok(((), n))
            } else {
                Err(DecodeError::new(ErrorKind::MissingNull, offset))
            }
        },
        Err(e) => Err(e),
    }
}

/// Reads one byte at `offset` if there is one. A missing byte is no error.
pub fn opt_le_u8(input: &[u8], offset: usize) -> (r: (Option<u8>, usize))
    ensures
        r == spec_opt_le_u8(input@, offset as int),
        r.0 is Some ==> within(input@, offset, r.1),
{
    match le_u8(input, offset) {
        Ok((value, n)) => (Some(value), n),
        Err(_) => (None, 0),
    }
}

/// Reads a little-endian signed 32-bit integer at `offset` if four bytes are
/// left. A shorter rest is no error, and nothing of it is consumed.
pub fn opt_le_i32(input: &[u8], offset: usize) -> (r: (Option<i32>, usize))
    ensures
        r == spec_opt_le_i32(input@, offset as int),
        r.0 is Some ==> within(input@, offset, r.1),
{
    match le_i32(input, offset) {
        Ok((value, n)) => (Some(value), n),
        Err(_) => (None, 0),
    }
}

/// Reads a null-terminated string at `offset`. The text is a copy; bytes
/// that are not UTF-8 are replaced, never rejected.
pub fn c_string(input: &[u8], offset: usize) -> (r: Result<(String, usize), DecodeError>)
    ensures
        same_step(r, spec_c_string(input@, offset as int)),
        r matches Ok((_, n)) ==> within(input@, offset, n),
{
    let len = input.len();
    if offset > len {
        return Err(DecodeError::new(ErrorKind::UnexpectedEof, offset));
    }
    let mut end: usize = offset;
    while end < len && input[end] != 0
        invariant
            offset <= end <= len,
            len == input@.len(),
            terminator_index(input@, offset as int) == terminator_index(input@, end as int),
        decreases len - end,
    {
        end += 1;
    }
    if end >= len {
        return Err(DecodeError::new(ErrorKind::UnexpectedEof, len));
    }
    let text = lossy_string(slice_subrange(input, offset, end));
    Ok((text, end - offset + 1))
}

/// Checks that a record that ends at `end` is all there is in `input`.
pub fn all_consumed(input: &[u8], end: usize) -> (r: Result<(), DecodeError>)
    ensures
        r == spec_all_consumed(input@, end as int),
{
    if end < input.len() {
        Err(DecodeError::new(ErrorKind::TrailingData, end))
    } else {
        Ok(())
    }
}

} // verus!
