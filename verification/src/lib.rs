//! Decoders for the A2S server-query protocol of the Source and GoldSource
//! engines.
//!
//! Every decoder is a pure function of the bytes it is given: it reads a
//! buffer that the caller has already received and returns either a typed
//! record or a [`error::DecodeError`] that names what went wrong and at which
//! byte. No decoder performs I/O or keeps state between calls.
//!
//! A caller first looks at the envelope of a datagram with [`packet`], which
//! tells a single packet from a fragment and hands out the payload. The
//! payload of a response, put together from its fragments where there are
//! several, then goes to the decoder that the message tag calls for:
//! [`info_source`] or [`info_goldsource`] for INFO, [`player`] for PLAYER,
//! [`rules`] for RULES, [`ping`] for PING. [`requests`] decodes what a client
//! sends. All of them read their fields with the readers of [`parser_util`].
//!
//! Each decoder comes with a specification function over `Seq<u8>` that says,
//! for every possible buffer, which record or which error is the answer; the
//! executable code is proved to return exactly that.

pub mod error;
pub mod info;
pub mod info_goldsource;
pub mod info_source;
pub mod packet;
pub mod parser_util;
pub mod ping;
pub mod player;
pub mod requests;
pub mod rules;
