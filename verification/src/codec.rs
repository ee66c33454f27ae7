//! The wire format: the version handshake of two octets and the frames that
//! carry one serialized message each behind its length.

use vstd::prelude::*;

use crate::event::Event;

verus! {

/// The version of the protocol that this library speaks.
pub const PROTOCOL_VERSION: u16 = 1;

/// Milliseconds after which a read or a write of one message has failed.
pub const MESSAGE_TIMEOUT_MILLIS: u64 = 5000;

/// Octets of the version handshake.
pub const VERSION_LEN: usize = 2;

/// Octets of the length in front of a frame's payload.
pub const HEADER_LEN: usize = 4;

/// One message of the protocol.
#[derive(Clone, Debug, PartialEq, Eq)]
pub enum Message {
    Event(Event),
    /// Sent only to keep the connection alive.
    KeepAlive,
}

/// What breaks the protocol.
#[derive(Clone, Copy, Debug, PartialEq, Eq, Structural)]
pub enum ProtocolError {
    /// The peer speaks another version.
    VersionMismatch { got: u16, expected: u16 },
    /// The stream ended inside a handshake or a frame.
    Truncated,
    /// The payload of a frame is no message.
    Malformed,
    /// The payload is longer than a frame can say.
    TooLarge,
}

/// Why nothing could be read.
#[derive(Clone, Copy, Debug, PartialEq, Eq, Structural)]
pub enum ReadError {
    /// The stream ended where a handshake or a frame would have begun.
    Closed,
    Protocol(ProtocolError),
}

/// One frame taken from the front of a stream.
#[derive(Clone, Debug, PartialEq, Eq)]
pub struct Frame {
    /// The serialized message.
    pub payload: Vec<u8>,
    /// How many octets of the stream the frame took.
    pub consumed: usize,
}

/// The two octets of a version, the low one first.
pub open spec fn version_bytes(version: u16) -> Seq<u8> {
    seq![(version % 256) as u8, (version / 256) as u8]
}

/// The version that two octets stand for, the low one first.
pub open spec fn version_of(low: u8, high: u8) -> u16 {
    (low + 256 * high) as u16
}

/// The four octets of a length, the lowest first.
pub open spec fn length_bytes(length: u32) -> Seq<u8> {
    seq![
        (length % 256) as u8,
        ((length / 256) % 256) as u8,
        ((length / 65536) % 256) as u8,
        (length / 16777216) as u8,
    ]
}

/// The length that four octets stand for, the lowest first.
pub open spec fn length_of(b0: u8, b1: u8, b2: u8, b3: u8) -> u32 {
    (b0 + 256 * b1 + 65536 * b2 + 16777216 * b3) as u32
}

/// A payload in its frame: the length, then the payload.
pub open spec fn frame(payload: Seq<u8>) -> Seq<u8>
    recommends
        payload.len() <= u32::MAX,
{
    length_bytes(payload.len() as u32) + payload
}

/// What stands at the front of a stream that ends after `stream`: a version,
/// or the reason why there is none.
pub open spec fn parse_version(stream: Seq<u8>) -> Result<u16, ReadError> {
    if stream.len() == 0 {
        Err(ReadError::Closed)
    } else if stream.len() < 2 {
        Err(ReadError::Protocol(ProtocolError::Truncated))
    } else {
        Ok(version_of(stream[0], stream[1]))
    }
}

/// What stands at the front of a stream that ends after `stream`: the
/// payload of a frame and the octets that the frame took, or the reason why
/// there is none.
pub open spec fn parse_frame(stream: Seq<u8>) -> Result<(Seq<u8>, int), ReadError> {
    if stream.len() == 0 {
        Err(ReadError::Closed)
    } else if stream.len() < 4 {
        Err(ReadError::Protocol(ProtocolError::Truncated))
    } else {
        let length = length_of(stream[0], stream[1], stream[2], stream[3]) as int;
        if stream.len() < 4 + length {
            Err(ReadError::Protocol(ProtocolError::Truncated))
        } else {
            Ok((stream.subrange(4, 4 + length), 4 + length))
        }
    }
}

/// The octets that announce `version`.
pub fn write_version(version: u16) -> (bytes: Vec<u8>)
    ensures
        bytes@ == version_bytes(version),
{
    let mut bytes: Vec<u8> = Vec::new();
    bytes.push((version % 256) as u8);
    bytes.push((version / 256) as u8);
    assert(bytes@ =~= version_bytes(version));
    bytes
}

/// The version at the front of a stream of which `stream` is all that came
/// before its end.
pub fn read_version(stream: &[u8]) -> (version: Result<u16, ReadError>)
    ensures
        version == parse_version(stream@),
{
    if stream.len() == 0 {
        Err(ReadError::Closed)
    } else if stream.len() < VERSION_LEN {
        Err(ReadError::Protocol(ProtocolError::Truncated))
    } else {
        Ok(decode_version(stream[0], stream[1]))
    }
}

/// The version that two octets stand for, the low one first.
pub fn decode_version(low: u8, high: u8) -> (version: u16)
    ensures
        version == version_of(low, high),
{
    low as u16 + 256 * (high as u16)
}

/// Whether a peer that announced `got` can be talked to: only one that
/// speaks this library's version.
pub fn check_version(got: u16) -> (checked: Result<(), ProtocolError>)
    ensures
        checked == if got == PROTOCOL_VERSION {
            Ok::<(), ProtocolError>(())
        } else {
            Err::<(), ProtocolError>(
                ProtocolError::VersionMismatch { got, expected: PROTOCOL_VERSION },
            )
        },
{
    if got == PROTOCOL_VERSION {
        Ok(())
    } else {
        Err(ProtocolError::VersionMismatch { got, expected: PROTOCOL_VERSION })
    }
}

/// The length that the four octets in front of a payload stand for.
pub fn decode_length(b0: u8, b1: u8, b2: u8, b3: u8) -> (length: u32)
    ensures
        length == length_of(b0, b1, b2, b3),
{
    b0 as u32 + 256 * (b1 as u32) + 65536 * (b2 as u32) + 16777216 * (b3 as u32)
}

/// What the end of the stream means after `consumed` octets of a handshake
/// or a frame: a clean close before the first, a truncation after it.
pub fn end_of_stream(consumed: usize) -> (error: ReadError)
    ensures
        error == if consumed == 0 {
            ReadError::Closed
        } else {
            ReadError::Protocol(ProtocolError::Truncated)
        },
{
    if consumed == 0 {
        ReadError::Closed
    } else {
        ReadError::Protocol(ProtocolError::Truncated)
    }
}

/// The frame that carries `payload`. A payload of more than 2^32 - 1 octets
/// has no frame.
pub fn write_message(payload: &[u8]) -> (framed: Result<Vec<u8>, ProtocolError>)
    ensures
        match framed {
            Ok(bytes) => payload@.len() <= u32::MAX && bytes@ == frame(payload@),
            Err(error) => payload@.len() > u32::MAX && error == ProtocolError::TooLarge,
        },
{
    if payload.len() > u32::MAX as usize {
        return Err(ProtocolError::TooLarge);
    }
    let length: u32 = payload.len() as u32;
    let mut bytes: Vec<u8> = Vec::new();
    bytes.push((length % 256) as u8);
    bytes.push(((length / 256) % 256) as u8);
    bytes.push(((length / 65536) % 256) as u8);
    bytes.push((length / 16777216) as u8);
    assert(bytes@ =~= length_bytes(length));
    bytes.extend_from_slice(payload);
    Ok(bytes)
}

/// The frame at the front of a stream of which `stream` is all that came
/// before its end.
pub fn read_message(stream: &[u8]) -> (read: Result<Frame, ReadError>)
    ensures
        match read {
            Ok(found) => parse_frame(stream@) == Ok::<(Seq<u8>, int), ReadError>(
                (found.payload@, found.consumed as int),
            ),
            Err(error) => parse_frame(stream@) == Err::<(Seq<u8>, int), ReadError>(error),
        },
{
    if stream.len() < HEADER_LEN {
        return Err(end_of_stream(stream.len()));
    }
    let length: u32 = decode_length(stream[0], stream[1], stream[2], stream[3]);
    if stream.len() - HEADER_LEN < length as usize {
        return Err(ReadError::Protocol(ProtocolError::Truncated));
    }
    let end: usize = HEADER_LEN + length as usize;
    let mut payload: Vec<u8> = Vec::new();
    let mut at: usize = HEADER_LEN;
    while at < end
        invariant
            HEADER_LEN <= at <= end <= stream.len(),
            payload@ == stream@.subrange(HEADER_LEN as int, at as int),
        decreases end - at,
    {
        payload.push(stream[at]);
        assert(stream@.subrange(HEADER_LEN as int, at as int + 1) =~= stream@.subrange(
            HEADER_LEN as int,
            at as int,
        ).push(stream@[at as int]));
        at += 1;
    }
    Ok(Frame { payload, consumed: end })
}

/// What has come from a stream and has not been taken yet. The caller
/// feeds it what it reads and takes the handshake and the frames out of it;
/// where nothing can be taken, more has to be read first.
#[derive(Debug)]
pub struct StreamDecoder {
    pending: Vec<u8>,
}

impl StreamDecoder {
    /// The octets that came and were not taken yet.
    pub closed spec fn pending(&self) -> Seq<u8> {
        self.pending@
    }

    /// A decoder at the start of a stream.
    pub fn new() -> (decoder: Self)
        ensures
            decoder.pending() == Seq::<u8>::empty(),
    {
        StreamDecoder { pending: Vec::new() }
    }

    /// Takes what was read from the stream.
    pub fn feed(&mut self, bytes: &[u8])
        ensures
            final(self).pending() == old(self).pending() + bytes@,
    {
        self.pending.extend_from_slice(bytes);
        assert(self.pending@ =~= old(self).pending@ + bytes@);
    }

    /// The version at the front of what came, once both of its octets are
    /// there.
    pub fn take_version(&mut self) -> (version: Option<u16>)
        ensures
            match version {
                Some(found) => parse_version(old(self).pending()) == Ok::<u16, ReadError>(found)
                    && final(self).pending() == old(self).pending().skip(2),
                None => parse_version(old(self).pending()).is_err() && final(self).pending()
                    == old(self).pending(),
            },
    {
        match read_version(self.pending.as_slice()) {
            Ok(found) => {
                let rest = self.pending.split_off(VERSION_LEN);
                self.pending = rest;
                assert(self.pending@ =~= old(self).pending@.skip(2));
                Some(found)
            },
            Err(_) => None,
        }
    }

    /// The payload of the frame at the front of what came, once the whole
    /// frame is there.
    pub fn take_message(&mut self) -> (payload: Option<Vec<u8>>)
        ensures
            match payload {
                Some(found) => parse_frame(old(self).pending()) == Ok::<(Seq<u8>, int), ReadError>(
                    (found@, 4 + found@.len() as int),
                ) && final(self).pending() == old(self).pending().skip(4 + found@.len() as int),
                None => parse_frame(old(self).pending()).is_err() && final(self).pending()
                    == old(self).pending(),
            },
    {
        match read_message(self.pending.as_slice()) {
            Ok(found) => {
                let rest = self.pending.split_off(found.consumed);
                self.pending = rest;
                assert(self.pending@ =~= old(self).pending@.skip(found.consumed as int));
                Some(found.payload)
            },
            Err(_) => None,
        }
    }

    /// What it means that the stream has ended, once nothing more can be
    /// taken: a clean close where nothing is left, a truncation where the
    /// beginning of a handshake or of a frame is.
    pub fn end(&self) -> (error: ReadError)
        ensures
            error == if self.pending().len() == 0 {
                ReadError::Closed
            } else {
                ReadError::Protocol(ProtocolError::Truncated)
            },
            parse_frame(self.pending()).is_err() ==> parse_frame(self.pending()) == Err::<
                (Seq<u8>, int),
                ReadError,
            >(error),
            parse_version(self.pending()).is_err() ==> parse_version(self.pending()) == Err::<
                u16,
                ReadError,
            >(error),
    {
        end_of_stream(self.pending.len())
    }
}

/// A version that was written is the version that is read.
pub proof fn lemma_version_round_trip(version: u16)
    ensures
        parse_version(version_bytes(version)) == Ok::<u16, ReadError>(version),
{
}

/// A version cut short is no version: the end of the stream before the
/// first octet is a close, after it a truncation.
pub proof fn lemma_version_truncated(version: u16, kept: int)
    requires
        0 <= kept < 2,
    ensures
        parse_version(version_bytes(version).subrange(0, kept)) == Err::<u16, ReadError>(
            if kept == 0 {
                ReadError::Closed
            } else {
                ReadError::Protocol(ProtocolError::Truncated)
            },
        ),
{
}

/// The octets of a length stand for that length.
pub proof fn lemma_length_round_trip(length: u32)
    ensures
        length_bytes(length).len() == 4,
        length_of(
            length_bytes(length)[0],
            length_bytes(length)[1],
            length_bytes(length)[2],
            length_bytes(length)[3],
        ) == length,
{
}

/// A payload that was framed is the payload that is read, whatever follows
/// the frame in the stream, and the frame is what the read takes.
pub proof fn lemma_frame_round_trip(payload: Seq<u8>, rest: Seq<u8>)
    requires
        payload.len() <= u32::MAX,
    ensures
        parse_frame(frame(payload) + rest) == Ok::<(Seq<u8>, int), ReadError>(
            (payload, frame(payload).len() as int),
        ),
{
    let stream = frame(payload) + rest;
    lemma_length_round_trip(payload.len() as u32);
    assert(stream.subrange(4, 4 + payload.len() as int) =~= payload);
}

/// A frame cut short is a protocol error: a stream that ends inside a frame,
/// after its first octet, is truncated.
pub proof fn lemma_frame_truncated(payload: Seq<u8>, kept: int)
    requires
        payload.len() <= u32::MAX,
        0 < kept < frame(payload).len(),
    ensures
        parse_frame(frame(payload).subrange(0, kept)) == Err::<(Seq<u8>, int), ReadError>(
            ReadError::Protocol(ProtocolError::Truncated),
        ),
{
    lemma_length_round_trip(payload.len() as u32);
}

/// Frames that were written one after the other are read one after the
/// other: once the first is taken, the second is at the front.
pub proof fn lemma_frames_in_sequence(first: Seq<u8>, second: Seq<u8>, rest: Seq<u8>)
    requires
        first.len() <= u32::MAX,
        second.len() <= u32::MAX,
    ensures
        parse_frame(frame(first) + frame(second) + rest) == Ok::<(Seq<u8>, int), ReadError>(
            (first, frame(first).len() as int),
        ),
        parse_frame((frame(first) + frame(second) + rest).skip(frame(first).len() as int))
            == Ok::<(Seq<u8>, int), ReadError>((second, frame(second).len() as int)),
{
    let stream = frame(first) + frame(second) + rest;
    assert(stream =~= frame(first) + (frame(second) + rest));
    lemma_frame_round_trip(first, frame(second) + rest);
    assert(stream.skip(frame(first).len() as int) =~= frame(second) + rest);
    lemma_frame_round_trip(second, rest);
}

/// A stream that ends before a frame begins is closed.
pub proof fn lemma_frame_closed(payload: Seq<u8>)
    ensures
        parse_frame(frame(payload).subrange(0, 0)) == Err::<(Seq<u8>, int), ReadError>(
            ReadError::Closed,
        ),
{
}

} // verus!
