use evkvm::codec::{
    check_version, decode_length, decode_version, end_of_stream, read_message, read_version,
    write_message, write_version, Frame, ProtocolError, ReadError, StreamDecoder,
    MESSAGE_TIMEOUT_MILLIS, PROTOCOL_VERSION,
};

#[test]
fn version_is_two_octets_little_endian() {
    assert_eq!(PROTOCOL_VERSION, 1);
    assert_eq!(write_version(1), vec![1, 0]);
    assert_eq!(write_version(0x1234), vec![0x34, 0x12]);
    assert_eq!(read_version(&[0x34, 0x12]), Ok(0x1234));
    assert_eq!(decode_version(0xff, 0xff), 0xffff);
    assert_eq!(MESSAGE_TIMEOUT_MILLIS, 5000);
}

#[test]
fn version_round_trip() {
    for version in [0u16, 1, 2, 255, 256, 0xabcd, u16::MAX] {
        assert_eq!(read_version(&write_version(version)), Ok(version));
    }
}

#[test]
fn version_cut_short() {
    assert_eq!(read_version(&[]), Err(ReadError::Closed));
    assert_eq!(read_version(&[1]), Err(ReadError::Protocol(ProtocolError::Truncated)));
}

#[test]
fn version_mismatch_is_fatal() {
    assert_eq!(check_version(1), Ok(()));
    assert_eq!(check_version(2), Err(ProtocolError::VersionMismatch { got: 2, expected: 1 }));
    assert_eq!(check_version(0), Err(ProtocolError::VersionMismatch { got: 0, expected: 1 }));
}

#[test]
fn frame_is_length_then_payload() {
    assert_eq!(write_message(&[]), Ok(vec![0, 0, 0, 0]));
    assert_eq!(write_message(&[9, 8, 7]), Ok(vec![3, 0, 0, 0, 9, 8, 7]));
    let long = vec![0xaau8; 0x1_02_03];
    let framed = write_message(&long).unwrap();
    assert_eq!(&framed[..4], &[0x03, 0x02, 0x01, 0x00]);
    assert_eq!(&framed[4..], &long[..]);
    assert_eq!(decode_length(0x03, 0x02, 0x01, 0x00), 0x1_02_03);
    assert_eq!(decode_length(0xff, 0xff, 0xff, 0xff), u32::MAX);
}

#[test]
fn frame_round_trip() {
    for payload in [vec![], vec![1u8], vec![0u8; 255], vec![7u8; 256], vec![3u8; 70000]] {
        let framed = write_message(&payload).unwrap();
        let consumed = framed.len();
        assert_eq!(read_message(&framed), Ok(Frame { payload, consumed }));
    }
}

#[test]
fn frame_round_trip_with_more_in_the_stream() {
    let mut stream = write_message(&[1, 2, 3]).unwrap();
    stream.extend_from_slice(&write_message(&[4, 5]).unwrap());
    let first = read_message(&stream).unwrap();
    assert_eq!(first, Frame { payload: vec![1, 2, 3], consumed: 7 });
    let second = read_message(&stream[first.consumed..]).unwrap();
    assert_eq!(second, Frame { payload: vec![4, 5], consumed: 6 });
    assert_eq!(read_message(&stream[13..]), Err(ReadError::Closed));
}

#[test]
fn truncated_frame_is_a_protocol_error() {
    let framed = write_message(&[10, 20, 30, 40, 50]).unwrap();
    for kept in 1..framed.len() {
        assert_eq!(
            read_message(&framed[..kept]),
            Err(ReadError::Protocol(ProtocolError::Truncated))
        );
    }
    assert_eq!(read_message(&framed[..0]), Err(ReadError::Closed));
}

#[test]
fn end_of_stream_is_close_or_truncation() {
    assert_eq!(end_of_stream(0), ReadError::Closed);
    assert_eq!(end_of_stream(1), ReadError::Protocol(ProtocolError::Truncated));
    assert_eq!(end_of_stream(4), ReadError::Protocol(ProtocolError::Truncated));
}

#[test]
fn decoder_takes_handshake_and_frames_as_they_come() {
    let mut stream = write_version(1);
    stream.extend_from_slice(&write_message(&[1, 2, 3]).unwrap());
    stream.extend_from_slice(&write_message(&[]).unwrap());
    stream.extend_from_slice(&write_message(&[4, 5]).unwrap());

    for chunk in [1usize, 2, 3, 5, 64] {
        let mut decoder = StreamDecoder::new();
        let mut version = None;
        let mut payloads = Vec::new();
        for bytes in stream.chunks(chunk) {
            decoder.feed(bytes);
            if version.is_none() {
                version = decoder.take_version();
                if version.is_none() {
                    continue;
                }
            }
            while let Some(payload) = decoder.take_message() {
                payloads.push(payload);
            }
        }
        assert_eq!(version, Some(1));
        assert_eq!(payloads, vec![vec![1, 2, 3], vec![], vec![4, 5]]);
        assert_eq!(decoder.end(), ReadError::Closed);
    }
}

#[test]
fn decoder_waits_for_the_whole_frame() {
    let mut decoder = StreamDecoder::new();
    assert_eq!(decoder.take_version(), None);
    assert_eq!(decoder.take_message(), None);
    assert_eq!(decoder.end(), ReadError::Closed);
    decoder.feed(&[1]);
    assert_eq!(decoder.take_version(), None);
    assert_eq!(decoder.end(), ReadError::Protocol(ProtocolError::Truncated));
    decoder.feed(&[0, 2, 0, 0]);
    assert_eq!(decoder.take_version(), Some(1));
    assert_eq!(decoder.take_message(), None);
    decoder.feed(&[0, 7]);
    assert_eq!(decoder.take_message(), None);
    assert_eq!(decoder.end(), ReadError::Protocol(ProtocolError::Truncated));
    decoder.feed(&[8, 9]);
    assert_eq!(decoder.take_message(), Some(vec![7, 8]));
    assert_eq!(decoder.take_message(), None);
    assert_eq!(decoder.end(), ReadError::Protocol(ProtocolError::Truncated));
}
