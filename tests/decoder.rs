use bitcoin::consensus::encode;
use bitcoin::p2p::message::{NetworkMessage, RawNetworkMessage};
use bitcoin::Network;
use bitcoin_codecs::bytes::ByteCapture;
use bitcoin_codecs::error::DecodeError;
use bitcoin_codecs::frame::{command_is_padded_token, read_u32_le, write_u32_le, HEADER_LEN, MAX_PAYLOAD_LEN};
use bitcoin_codecs::header::{parse_header_fields, validate_header, HeaderDecoder};
use bitcoin_codecs::message::V1MessageDecoder;
use bitcoin_codecs::payload::{
    assemble_frame, checksum_from_digest, message_from_codec, sha256d_checksum, PayloadDecoder,
};

fn encoded(network: Network, msg: NetworkMessage) -> Vec<u8> {
    encode::serialize(&RawNetworkMessage::new(network.magic(), msg))
}

fn mainnet_magic() -> [u8; 4] {
    Network::Bitcoin.magic().to_bytes()
}

/// Offers `bytes` in chunks of `size` and ends the decoder.
fn decode_in_chunks(bytes: &[u8], size: usize) -> Result<NetworkMessage, DecodeError> {
    let mut decoder = V1MessageDecoder::new(Network::Bitcoin);
    for chunk in bytes.chunks(size) {
        let mut pos = 0;
        decoder.decode_chunk(chunk, &mut pos)?;
        assert_eq!(pos, chunk.len());
    }
    decoder.end()
}

fn header_with(magic: [u8; 4], command: &[u8], length: u32, checksum: [u8; 4]) -> Vec<u8> {
    let mut h = Vec::new();
    h.extend_from_slice(&magic);
    let mut cmd = [0u8; 12];
    cmd[..command.len()].copy_from_slice(command);
    h.extend_from_slice(&cmd);
    h.extend_from_slice(&length.to_le_bytes());
    h.extend_from_slice(&checksum);
    h
}

#[test]
fn ping_round_trip() {
    let frame = encoded(Network::Bitcoin, NetworkMessage::Ping(0x1234567890abcdef));
    let msg = decode_in_chunks(&frame, frame.len()).unwrap();
    assert_eq!(msg, NetworkMessage::Ping(0x1234567890abcdef));
}

#[test]
fn pong_and_verack_round_trip() {
    let frame = encoded(Network::Bitcoin, NetworkMessage::Pong(42));
    assert_eq!(decode_in_chunks(&frame, 7).unwrap(), NetworkMessage::Pong(42));
    let frame = encoded(Network::Bitcoin, NetworkMessage::Verack);
    assert_eq!(frame.len(), HEADER_LEN);
    assert_eq!(decode_in_chunks(&frame, 24).unwrap(), NetworkMessage::Verack);
}

#[test]
fn chunk_sizes_give_the_same_message() {
    let frame = encoded(Network::Bitcoin, NetworkMessage::Ping(7));
    let whole = decode_in_chunks(&frame, frame.len()).unwrap();
    let quarters = decode_in_chunks(&frame, frame.len() / 4).unwrap();
    let bytewise = decode_in_chunks(&frame, 1).unwrap();
    assert_eq!(whole, NetworkMessage::Ping(7));
    assert_eq!(quarters, whole);
    assert_eq!(bytewise, whole);
}

#[test]
fn leaves_the_next_frame_unread() {
    let mut stream = encoded(Network::Bitcoin, NetworkMessage::Ping(1));
    let first_len = stream.len();
    stream.extend(encoded(Network::Bitcoin, NetworkMessage::Pong(2)));
    let mut pos = 0;
    let mut first = V1MessageDecoder::new(Network::Bitcoin);
    first.decode_chunk(&stream, &mut pos).unwrap();
    assert_eq!(pos, first_len);
    assert!(first.is_complete());
    assert_eq!(first.end().unwrap(), NetworkMessage::Ping(1));
    let mut second = V1MessageDecoder::new(Network::Bitcoin);
    second.decode_chunk(&stream, &mut pos).unwrap();
    assert_eq!(pos, stream.len());
    assert_eq!(second.end().unwrap(), NetworkMessage::Pong(2));
}

#[test]
fn wrong_magic_rejected_before_payload() {
    let frame = encoded(Network::Testnet, NetworkMessage::Ping(5));
    let mut decoder = V1MessageDecoder::new(Network::Bitcoin);
    let mut pos = 0;
    let err = decoder.decode_chunk(&frame, &mut pos).unwrap_err();
    assert_eq!(pos, HEADER_LEN);
    match err {
        DecodeError::WrongMagic { expected, actual } => {
            assert_eq!(expected, mainnet_magic());
            assert_eq!(actual, Network::Testnet.magic().to_bytes());
        }
        other => panic!("unexpected error {:?}", other),
    }
    assert!(decoder.is_complete());
    assert!(matches!(decoder.end(), Err(DecodeError::WrongMagic { .. })));
}

#[test]
fn oversized_length_rejected_at_header() {
    let header = header_with(mainnet_magic(), b"block", MAX_PAYLOAD_LEN + 1, [0; 4]);
    let mut stream = header.clone();
    stream.extend_from_slice(&[0xab; 100]);
    let mut decoder = V1MessageDecoder::new(Network::Bitcoin);
    let mut pos = 0;
    let err = decoder.decode_chunk(&stream, &mut pos).unwrap_err();
    assert!(matches!(err, DecodeError::PayloadTooLarge(33554433)));
    assert_eq!(pos, HEADER_LEN);
    assert!(matches!(decoder.end(), Err(DecodeError::PayloadTooLarge(33554433))));
}

#[test]
fn largest_length_accepted() {
    let header = header_with(mainnet_magic(), b"block", MAX_PAYLOAD_LEN, [0; 4]);
    let mut decoder = V1MessageDecoder::with_magic(mainnet_magic());
    let mut pos = 0;
    decoder.decode_chunk(&header, &mut pos).unwrap();
    assert_eq!(pos, HEADER_LEN);
    assert!(!decoder.is_complete());
    assert!(matches!(decoder.end(), Err(DecodeError::IncompleteMessage)));
}

#[test]
fn invalid_command_rejected() {
    let header = header_with(mainnet_magic(), &[b'p', 0x80, b'n', b'g'], 0, [0; 4]);
    let mut decoder = V1MessageDecoder::new(Network::Bitcoin);
    let mut pos = 0;
    let err = decoder.decode_chunk(&header, &mut pos).unwrap_err();
    assert!(matches!(err, DecodeError::InvalidCommand));
    // The command is checked before the magic.
    let header = header_with([1, 2, 3, 4], &[0xff], 0, [0; 4]);
    let mut decoder = V1MessageDecoder::new(Network::Bitcoin);
    let mut pos = 0;
    assert!(matches!(decoder.decode_chunk(&header, &mut pos), Err(DecodeError::InvalidCommand)));
}

#[test]
fn control_byte_in_command_rejected() {
    let header = header_with(mainnet_magic(), &[b'p', 0x01, b'n', b'g'], 0, [0; 4]);
    let mut decoder = V1MessageDecoder::new(Network::Bitcoin);
    let mut pos = 0;
    let err = decoder.decode_chunk(&header, &mut pos).unwrap_err();
    assert!(matches!(err, DecodeError::InvalidCommand));
    assert_eq!(pos, HEADER_LEN);
}

#[test]
fn byte_after_padding_rejected() {
    let header = header_with(mainnet_magic(), b"a\0b", 0, [0; 4]);
    let mut decoder = V1MessageDecoder::new(Network::Bitcoin);
    let mut pos = 0;
    let err = decoder.decode_chunk(&header, &mut pos).unwrap_err();
    assert!(matches!(err, DecodeError::InvalidCommand));
}

#[test]
fn padded_token_check() {
    assert!(command_is_padded_token(b"ping\0\0\0\0\0\0\0\0"));
    assert!(command_is_padded_token(b"sendheaders\0"));
    assert!(command_is_padded_token(&[0; 12]));
    assert!(!command_is_padded_token(b"pi ng\0\0\0\0\0\0\x7f"));
    assert!(!command_is_padded_token(b"a\0b\0\0\0\0\0\0\0\0\0"));
    assert!(!command_is_padded_token(b"\x1fing\0\0\0\0\0\0\0\0"));
    assert!(!command_is_padded_token(b"pin\x80\0\0\0\0\0\0\0\0"));
}

#[test]
fn flipped_payload_byte_fails_checksum() {
    let frame = encoded(Network::Bitcoin, NetworkMessage::Ping(0x1122334455667788));
    for i in HEADER_LEN..frame.len() {
        let mut bad = frame.clone();
        bad[i] ^= 0x01;
        assert!(matches!(decode_in_chunks(&bad, 5), Err(DecodeError::InvalidChecksum)));
    }
}

#[test]
fn short_input_then_rest() {
    let frame = encoded(Network::Bitcoin, NetworkMessage::Ping(99));
    for cut in 0..frame.len() {
        assert!(matches!(
            decode_in_chunks(&frame[..cut], 3),
            Err(DecodeError::IncompleteMessage)
        ));
        let mut decoder = V1MessageDecoder::new(Network::Bitcoin);
        let mut pos = 0;
        decoder.decode_chunk(&frame[..cut], &mut pos).unwrap();
        assert!(!decoder.is_complete());
        let mut pos = cut;
        decoder.decode_chunk(&frame, &mut pos).unwrap();
        assert_eq!(pos, frame.len());
        assert_eq!(decoder.end().unwrap(), NetworkMessage::Ping(99));
    }
}

#[test]
fn codec_failure_is_invalid_payload() {
    let payload = [1u8, 2, 3];
    let checksum = sha256d_checksum(&payload);
    let mut frame = header_with(mainnet_magic(), b"ping", 3, checksum);
    frame.extend_from_slice(&payload);
    assert!(matches!(decode_in_chunks(&frame, 2), Err(DecodeError::InvalidPayload(_))));
}

#[test]
fn checksum_of_empty_input() {
    // sha256d("") = 5df6e0e2761359d3...
    assert_eq!(sha256d_checksum(&[]), [0x5d, 0xf6, 0xe0, 0xe2]);
    let mut digest = [0u8; 32];
    for (i, b) in digest.iter_mut().enumerate() {
        *b = i as u8 + 10;
    }
    assert_eq!(checksum_from_digest(&digest), [10, 11, 12, 13]);
}

#[test]
fn little_endian_fields() {
    assert_eq!(read_u32_le(&[9, 0x78, 0x56, 0x34, 0x12], 1), 0x12345678);
    assert_eq!(write_u32_le(0x12345678), [0x78, 0x56, 0x34, 0x12]);
    assert_eq!(write_u32_le(33554433), [1, 0, 0, 2]);
}

#[test]
fn byte_capture_takes_only_what_it_needs() {
    let mut d = ByteCapture::new(3);
    let mut pos = 0;
    d.decode_chunk(&[], &mut pos);
    assert_eq!(pos, 0);
    d.decode_chunk(&[1, 2], &mut pos);
    assert_eq!(pos, 2);
    assert!(!d.is_complete());
    let mut pos = 0;
    d.decode_chunk(&[3, 4, 5], &mut pos);
    assert_eq!(pos, 1);
    assert!(d.is_complete());
    assert_eq!(d.end(), Some(vec![1, 2, 3]));
    let short = ByteCapture::new(2);
    assert_eq!(short.end(), None);
}

#[test]
fn header_decoder_parses_fields() {
    let frame = encoded(Network::Bitcoin, NetworkMessage::Ping(3));
    let mut d = HeaderDecoder::new(mainnet_magic());
    let mut pos = 0;
    d.decode_chunk(&frame, &mut pos);
    assert_eq!(pos, HEADER_LEN);
    assert!(d.is_complete());
    let h = d.end().unwrap();
    assert_eq!(h.magic, mainnet_magic());
    assert_eq!(&h.command[..5], b"ping\0");
    assert_eq!(h.length, 8);
    assert_eq!(h.checksum, sha256d_checksum(&frame[HEADER_LEN..]));
    let empty = HeaderDecoder::new(mainnet_magic());
    assert!(matches!(empty.end(), Err(DecodeError::IncompleteMessage)));
}

#[test]
fn header_validation_order() {
    let fields = parse_header_fields(&header_with([0; 4], b"inv", MAX_PAYLOAD_LEN + 1, [0; 4]));
    match validate_header(mainnet_magic(), fields) {
        Err(DecodeError::WrongMagic { expected, actual }) => {
            assert_eq!(expected, mainnet_magic());
            assert_eq!(actual, [0; 4]);
        }
        other => panic!("unexpected {:?}", other),
    }
    let fields = parse_header_fields(&header_with(mainnet_magic(), b"inv", 10, [0; 4]));
    assert!(validate_header(mainnet_magic(), fields).is_ok());
}

#[test]
fn payload_decoder_checks_and_decodes() {
    let frame = encoded(Network::Bitcoin, NetworkMessage::Ping(11));
    let header = parse_header_fields(&frame[..HEADER_LEN]);
    let mut p = PayloadDecoder::new(header);
    let mut pos = HEADER_LEN;
    p.decode_chunk(&frame, &mut pos);
    assert_eq!(pos, frame.len());
    assert!(p.is_complete());
    assert_eq!(p.end().unwrap(), NetworkMessage::Ping(11));
    let p = PayloadDecoder::new(header);
    assert!(matches!(p.end(), Err(DecodeError::IncompleteMessage)));
}

#[test]
fn assembled_frame_matches_encoder() {
    let frame = encoded(Network::Bitcoin, NetworkMessage::Ping(123456));
    let header = parse_header_fields(&frame[..HEADER_LEN]);
    assert_eq!(assemble_frame(&header, &frame[HEADER_LEN..]), frame);
}

#[test]
fn codec_result_mapping() {
    assert_eq!(message_from_codec(Ok(NetworkMessage::Verack)).unwrap(), NetworkMessage::Verack);
    let err = encode::Error::ParseFailed("bad");
    assert!(matches!(message_from_codec(Err(err)), Err(DecodeError::InvalidPayload(_))));
}

#[test]
fn empty_input_is_incomplete() {
    let decoder = V1MessageDecoder::new(Network::Bitcoin);
    assert!(!decoder.is_complete());
    assert!(matches!(decoder.end(), Err(DecodeError::IncompleteMessage)));
}
