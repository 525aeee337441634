//! What the library takes from the `bitcoin` crate, with the contracts relied on.
use vstd::prelude::*;

verus! {

#[verifier::external_type_specification]
#[verifier::external_body]
pub struct ExEncodeError(bitcoin::consensus::encode::Error);

#[verifier::external_type_specification]
#[verifier::external_body]
pub struct ExNetworkMessage(bitcoin::p2p::message::NetworkMessage);

#[verifier::external_type_specification]
#[verifier::external_body]
pub struct ExNetwork(bitcoin::Network);

#[verifier::external_type_specification]
#[verifier::external_body]
pub struct ExByteVecDecoder(push_decode::decoders::ByteVecDecoder);

#[verifier::external_type_specification]
#[verifier::external_body]
pub struct ExUnexpectedEnd(push_decode::error::UnexpectedEnd);

/// The bytes a push_decode `ByteVecDecoder` has collected.
pub uninterp spec fn collected(d: push_decode::decoders::ByteVecDecoder) -> Seq<u8>;

/// The number of bytes a push_decode `ByteVecDecoder` was built to collect.
pub uninterp spec fn required_len(d: push_decode::decoders::ByteVecDecoder) -> nat;

/// The double SHA-256 digest of `data`.
pub uninterp spec fn sha256d_of(data: Seq<u8>) -> Seq<u8>;

/// What the message codec reads from `frame`: a message, or why there is none.
pub uninterp spec fn codec_result(
    frame: Seq<u8>,
) -> Result<bitcoin::p2p::message::NetworkMessage, bitcoin::consensus::encode::Error>;

/// The four magic bytes that frames of `network` start with.
pub uninterp spec fn magic_of(network: bitcoin::Network) -> Seq<u8>;

/// The codec accepts a command field when, once its trailing NUL bytes are
/// cut, only ASCII bytes are left; as NUL is ASCII, that is every byte below 0x80.
pub open spec fn command_is_ascii(command: Seq<u8>) -> bool {
    forall|i: int| 0 <= i < command.len() ==> command[i] < 0x80
}

/// Relies on `bitcoin::Network::magic` and `bitcoin::p2p::Magic::to_bytes`:
/// the four magic bytes that frames of `network` start with.
#[verifier::external_body]
pub(crate) fn network_magic(network: bitcoin::Network) -> (r: [u8; 4])
    ensures
        r@ == magic_of(network),
{
    network.magic().to_bytes()
}

/// Relies on `bitcoin::consensus::encode::deserialize::<CommandString>`: it
/// reads all twelve bytes, cuts the trailing NULs and fails unless what is
/// left is ASCII.
#[verifier::external_body]
pub(crate) fn command_accepted(command: &[u8; 12]) -> (r: bool)
    ensures
        r == command_is_ascii(command@),
{
    bitcoin::consensus::encode::deserialize::<bitcoin::p2p::message::CommandString>(
        &command[..],
    ).is_ok()
}

/// Relies on `bitcoin::hashes::sha256d::Hash::hash`: the double SHA-256 of
/// `data`, a function of the bytes alone.
#[verifier::external_body]
pub(crate) fn sha256d_digest(data: &[u8]) -> (r: [u8; 32])
    ensures
        r@ == sha256d_of(data@),
{
    let digest = <bitcoin::hashes::sha256d::Hash as bitcoin::hashes::Hash>::hash(data);
    <bitcoin::hashes::sha256d::Hash as bitcoin::hashes::Hash>::to_byte_array(digest)
}

/// Relies on `bitcoin::consensus::encode::deserialize::<RawNetworkMessage>`
/// and `RawNetworkMessage::into_payload`: the message codec, which reads the
/// command from the frame and decodes the payload accordingly; its answer
/// depends on the frame's bytes alone.
#[verifier::external_body]
pub(crate) fn decode_network_message(
    frame: &[u8],
) -> (r: Result<bitcoin::p2p::message::NetworkMessage, bitcoin::consensus::encode::Error>)
    ensures
        r == codec_result(frame@),
{
    bitcoin::consensus::encode::deserialize::<bitcoin::p2p::message::RawNetworkMessage>(
        frame,
    ).map(bitcoin::p2p::message::RawNetworkMessage::into_payload)
}

/// Relies on `push_decode::decoders::ByteVecDecoder::new`: an empty buffer
/// that will take `required` bytes.
#[verifier::external_body]
pub(crate) fn byte_vec_new(required: usize) -> (r: push_decode::decoders::ByteVecDecoder)
    ensures
        collected(r) == Seq::<u8>::empty(),
        required_len(r) == required,
{
    push_decode::decoders::ByteVecDecoder::new(required)
}

/// Relies on `push_decode::Decoder::bytes_received` for `ByteVecDecoder`: it
/// copies the first `min(bytes.len(), required - collected)` bytes, never
/// fails, and returns how many it took.
#[verifier::external_body]
pub(crate) fn byte_vec_take(d: &mut push_decode::decoders::ByteVecDecoder, bytes: &[u8]) -> (r:
    Result<usize, push_decode::error::UnexpectedEnd>)
    requires
        collected(*old(d)).len() <= required_len(*old(d)),
    ensures
        r.is_ok(),
        r->Ok_0 == vstd::math::min(
            bytes@.len() as int,
            required_len(*old(d)) - collected(*old(d)).len(),
        ),
        required_len(*final(d)) == required_len(*old(d)),
        collected(*final(d)) == collected(*old(d)) + bytes@.subrange(0, r->Ok_0 as int),
{
    push_decode::Decoder::bytes_received(d, bytes)
}

/// Relies on `push_decode::Decoder::end` for `ByteVecDecoder`: the collected
/// bytes once all required ones are in, an error before.
#[verifier::external_body]
pub(crate) fn byte_vec_end(d: push_decode::decoders::ByteVecDecoder) -> (r: Result<
    Vec<u8>,
    push_decode::error::UnexpectedEnd,
>)
    ensures
        collected(d).len() < required_len(d) ==> r.is_err(),
        collected(d).len() >= required_len(d) ==> r.is_ok() && r->Ok_0@ == collected(d),
{
    push_decode::Decoder::end(d)
}

} // verus!
