//! The payload decoder: takes the declared number of bytes, verifies the
//! checksum and hands the verified bytes to the message codec.
use crate::bytes::ByteCapture;
use crate::error::DecodeError;
use crate::external::{codec_result, decode_network_message, sha256d_digest};
use crate::frame::{
    checksum_of, le_bytes, lemma_le_bytes_of_le_u32, same_four_bytes, write_u32_le, HEADER_LEN,
    MAX_PAYLOAD_LEN,
};
use crate::header::Header;
use bitcoin::consensus::encode::Error as EncodeError;
use bitcoin::p2p::message::NetworkMessage;
use vstd::prelude::*;

verus! {

broadcast use ByteCapture::lemma_wf;

/// The first four bytes of a double SHA-256 digest: the frame checksum.
pub fn checksum_from_digest(digest: &[u8; 32]) -> (r: [u8; 4])
    ensures
        r@ == digest@.subrange(0, 4),
{
    let r: [u8; 4] = [digest[0], digest[1], digest[2], digest[3]];
    assert(r@ =~= digest@.subrange(0, 4));
    r
}

/// The checksum of `data`: the first four bytes of its double SHA-256.
pub fn sha256d_checksum(data: &[u8]) -> (r: [u8; 4])
    ensures
        r@ == checksum_of(data@),
{
    let digest = sha256d_digest(data);
    checksum_from_digest(&digest)
}

/// The bytes of the frame that `header` heads over `payload`: magic,
/// command, the length's little-endian bytes, checksum, then the payload.
pub open spec fn frame_bytes(header: Header, payload: Seq<u8>) -> Seq<u8> {
    header.magic@ + header.command@ + le_bytes(header.length) + header.checksum@ + payload
}

/// A header parsed from 24 bytes heads a frame that starts with those bytes.
pub proof fn lemma_frame_bytes_parsed(header: Header, h: Seq<u8>, payload: Seq<u8>)
    requires
        h.len() == HEADER_LEN,
        header.parsed_from(h),
    ensures
        frame_bytes(header, payload) == h + payload,
{
    lemma_le_bytes_of_le_u32(h.subrange(16, 20));
    assert(h =~= h.subrange(0, 4) + h.subrange(4, 16) + h.subrange(16, 20) + h.subrange(20, 24));
    assert(frame_bytes(header, payload) =~= h + payload);
}

/// Appends `bytes` to `v`.
fn append_bytes(v: &mut Vec<u8>, bytes: &[u8])
    ensures
        final(v)@ == old(v)@ + bytes@,
{
    let mut i: usize = 0;
    while i < bytes.len()
        invariant
            i <= bytes@.len(),
            v@ == old(v)@ + bytes@.subrange(0, i as int),
        decreases bytes@.len() - i,
    {
        v.push(bytes[i]);
        i = i + 1;
        assert(v@ =~= old(v)@ + bytes@.subrange(0, i as int));
    }
    assert(bytes@.subrange(0, bytes@.len() as int) =~= bytes@);
}

/// The frame that `header` heads over `payload`, as the message codec reads it.
pub fn assemble_frame(header: &Header, payload: &[u8]) -> (r: Vec<u8>)
    requires
        payload@.len() + HEADER_LEN <= usize::MAX,
    ensures
        r@ == frame_bytes(*header, payload@),
{
    let mut frame: Vec<u8> = Vec::with_capacity(HEADER_LEN + payload.len());
    let length = write_u32_le(header.length);
    append_bytes(&mut frame, &header.magic);
    append_bytes(&mut frame, &header.command);
    append_bytes(&mut frame, &length);
    append_bytes(&mut frame, &header.checksum);
    append_bytes(&mut frame, payload);
    assert(frame@ =~= frame_bytes(*header, payload@));
    frame
}

/// What a codec answer becomes: its message, or its error wrapped as an
/// invalid payload.
pub open spec fn from_codec(r: Result<NetworkMessage, EncodeError>) -> Result<NetworkMessage, DecodeError> {
    match r {
        Ok(m) => Ok(m),
        Err(e) => Err(DecodeError::InvalidPayload(e)),
    }
}

/// What the message codec's answer becomes: its message, or its error
/// wrapped as an invalid payload.
pub fn message_from_codec(r: Result<NetworkMessage, EncodeError>) -> (out: Result<
    NetworkMessage,
    DecodeError,
>)
    ensures
        out == from_codec(r),
{
    match r {
        Ok(m) => Ok(m),
        Err(e) => Err(DecodeError::InvalidPayload(e)),
    }
}

/// Decoder for a payload whose length and checksum a validated header gave.
pub struct PayloadDecoder {
    inner: ByteCapture,
    header: Header,
}

impl PayloadDecoder {
    /// The payload bytes taken so far.
    pub closed spec fn received(&self) -> Seq<u8> {
        self.inner.received()
    }

    /// The header this payload belongs to.
    pub closed spec fn header(&self) -> Header {
        self.header
    }

    pub closed spec fn wf(&self) -> bool {
        &&& self.inner.wf()
        &&& self.inner.required() == self.header.length
        &&& self.header.length <= MAX_PAYLOAD_LEN
    }

    pub broadcast proof fn lemma_wf(&self)
        requires
            #[trigger] self.wf(),
        ensures
            self.received().len() <= self.header().length,
            self.header().length <= MAX_PAYLOAD_LEN,
    {
    }

    /// A decoder for the payload that `header` declares; it reserves room for
    /// `header.length` bytes.
    pub fn new(header: Header) -> (r: Self)
        requires
            header.length <= MAX_PAYLOAD_LEN,
        ensures
            r.wf(),
            r.header() == header,
            r.received() == Seq::<u8>::empty(),
    {
        PayloadDecoder { inner: ByteCapture::new(header.length as usize), header }
    }

    /// Takes from `bytes[*pos..]` what the payload still lacks.
    pub fn decode_chunk(&mut self, bytes: &[u8], pos: &mut usize)
        requires
            old(self).wf(),
            *old(pos) <= bytes@.len(),
        ensures
            final(self).wf(),
            final(self).header() == old(self).header(),
            *final(pos) == *old(pos) + vstd::math::min(
                bytes@.len() - *old(pos),
                old(self).header().length - old(self).received().len(),
            ),
            final(self).received() == old(self).received() + bytes@.subrange(
                *old(pos) as int,
                *final(pos) as int,
            ),
    {
        self.inner.decode_chunk(bytes, pos);
    }

    /// Whether every declared payload byte has been taken.
    pub fn is_complete(&self) -> (r: bool)
        requires
            self.wf(),
        ensures
            r == (self.received().len() == self.header().length),
    {
        self.inner.is_complete()
    }

    /// Verifies the checksum of the complete payload and decodes the message.
    pub fn end(self) -> (r: Result<NetworkMessage, DecodeError>)
        requires
            self.wf(),
        ensures
            self.received().len() < self.header().length ==> r == Err::<
                NetworkMessage,
                DecodeError,
            >(DecodeError::IncompleteMessage),
            self.received().len() == self.header().length && checksum_of(self.received())
                != self.header().checksum@ ==> r == Err::<NetworkMessage, DecodeError>(
                DecodeError::InvalidChecksum,
            ),
            self.received().len() == self.header().length && checksum_of(self.received())
                == self.header().checksum@ ==> r == from_codec(
                codec_result(frame_bytes(self.header(), self.received())),
            ),
    {
        let header = self.header;
        let payload = match self.inner.end() {
            None => return Err(DecodeError::IncompleteMessage),
            Some(p) => p,
        };
        let checksum = sha256d_checksum(payload.as_slice());
        if !same_four_bytes(&checksum, &header.checksum) {
            return Err(DecodeError::InvalidChecksum);
        }
        let frame = assemble_frame(&header, payload.as_slice());
        message_from_codec(decode_network_message(frame.as_slice()))
    }
}

} // verus!
