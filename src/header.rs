//! The frame header and its decoder.
use crate::bytes::ByteCapture;
use crate::error::DecodeError;
use crate::external::command_accepted;
use crate::frame::{
    checksum_field, command_field, fields_valid, header_valid, is_fields_error, is_header_error, length_field, magic_field,
    command_is_padded_token, read_u32_le, same_four_bytes, HEADER_LEN, MAX_PAYLOAD_LEN,
};
use vstd::prelude::*;

verus! {

broadcast use ByteCapture::lemma_wf;

/// A parsed frame header.
#[derive(Clone, Copy, Debug)]
pub struct Header {
    /// Network magic bytes.
    pub magic: [u8; 4],
    /// Command name, NUL-padded.
    pub command: [u8; 12],
    /// Payload length.
    pub length: u32,
    /// Payload checksum.
    pub checksum: [u8; 4],
}

impl Header {
    /// This header is the one that the 24 bytes `h` spell.
    pub open spec fn parsed_from(&self, h: Seq<u8>) -> bool {
        &&& self.magic@ == magic_field(h)
        &&& self.command@ == command_field(h)
        &&& self.length == length_field(h)
        &&& self.checksum@ == checksum_field(h)
    }
}

/// Reads the header fields out of 24 bytes, without validating them.
pub fn parse_header_fields(h: &[u8]) -> (r: Header)
    requires
        h@.len() == HEADER_LEN,
    ensures
        r.parsed_from(h@),
{
    let magic: [u8; 4] = [h[0], h[1], h[2], h[3]];
    let command: [u8; 12] = [
        h[4], h[5], h[6], h[7], h[8], h[9], h[10], h[11], h[12], h[13], h[14], h[15],
    ];
    let length: u32 = read_u32_le(h, 16);
    let checksum: [u8; 4] = [h[20], h[21], h[22], h[23]];
    assert(magic@ =~= magic_field(h@));
    assert(command@ =~= command_field(h@));
    assert(checksum@ =~= checksum_field(h@));
    Header { magic, command, length, checksum }
}

/// Validates parsed header fields against the configured magic: the command
/// first (the codec must accept it, and it must be a printable token padded
/// with NULs), then the magic, then the declared length.
pub fn validate_header(expected_magic: [u8; 4], header: Header) -> (r: Result<Header, DecodeError>)
    ensures
        fields_valid(expected_magic@, header.magic@, header.command@, header.length as int) ==> r
            == Ok::<Header, DecodeError>(header),
        !fields_valid(expected_magic@, header.magic@, header.command@, header.length as int)
            ==> r.is_err() && is_fields_error(
            expected_magic,
            header.magic@,
            header.command@,
            header.length as int,
            r->Err_0,
        ),
{
    if !command_accepted(&header.command) || !command_is_padded_token(&header.command) {
        return Err(DecodeError::InvalidCommand);
    }
    if !same_four_bytes(&header.magic, &expected_magic) {
        return Err(DecodeError::WrongMagic { expected: expected_magic, actual: header.magic });
    }
    if header.length > MAX_PAYLOAD_LEN {
        return Err(DecodeError::PayloadTooLarge(header.length as usize));
    }
    Ok(header)
}

/// Decoder for the 24-byte frame header.
pub struct HeaderDecoder {
    inner: ByteCapture,
    expected_magic: [u8; 4],
}

impl HeaderDecoder {
    /// The header bytes taken so far.
    pub closed spec fn received(&self) -> Seq<u8> {
        self.inner.received()
    }

    /// The magic this decoder accepts.
    pub closed spec fn expected_magic(&self) -> [u8; 4] {
        self.expected_magic
    }

    pub closed spec fn wf(&self) -> bool {
        self.inner.wf() && self.inner.required() == HEADER_LEN
    }

    pub broadcast proof fn lemma_wf(&self)
        requires
            #[trigger] self.wf(),
        ensures
            self.received().len() <= HEADER_LEN,
    {
    }

    pub fn new(expected_magic: [u8; 4]) -> (r: Self)
        ensures
            r.wf(),
            r.received() == Seq::<u8>::empty(),
            r.expected_magic() == expected_magic,
    {
        HeaderDecoder { inner: ByteCapture::new(HEADER_LEN), expected_magic }
    }

    /// Takes from `bytes[*pos..]` what the header still lacks.
    pub fn decode_chunk(&mut self, bytes: &[u8], pos: &mut usize)
        requires
            old(self).wf(),
            *old(pos) <= bytes@.len(),
        ensures
            final(self).wf(),
            final(self).expected_magic() == old(self).expected_magic(),
            *final(pos) == *old(pos) + vstd::math::min(
                bytes@.len() - *old(pos),
                HEADER_LEN - old(self).received().len(),
            ),
            final(self).received() == old(self).received() + bytes@.subrange(
                *old(pos) as int,
                *final(pos) as int,
            ),
    {
        self.inner.decode_chunk(bytes, pos);
    }

    /// Whether all 24 header bytes have been taken.
    pub fn is_complete(&self) -> (r: bool)
        requires
            self.wf(),
        ensures
            r == (self.received().len() == HEADER_LEN),
    {
        self.inner.is_complete()
    }

    /// The validated header, or why there is none.
    pub fn end(self) -> (r: Result<Header, DecodeError>)
        requires
            self.wf(),
        ensures
            self.received().len() < HEADER_LEN ==> r == Err::<Header, DecodeError>(
                DecodeError::IncompleteMessage,
            ),
            self.received().len() == HEADER_LEN && header_valid(
                self.expected_magic()@,
                self.received(),
            ) ==> r.is_ok() && r->Ok_0.parsed_from(self.received()),
            self.received().len() == HEADER_LEN && !header_valid(
                self.expected_magic()@,
                self.received(),
            ) ==> r.is_err() && is_header_error(self.expected_magic(), self.received(), r->Err_0),
    {
        let expected_magic = self.expected_magic;
        match self.inner.end() {
            None => Err(DecodeError::IncompleteMessage),
            Some(bytes) => validate_header(expected_magic, parse_header_fields(bytes.as_slice())),
        }
    }
}

} // verus!
