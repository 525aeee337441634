//! The frame decoder: the header decoder, then a payload decoder built from
//! the validated header.
use crate::error::DecodeError;
use crate::external::{codec_result, magic_of, network_magic};
use crate::frame::{
    checksum_field, checksum_of, frame_limit, frame_prefix, header_rejected, header_valid,
    is_header_error, length_field, HEADER_LEN,
};
use crate::header::HeaderDecoder;
use crate::payload::{from_codec, lemma_frame_bytes_parsed, PayloadDecoder};
use bitcoin::p2p::message::NetworkMessage;
use vstd::prelude::*;

verus! {

broadcast use {HeaderDecoder::lemma_wf, PayloadDecoder::lemma_wf};

/// A second value of a header error, which is kept for `end` while the
/// first goes to the caller.
fn copy_header_error(e: &DecodeError) -> (r: DecodeError)
    requires
        !(e is InvalidPayload),
    ensures
        r == *e,
{
    match e {
        DecodeError::WrongMagic { expected, actual } => DecodeError::WrongMagic {
            expected: *expected,
            actual: *actual,
        },
        DecodeError::InvalidCommand => DecodeError::InvalidCommand,
        DecodeError::PayloadTooLarge(n) => DecodeError::PayloadTooLarge(*n),
        DecodeError::InvalidChecksum => DecodeError::InvalidChecksum,
        DecodeError::IncompleteMessage => DecodeError::IncompleteMessage,
        DecodeError::InvalidPayload(_) => vstd::pervasive::unreached(),
    }
}

/// Decoder for one bitcoin v1 transport frame.
///
/// Feed it chunks with `decode_chunk` until `is_complete` holds or the input
/// ends, then call `end`. A fresh decoder is needed for each frame.
pub struct V1MessageDecoder {
    expected_magic: [u8; 4],
    /// The header stage, until all 24 header bytes are in.
    header: Option<HeaderDecoder>,
    /// The 24 header bytes, once the header stage is over.
    head: Ghost<Seq<u8>>,
    payload: Option<PayloadDecoder>,
    rejection: Option<DecodeError>,
}

impl V1MessageDecoder {
    /// The magic this decoder accepts.
    pub closed spec fn expected_magic(&self) -> [u8; 4] {
        self.expected_magic
    }

    /// Every byte of the frame taken so far, header first.
    pub closed spec fn received(&self) -> Seq<u8> {
        match self.header {
            Some(hd) => hd.received(),
            None => match self.payload {
                Some(p) => self.head@ + p.received(),
                None => self.head@,
            },
        }
    }

    /// The header was rejected.
    pub closed spec fn has_failed(&self) -> bool {
        self.rejection.is_some()
    }

    /// Why the header was rejected.
    pub closed spec fn failure(&self) -> DecodeError {
        self.rejection->Some_0
    }

    /// A buffer for the payload has been set up.
    pub closed spec fn payload_allocated(&self) -> bool {
        self.payload.is_some()
    }

    pub closed spec fn wf(&self) -> bool {
        let h = self.head@;
        let expected = self.expected_magic;
        match self.header {
            Some(hd) => {
                &&& hd.wf()
                &&& hd.expected_magic() == expected
                &&& hd.received().len() < HEADER_LEN
                &&& self.payload.is_none()
                &&& self.rejection.is_none()
            },
            None => {
                &&& h.len() == HEADER_LEN
                &&& match self.payload {
                    Some(p) => {
                        &&& p.wf()
                        &&& header_valid(expected@, h)
                        &&& p.header().parsed_from(h)
                        &&& self.rejection.is_none()
                    },
                    None => match self.rejection {
                        Some(e) => {
                            &&& !header_valid(expected@, h)
                            &&& is_header_error(expected, h, e)
                            &&& !(e is InvalidPayload)
                        },
                        None => false,
                    },
                }
            },
        }
    }

    /// What a well-formed decoder's state says of the bytes it took.
    pub proof fn lemma_wf(&self)
        requires
            self.wf(),
        ensures
            self.received().len() <= frame_limit(self.expected_magic()@, self.received()),
            self.has_failed() == header_rejected(self.expected_magic()@, self.received()),
            self.has_failed() ==> {
                &&& self.received().len() == HEADER_LEN
                &&& is_header_error(self.expected_magic(), self.received(), self.failure())
                &&& !self.payload_allocated()
            },
            !self.has_failed() && self.received().len() >= HEADER_LEN ==> self.payload_allocated(),
    {
        let h = self.head@;
        let s = self.received();
        if self.header.is_none() {
            assert(s.subrange(0, HEADER_LEN as int) =~= h);
            if let Some(p) = self.payload {
                assert(p.header().length == length_field(h));
            }
        }
    }

    /// A decoder for frames that start with `magic`.
    pub fn with_magic(magic: [u8; 4]) -> (r: Self)
        ensures
            r.wf(),
            r.expected_magic() == magic,
            r.received() == Seq::<u8>::empty(),
            !r.has_failed(),
            !r.payload_allocated(),
    {
        V1MessageDecoder {
            expected_magic: magic,
            header: Some(HeaderDecoder::new(magic)),
            head: Ghost(Seq::empty()),
            payload: None,
            rejection: None,
        }
    }

    /// A decoder for frames of `network`.
    pub fn new(network: bitcoin::Network) -> (r: Self)
        ensures
            r.wf(),
            r.expected_magic()@ == magic_of(network),
            r.received() == Seq::<u8>::empty(),
            !r.has_failed(),
            !r.payload_allocated(),
    {
        Self::with_magic(network_magic(network))
    }

    /// Takes from `bytes[*pos..]` what the frame still lacks and moves the
    /// cursor past it. The header is validated as soon as its last byte
    /// arrives: a rejected header ends the call with its error before a
    /// single payload byte is taken or room for the payload is made.
    pub fn decode_chunk(&mut self, bytes: &[u8], pos: &mut usize) -> (r: Result<(), DecodeError>)
        requires
            old(self).wf(),
            !old(self).has_failed(),
            *old(pos) <= bytes@.len(),
        ensures
            final(self).wf(),
            final(self).expected_magic() == old(self).expected_magic(),
            ({
                let expected = old(self).expected_magic();
                let s = old(self).received() + bytes@.subrange(*old(pos) as int, bytes@.len() as int);
                &&& final(self).received() == frame_prefix(expected@, s)
                &&& *final(pos) == *old(pos) + final(self).received().len() - old(
                    self,
                ).received().len()
                &&& r.is_err() == header_rejected(expected@, s)
                &&& final(self).has_failed() == r.is_err()
                &&& r.is_err() ==> {
                    &&& final(self).failure() == r->Err_0
                    &&& is_header_error(expected, s.subrange(0, HEADER_LEN as int), r->Err_0)
                    &&& !final(self).payload_allocated()
                }
            }),
    {
        let ghost start = *pos;
        let ghost old_received = self.received();
        let ghost expected = self.expected_magic;
        let ghost s = old_received + bytes@.subrange(start as int, bytes@.len() as int);
        if self.header.is_some() {
            let mut hd = match self.header.take() {
                Some(hd) => hd,
                None => vstd::pervasive::unreached(),
            };
            hd.decode_chunk(bytes, pos);
            assert(hd.received() =~= s.subrange(0, hd.received().len() as int));
            if !hd.is_complete() {
                assert(s =~= hd.received());
                self.header = Some(hd);
                return Ok(());
            }
            assert(s.subrange(0, HEADER_LEN as int) =~= hd.received());
            self.head = Ghost(hd.received());
            match hd.end() {
                Err(e) => {
                    self.rejection = Some(copy_header_error(&e));
                    return Err(e);
                },
                Ok(h) => {
                    self.payload = Some(PayloadDecoder::new(h));
                },
            }
        }
        let ghost head = self.head@;
        assert(s.subrange(0, HEADER_LEN as int) =~= head);
        match &mut self.payload {
            Some(p) => {
                let ghost before = p.received();
                assert(head + before =~= s.subrange(0, HEADER_LEN + before.len()));
                p.decode_chunk(bytes, pos);
                assert(head + p.received() =~= s.subrange(0, HEADER_LEN + p.received().len()));
            },
            None => {},
        }
        Ok(())
    }

    /// Whether the frame is complete or its header was rejected: no more
    /// bytes are wanted either way.
    pub fn is_complete(&self) -> (r: bool)
        requires
            self.wf(),
        ensures
            r == (self.has_failed() || self.received().len() == frame_limit(
                self.expected_magic()@,
                self.received(),
            )),
    {
        proof {
            self.lemma_wf();
        }
        if self.rejection.is_some() {
            return true;
        }
        match &self.payload {
            Some(p) => p.is_complete(),
            None => false,
        }
    }

    /// The decoded message, or why there is none. Ending before the frame is
    /// complete gives `IncompleteMessage`.
    pub fn end(self) -> (r: Result<NetworkMessage, DecodeError>)
        requires
            self.wf(),
        ensures
            self.has_failed() ==> r == Err::<NetworkMessage, DecodeError>(self.failure()),
            ({
                let s = self.received();
                let limit = frame_limit(self.expected_magic()@, s);
                let header = s.subrange(0, HEADER_LEN as int);
                let payload = s.subrange(HEADER_LEN as int, s.len() as int);
                &&& !self.has_failed() && s.len() < limit ==> r == Err::<
                    NetworkMessage,
                    DecodeError,
                >(DecodeError::IncompleteMessage)
                &&& !self.has_failed() && s.len() == limit && checksum_of(payload)
                    != checksum_field(header) ==> r == Err::<NetworkMessage, DecodeError>(
                    DecodeError::InvalidChecksum,
                )
                &&& !self.has_failed() && s.len() == limit && checksum_of(payload)
                    == checksum_field(header) ==> r == from_codec(codec_result(s))
            }),
    {
        proof {
            self.lemma_wf();
        }
        let ghost s = self.received();
        if let Some(e) = self.rejection {
            return Err(e);
        }
        match self.payload {
            Some(p) => {
                assert(s.subrange(HEADER_LEN as int, s.len() as int) =~= p.received());
                assert(s.subrange(0, HEADER_LEN as int) =~= self.head@);
                proof {
                    lemma_frame_bytes_parsed(p.header(), self.head@, p.received());
                }
                p.end()
            },
            None => Err(DecodeError::IncompleteMessage),
        }
    }
}

} // verus!
