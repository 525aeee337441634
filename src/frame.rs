//! The v1 wire format: a 24-byte header, then `length` payload bytes.
//!
//! | field    | bytes | encoding                                  |
//! |----------|-------|-------------------------------------------|
//! | magic    | 4     | raw network identifier                    |
//! | command  | 12    | ASCII, NUL-padded                         |
//! | length   | 4     | unsigned little-endian                    |
//! | checksum | 4     | leading 4 bytes of the payload's sha256d  |
use crate::error::DecodeError;
use crate::external::sha256d_of;
use vstd::arithmetic::div_mod::{lemma_div_denominator, lemma_fundamental_div_mod_converse};
use vstd::prelude::*;

verus! {

/// Size of the fixed frame header.
pub const HEADER_LEN: usize = 24;

/// Largest payload length a header may declare: 32 MiB.
pub const MAX_PAYLOAD_LEN: u32 = 33554432;

/// The unsigned little-endian value of four bytes.
pub open spec fn le_u32(b: Seq<u8>) -> int {
    b[0] as int + b[1] as int * 0x100 + b[2] as int * 0x10000 + b[3] as int * 0x1000000
}

pub open spec fn magic_field(h: Seq<u8>) -> Seq<u8> {
    h.subrange(0, 4)
}

pub open spec fn command_field(h: Seq<u8>) -> Seq<u8> {
    h.subrange(4, 16)
}

pub open spec fn length_field(h: Seq<u8>) -> int {
    le_u32(h.subrange(16, 20))
}

pub open spec fn checksum_field(h: Seq<u8>) -> Seq<u8> {
    h.subrange(20, 24)
}

/// The checksum a sender puts in the header of `payload`.
pub open spec fn checksum_of(payload: Seq<u8>) -> Seq<u8> {
    sha256d_of(payload).subrange(0, 4)
}

/// A command field is a token of printable ASCII bytes (0x20 to 0x7e)
/// followed by NUL bytes only.
pub open spec fn command_is_token(command: Seq<u8>) -> bool {
    &&& forall|i: int|
        0 <= i < command.len() ==> command[i] == 0 || (0x20 <= command[i] && command[i] <= 0x7e)
    &&& forall|i: int, j: int|
        0 <= i < j < command.len() && #[trigger] command[i] == 0 ==> #[trigger] command[j] == 0
}

/// The four little-endian bytes of `v`.
pub open spec fn le_bytes(v: u32) -> Seq<u8> {
    seq![
        (v % 0x100) as u8,
        (v / 0x100 % 0x100) as u8,
        (v / 0x10000 % 0x100) as u8,
        (v / 0x1000000) as u8,
    ]
}

/// Header fields pass validation for a decoder configured with `expected`.
pub open spec fn fields_valid(expected: Seq<u8>, magic: Seq<u8>, command: Seq<u8>, length: int) -> bool {
    &&& command_is_token(command)
    &&& magic == expected
    &&& length <= MAX_PAYLOAD_LEN
}

/// `e` is the error that header fields are rejected with: the command is
/// checked first, then the magic, then the declared length.
pub open spec fn is_fields_error(
    expected: [u8; 4],
    magic: Seq<u8>,
    command: Seq<u8>,
    length: int,
    e: DecodeError,
) -> bool {
    if !command_is_token(command) {
        e == DecodeError::InvalidCommand
    } else if magic != expected@ {
        match e {
            DecodeError::WrongMagic { expected: x, actual } => x == expected && actual@ == magic,
            _ => false,
        }
    } else if length > MAX_PAYLOAD_LEN {
        e == DecodeError::PayloadTooLarge(length as usize)
    } else {
        false
    }
}

/// Header bytes `h` pass validation for a decoder configured with `expected`.
pub open spec fn header_valid(expected: Seq<u8>, h: Seq<u8>) -> bool {
    fields_valid(expected, magic_field(h), command_field(h), length_field(h))
}

/// `e` is the error that header bytes `h` are rejected with.
pub open spec fn is_header_error(expected: [u8; 4], h: Seq<u8>, e: DecodeError) -> bool {
    is_fields_error(expected, magic_field(h), command_field(h), length_field(h), e)
}

/// How many bytes of the stream `s` belong to its first frame, as far as
/// can be told from `s`: the header alone until a valid header is known.
pub open spec fn frame_limit(expected: Seq<u8>, s: Seq<u8>) -> int {
    if s.len() >= HEADER_LEN && header_valid(expected, s.subrange(0, HEADER_LEN as int)) {
        HEADER_LEN + length_field(s.subrange(0, HEADER_LEN as int))
    } else {
        HEADER_LEN as int
    }
}

/// The bytes a decoder takes from stream `s` in all: up to the end of the
/// first frame, or of its header when that header is rejected.
pub open spec fn frame_prefix(expected: Seq<u8>, s: Seq<u8>) -> Seq<u8> {
    s.subrange(0, vstd::math::min(s.len() as int, frame_limit(expected, s)))
}

/// Reading stream `s` up to the end of its header rejects that header.
pub open spec fn header_rejected(expected: Seq<u8>, s: Seq<u8>) -> bool {
    s.len() >= HEADER_LEN && !header_valid(expected, s.subrange(0, HEADER_LEN as int))
}

/// Four bytes are the little-endian bytes of the value they spell.
pub proof fn lemma_le_bytes_of_le_u32(b: Seq<u8>)
    requires
        b.len() == 4,
    ensures
        0 <= le_u32(b) <= u32::MAX,
        le_bytes(le_u32(b) as u32) == b,
{
    let x = le_u32(b);
    let y = b[1] as int + b[2] as int * 0x100 + b[3] as int * 0x10000;
    let z = b[2] as int + b[3] as int * 0x100;
    assert(x == y * 0x100 + b[0] as int);
    assert(y == z * 0x100 + b[1] as int);
    lemma_fundamental_div_mod_converse(x, 0x100, y, b[0] as int);
    lemma_fundamental_div_mod_converse(y, 0x100, z, b[1] as int);
    lemma_fundamental_div_mod_converse(z, 0x100, b[3] as int, b[2] as int);
    lemma_div_denominator(x, 0x100, 0x100);
    lemma_div_denominator(x, 0x100, 0x10000);
    lemma_div_denominator(y, 0x100, 0x100);
    assert(x / 0x10000 == z);
    assert(x / 0x1000000 == b[3] as int);
    assert(le_bytes(x as u32) =~= b);
}

/// Whether two four-byte values are byte for byte the same.
pub fn same_four_bytes(a: &[u8; 4], b: &[u8; 4]) -> (r: bool)
    ensures
        r == (a@ == b@),
{
    let same = a[0] == b[0] && a[1] == b[1] && a[2] == b[2] && a[3] == b[3];
    if same {
        assert(a@ =~= b@);
    }
    same
}

/// Whether a command field is a printable token padded with NULs.
pub fn command_is_padded_token(command: &[u8; 12]) -> (r: bool)
    ensures
        r == command_is_token(command@),
{
    let mut k: usize = 0;
    while k < 12 && command[k] != 0
        invariant
            k <= 12,
            forall|j: int| 0 <= j < k ==> 0x20 <= command@[j] && command@[j] <= 0x7e,
        decreases 12 - k,
    {
        if command[k] < 0x20 || command[k] > 0x7e {
            return false;
        }
        k = k + 1;
    }
    let mut j: usize = k;
    while j < 12
        invariant
            k <= j <= 12,
            forall|m: int| 0 <= m < k ==> 0x20 <= command@[m] && command@[m] <= 0x7e,
            k < 12 ==> command@[k as int] == 0,
            forall|m: int| k <= m < j ==> command@[m] == 0,
        decreases 12 - j,
    {
        if command[j] != 0 {
            assert(command@[k as int] == 0 && command@[j as int] != 0);
            return false;
        }
        j = j + 1;
    }
    assert forall|a: int, b: int|
        0 <= a < b < command@.len() && #[trigger] command@[a] == 0 implies #[trigger] command@[b]
        == 0 by {
        if b < k {
            assert(command@[a] != 0);
        }
    }
    true
}

/// Reads the little-endian `u32` at `b[off..off + 4]`.
pub fn read_u32_le(b: &[u8], off: usize) -> (r: u32)
    requires
        off + 4 <= b@.len(),
    ensures
        r == le_u32(b@.subrange(off as int, off + 4)),
{
    let b0: u32 = b[off] as u32;
    let b1: u32 = b[off + 1] as u32;
    let b2: u32 = b[off + 2] as u32;
    let b3: u32 = b[off + 3] as u32;
    b0 + b1 * 0x100 + b2 * 0x10000 + b3 * 0x1000000
}

/// The four little-endian bytes of `v`.
pub fn write_u32_le(v: u32) -> (r: [u8; 4])
    ensures
        r@ == le_bytes(v),
        le_u32(r@) == v,
{
    let r = [
        (v % 0x100) as u8,
        (v / 0x100 % 0x100) as u8,
        (v / 0x10000 % 0x100) as u8,
        (v / 0x1000000) as u8,
    ];
    assert(r@ =~= le_bytes(v));
    assert(le_u32(r@) == v) by {
        let x = v as int;
        assert(x == x % 0x100 + (x / 0x100 % 0x100) * 0x100 + (x / 0x10000 % 0x100) * 0x10000
            + (x / 0x1000000) * 0x1000000) by (nonlinear_arith)
            requires
                0 <= x < 0x100000000,
        ;
    }
    r
}

} // verus!
