//! Shared byte-decoding helpers: big-endian fixed-width integer extraction
//! with exact-length validation.

use vstd::prelude::*;

verus! {

/// Big-endian value of a two-byte sequence.
pub open spec fn u16_be(s: Seq<u8>) -> u16
    recommends
        s.len() == 2,
{
    (s[0] * 256 + s[1]) as u16
}

/// Big-endian value of a four-byte sequence.
pub open spec fn u32_be(s: Seq<u8>) -> u32
    recommends
        s.len() == 4,
{
    (s[0] * 0x1000000 + s[1] * 0x10000 + s[2] * 0x100 + s[3]) as u32
}

/// The two big-endian bytes of a `u16`.
pub open spec fn u16_be_bytes(x: u16) -> Seq<u8> {
    seq![(x / 256) as u8, (x % 256) as u8]
}

/// The four big-endian bytes of a `u32`.
pub open spec fn u32_be_bytes(x: u32) -> Seq<u8> {
    seq![
        (x / 0x1000000) as u8,
        ((x / 0x10000) % 256) as u8,
        ((x / 256) % 256) as u8,
        (x % 256) as u8,
    ]
}

/// Writing a `u16` big-endian and reading it back gives the value again.
pub proof fn lemma_u16_be_round_trip(x: u16)
    ensures
        u16_be_bytes(x).len() == 2,
        u16_be(u16_be_bytes(x)) == x,
{
    assert(x / 256 < 256 && x / 256 * 256 + x % 256 == x) by (bit_vector);
}

/// Writing a `u32` big-endian and reading it back gives the value again.
pub proof fn lemma_u32_be_round_trip(x: u32)
    ensures
        u32_be_bytes(x).len() == 4,
        u32_be(u32_be_bytes(x)) == x,
{
    assert(x / 0x1000000 < 256 && x / 0x1000000 * 0x1000000 + (x / 0x10000) % 256 * 0x10000 + (x
        / 256) % 256 * 256 + x % 256 == x) by (bit_vector);
}

/// Error raised when a fixed-width integer field is handed a byte slice of
/// the wrong length.
#[derive(PartialEq, Eq, Debug)]
pub enum DecodeError {
    IncorrectNumberOfBytes {
        num_bytes_expected: usize,
        num_bytes_recieved: usize,
        item_parsed: String,
    },
}

impl DecodeError {
    /// Holds when `self` reports that `item` was handed `received` bytes
    /// where `expected` were needed.
    pub open spec fn is_incorrect_byte_count(
        self,
        expected: int,
        received: int,
        item: Seq<char>,
    ) -> bool {
        &&& self matches DecodeError::IncorrectNumberOfBytes {
            num_bytes_expected,
            num_bytes_recieved,
            item_parsed,
        }
        &&& num_bytes_expected == expected
        &&& num_bytes_recieved == received
        &&& item_parsed@ == item
    }
}

/// Decodes exactly two bytes as a big-endian `u16`; any other length is
/// rejected, naming the field being parsed.
pub fn get_u16_from_bytes(bytes: &[u8], item: &str) -> (r: Result<u16, DecodeError>)
    ensures
        bytes@.len() == 2 ==> r == Ok::<u16, DecodeError>(u16_be(bytes@)),
        bytes@.len() != 2 ==> (r matches Err(e) && e.is_incorrect_byte_count(
            2,
            bytes@.len() as int,
            item@,
        )),
{
    if bytes.len() == 2 {
        let hi = bytes[0] as u16;
        let lo = bytes[1] as u16;
        Ok(hi * 256 + lo)
    } else {
        Err(DecodeError::IncorrectNumberOfBytes {
            num_bytes_expected: 2,
            num_bytes_recieved: bytes.len(),
            item_parsed: item.to_owned(),
        })
    }
}

/// Decodes exactly four bytes as a big-endian `u32`; any other length is
/// rejected, naming the field being parsed.
pub fn get_u32_from_bytes(bytes: &[u8], item: &str) -> (r: Result<u32, DecodeError>)
    ensures
        bytes@.len() == 4 ==> r == Ok::<u32, DecodeError>(u32_be(bytes@)),
        bytes@.len() != 4 ==> (r matches Err(e) && e.is_incorrect_byte_count(
            4,
            bytes@.len() as int,
            item@,
        )),
{
    if bytes.len() == 4 {
        let b0 = bytes[0] as u32;
        let b1 = bytes[1] as u32;
        let b2 = bytes[2] as u32;
        let b3 = bytes[3] as u32;
        Ok(b0 * 0x1000000 + b1 * 0x10000 + b2 * 0x100 + b3)
    } else {
        Err(DecodeError::IncorrectNumberOfBytes {
            num_bytes_expected: 4,
            num_bytes_recieved: bytes.len(),
            item_parsed: item.to_owned(),
        })
    }
}

} // verus!
