//! The codec in which payloads and answers are written.

use parity_scale_codec::{Decode, Encode};
use vstd::prelude::*;

verus! {

/// The bytes that the codec writes for a tuple of six strings.
pub uninterp spec fn scale_encoded_parameters(
    p0: Seq<char>,
    p1: Seq<char>,
    p2: Seq<char>,
    p3: Seq<char>,
    p4: Seq<char>,
    p5: Seq<char>,
) -> Seq<u8>;

/// The most characters of a string that the codec is asked to write. The
/// codec prefixes a string with its length in bytes and panics where that
/// length is beyond `u32::MAX`; a character takes four bytes at most.
pub const MAX_ENCODED_CHARS: usize = 0x3fff_ffff;

/// `Encode::encode` of parity-scale-codec, on a tuple of six strings. The
/// bytes depend on the six strings alone; nothing more is claimed of them.
/// The codec panics on a string of more than `u32::MAX` bytes, which
/// `requires` excludes.
#[verifier::external_body]
pub(crate) fn encode_parameters(
    p0: &str,
    p1: &str,
    p2: &str,
    p3: &str,
    p4: &str,
    p5: &str,
) -> (bytes: Vec<u8>)
    requires
        p0@.len() <= MAX_ENCODED_CHARS,
        p1@.len() <= MAX_ENCODED_CHARS,
        p2@.len() <= MAX_ENCODED_CHARS,
        p3@.len() <= MAX_ENCODED_CHARS,
        p4@.len() <= MAX_ENCODED_CHARS,
        p5@.len() <= MAX_ENCODED_CHARS,
    ensures
        bytes@ == scale_encoded_parameters(p0@, p1@, p2@, p3@, p4@, p5@),
{
    (p0, p1, p2, p3, p4, p5).encode()
}

/// The number that `bytes` spell, lowest byte first.
pub open spec fn little_endian(bytes: Seq<u8>) -> nat
    decreases bytes.len(),
{
    if bytes.len() == 0 {
        0
    } else {
        bytes[0] as nat + 256 * little_endian(bytes.skip(1))
    }
}

/// The signed number that the first sixteen bytes of `bytes` hold in two's
/// complement, lowest byte first; `None` where there are fewer.
pub open spec fn decoded_i128(bytes: Seq<u8>) -> Option<i128> {
    if bytes.len() < 16 {
        None
    } else {
        let unsigned = little_endian(bytes.take(16));
        if unsigned > i128::MAX {
            Some((unsigned - 0x1_0000_0000_0000_0000_0000_0000_0000_0000) as i128)
        } else {
            Some(unsigned as i128)
        }
    }
}

/// `Decode::decode` of parity-scale-codec for `i128`, on a slice. It fails
/// where the slice holds fewer than sixteen bytes; otherwise it reads the
/// first sixteen as a little-endian two's complement number and ignores the
/// rest. The codec's error says no more than that, and is dropped.
#[verifier::external_body]
pub(crate) fn decode_i128(bytes: &Vec<u8>) -> (decoded: Option<i128>)
    ensures
        decoded == decoded_i128(bytes@),
{
    i128::decode(&mut &bytes[..]).ok()
}

} // verus!
