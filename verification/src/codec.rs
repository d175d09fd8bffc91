//! Frame codec: one logical message per fixed-length, zero-padded byte frame.
//!
//! `encode` left-justifies the UTF-8 bytes of a message inside a frame of
//! `FRAME_LEN` bytes and zero-fills the rest; it refuses (never truncates) a
//! message whose byte length exceeds the frame. `decode` strips the trailing
//! zero bytes of a frame and recovers the message, rejecting bytes that are
//! not valid UTF-8.

use vstd::prelude::*;
use vstd::string::{StrSliceExecFns, StringSliceAdditionalSpecFns};
use vstd::utf8::{
    char_is_scalar, char_u32_cast, decode_utf8, encode_scalar, encode_utf8,
    encode_utf8_decode_utf8, encode_utf8_valid_utf8, has_width_1_encoding, last_continuation_byte,
    leading_byte_width_1, valid_utf8,
};

verus! {

/// Number of bytes in one wire frame.
pub const FRAME_LEN: usize = 1024;

/// Why a message could not be encoded into a frame.
#[derive(Debug, Clone, Copy, PartialEq, Eq, Structural)]
pub enum EncodeError {
    /// The UTF-8 byte length of the message exceeds `FRAME_LEN`.
    TooLarge,
}

/// Why a frame could not be decoded back into a message.
#[derive(Debug, Clone, Copy, PartialEq, Eq, Structural)]
pub enum DecodeError {
    /// After stripping trailing zero bytes, the frame is not valid UTF-8.
    InvalidUtf8,
}

/// The frame carrying `msg`: the bytes themselves, then zero padding.
pub open spec fn frame_bytes(msg: Seq<u8>) -> Seq<u8>
    recommends
        msg.len() <= FRAME_LEN,
{
    msg + Seq::new((FRAME_LEN - msg.len()) as nat, |i: int| 0u8)
}

/// `s` without its trailing zero bytes.
pub open spec fn strip_trailing_zeros(s: Seq<u8>) -> Seq<u8>
    decreases s.len(),
{
    if s.len() == 0 {
        s
    } else if s.last() == 0u8 {
        strip_trailing_zeros(s.drop_last())
    } else {
        s
    }
}

/// Encodes one message into one frame: the message's UTF-8 bytes followed by
/// zero padding up to `FRAME_LEN`. Fails, and never truncates, when the bytes
/// do not fit.
pub fn encode(msg: &str) -> (r: Result<Vec<u8>, EncodeError>)
    ensures
        msg.spec_bytes().len() <= FRAME_LEN ==> (r matches Ok(frame) && frame@ == frame_bytes(
            msg.spec_bytes(),
        )),
        msg.spec_bytes().len() > FRAME_LEN ==> r matches Err(EncodeError::TooLarge),
{
    let mut bytes = msg.as_bytes_vec();
    if bytes.len() > FRAME_LEN {
        return Err(EncodeError::TooLarge);
    }
    let ghost payload = msg.spec_bytes();
    while bytes.len() < FRAME_LEN
        invariant
            payload.len() <= FRAME_LEN,
            payload.len() <= bytes@.len() <= FRAME_LEN,
            bytes@.subrange(0, payload.len() as int) == payload,
            forall|j: int| payload.len() <= j < bytes@.len() ==> bytes@[j] == 0u8,
        decreases FRAME_LEN - bytes.len(),
    {
        bytes.push(0u8);
        assert(bytes@.subrange(0, payload.len() as int) =~= payload);
    }
    proof {
        assert(bytes@ =~= frame_bytes(payload));
    }
    Ok(bytes)
}

/// Relies on `String::from_utf8`: it returns `Ok` exactly when the bytes are
/// valid UTF-8 (vstd's `valid_utf8`), and then the string they decode to
/// (vstd's `decode_utf8`).
#[verifier::external_body]
fn string_from_utf8(bytes: Vec<u8>) -> (r: Option<String>)
    ensures
        r matches Some(s) ==> valid_utf8(bytes@) && s@ == decode_utf8(bytes@),
        r is None ==> !valid_utf8(bytes@),
{
    String::from_utf8(bytes).ok()
}

/// Decodes one frame back into its message: strips the trailing zero padding
/// and interprets what is left as UTF-8.
pub fn decode(frame: &Vec<u8>) -> (r: Result<String, DecodeError>)
    requires
        frame@.len() == FRAME_LEN,
    ensures
        valid_utf8(strip_trailing_zeros(frame@)) ==> (r matches Ok(s) && s@ == decode_utf8(
            strip_trailing_zeros(frame@),
        )),
        !valid_utf8(strip_trailing_zeros(frame@)) ==> r matches Err(DecodeError::InvalidUtf8),
{
    let mut end: usize = frame.len();
    proof {
        assert(frame@.subrange(0, end as int) =~= frame@);
    }
    while end > 0 && frame[end - 1] == 0u8
        invariant
            end <= frame@.len(),
            strip_trailing_zeros(frame@) == strip_trailing_zeros(frame@.subrange(0, end as int)),
        decreases end,
    {
        proof {
            assert(frame@.subrange(0, end as int).drop_last() =~= frame@.subrange(
                0,
                end as int - 1,
            ));
        }
        end = end - 1;
    }
    proof {
        assert(strip_trailing_zeros(frame@) == frame@.subrange(0, end as int));
    }
    let mut trimmed: Vec<u8> = Vec::new();
    let mut i: usize = 0;
    while i < end
        invariant
            i <= end <= frame@.len(),
            trimmed@ == frame@.subrange(0, i as int),
        decreases end - i,
    {
        trimmed.push(frame[i]);
        assert(trimmed@ =~= frame@.subrange(0, i as int + 1));
        i = i + 1;
    }
    match string_from_utf8(trimmed) {
        Some(s) => Ok(s),
        None => Err(DecodeError::InvalidUtf8),
    }
}

/// Stripping the zero padding of a frame recovers the payload, as long as the
/// payload itself does not end in a zero byte.
proof fn lemma_strip_frame(payload: Seq<u8>)
    requires
        payload.len() <= FRAME_LEN,
        payload.len() == 0 || payload.last() != 0u8,
    ensures
        strip_trailing_zeros(frame_bytes(payload)) == payload,
    decreases FRAME_LEN - payload.len(),
{
    let frame = frame_bytes(payload);
    if frame.len() == payload.len() {
        assert(frame =~= payload);
    } else {
        assert(frame.last() == 0u8);
        assert(frame.drop_last() =~= frame_bytes_upto(payload, frame.len() - 1));
        lemma_strip_partial(payload, frame.len() - 1);
    }
}

/// The payload followed by `n - payload.len()` zero bytes.
spec fn frame_bytes_upto(payload: Seq<u8>, n: int) -> Seq<u8>
    recommends
        payload.len() <= n,
{
    payload + Seq::new((n - payload.len()) as nat, |i: int| 0u8)
}

proof fn lemma_strip_partial(payload: Seq<u8>, n: int)
    requires
        payload.len() <= n,
        payload.len() == 0 || payload.last() != 0u8,
    ensures
        strip_trailing_zeros(frame_bytes_upto(payload, n)) == payload,
    decreases n - payload.len(),
{
    let s = frame_bytes_upto(payload, n);
    if n == payload.len() {
        assert(s =~= payload);
        if payload.len() > 0 {
            assert(s.last() == payload.last());
        }
    } else {
        assert(s.last() == 0u8);
        assert(s.drop_last() =~= frame_bytes_upto(payload, n - 1));
        lemma_strip_partial(payload, n - 1);
    }
}

/// The UTF-8 encoding of a nonempty character sequence whose last character
/// is not NUL does not end in a zero byte.
proof fn lemma_encode_utf8_last_byte(chars: Seq<char>)
    requires
        chars.len() > 0,
        chars.last() != '\0',
    ensures
        encode_utf8(chars).len() > 0,
        encode_utf8(chars).last() != 0u8,
    decreases chars.len(),
{
    let c = chars[0] as u32;
    char_is_scalar(chars[0]);
    if chars.len() == 1 {
        assert(encode_utf8(chars) =~= encode_scalar(c));
        if has_width_1_encoding(c) {
            assert(chars[0] != '\0');
            assert(c != 0) by {
                char_u32_cast(chars[0], c);
                char_u32_cast('\0', 0u32);
            }
            assert(leading_byte_width_1(c) != 0u8) by (bit_vector)
                requires
                    c < 0x80,
                    c != 0,
            ;
        } else {
            assert(last_continuation_byte(c) != 0u8) by (bit_vector);
        }
    } else {
        lemma_encode_utf8_last_byte(chars.drop_first());
        assert(chars.drop_first().last() == chars.last());
        let head = encode_scalar(c);
        let tail = encode_utf8(chars.drop_first());
        assert(encode_utf8(chars) == head + tail);
        assert((head + tail).last() == tail.last());
    }
}

/// Round trip: a message whose UTF-8 bytes fit in one frame, and which does
/// not end in the NUL character, comes back unchanged from `encode` followed
/// by `decode`. Stated over the byte-level model that `encode`'s and
/// `decode`'s contracts use.
pub proof fn lemma_encode_decode_round_trip(msg: Seq<char>)
    ensures
        (encode_utf8(msg).len() <= FRAME_LEN && (msg.len() == 0 || msg.last() != '\0'))
            ==> valid_utf8(strip_trailing_zeros(frame_bytes(encode_utf8(msg)))) && decode_utf8(
            strip_trailing_zeros(frame_bytes(encode_utf8(msg))),
        ) == msg,
{
    if encode_utf8(msg).len() <= FRAME_LEN && (msg.len() == 0 || msg.last() != '\0') {
        let payload = encode_utf8(msg);
        if msg.len() == 0 {
            assert(payload =~= Seq::<u8>::empty());
        } else {
            lemma_encode_utf8_last_byte(msg);
        }
        lemma_strip_frame(payload);
        encode_utf8_valid_utf8(msg);
        encode_utf8_decode_utf8(msg);
    }
}

} // verus!
