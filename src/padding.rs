//! Message padding: the message, a single 0x80 byte, zero bytes, and the
//! message's bit length as a 64-bit big-endian integer, filling a whole
//! number of 64-byte blocks.
use vstd::prelude::*;

verus! {

/// The longest message, in bytes, whose bit length fits in 64 bits.
pub const MAX_MESSAGE_LEN: u64 = 0x1fff_ffff_ffff_ffff;

/// Failure of the digest engine.
#[derive(Debug, Clone, Copy, PartialEq, Eq, Structural)]
pub enum DigestError {
    /// The message's bit length does not fit in the 64-bit length field.
    InputTooLarge,
}

/// Whether a message of `len` bytes can be padded: its bit length fits in
/// 64 bits and the padded buffer's length fits in `usize`.
pub open spec fn len_ok(len: nat) -> bool {
    len <= MAX_MESSAGE_LEN && padded_len(len) <= usize::MAX
}

/// Length of the padded message: the least multiple of 64 that holds the
/// message, the 0x80 marker and the 8-byte length field.
pub open spec fn padded_len(len: nat) -> nat {
    (((len + 8) / 64 + 1) * 64) as nat
}

/// Byte `i` (0 = most significant) of `x` in big-endian order.
pub open spec fn be_byte(x: u64, i: int) -> u8 {
    ((x >> ((56 - 8 * i) as u64)) & 0xff) as u8
}

/// `x` as 8 big-endian bytes.
pub open spec fn be_u64_bytes(x: u64) -> Seq<u8> {
    Seq::new(8, |i: int| be_byte(x, i))
}

/// The message's length in bits, as stored in the length field.
pub open spec fn bit_len(msg: Seq<u8>) -> u64 {
    (msg.len() * 8) as u64
}

/// Number of zero bytes between the 0x80 marker and the length field.
pub open spec fn zero_count(len: nat) -> nat {
    (padded_len(len) - len - 9) as nat
}

/// The padded message.
pub open spec fn padded(msg: Seq<u8>) -> Seq<u8> {
    msg + seq![0x80u8] + Seq::new(zero_count(msg.len()), |i: int| 0u8) + be_u64_bytes(
        bit_len(msg),
    )
}

/// Facts about `padded_len`: it is a multiple of 64, it leaves room for the
/// marker and the length field, and no smaller multiple of 64 would.
pub proof fn lemma_padded_len(len: nat)
    ensures
        padded_len(len) % 64 == 0,
        padded_len(len) >= 64,
        padded_len(len) >= len + 9,
        padded_len(len) < len + 9 + 64,
{
}

/// Length of the padded form of a message of `len` bytes, or `None` where
/// it does not fit in `usize`.
pub fn padded_length(len: usize) -> (r: Option<usize>)
    ensures
        r == (if padded_len(len as nat) <= usize::MAX {
            Some(padded_len(len as nat) as usize)
        } else {
            None
        }),
{
    match len.checked_add(8) {
        Some(s) => (s / 64 + 1).checked_mul(64),
        None => None,
    }
}

/// Pads `msg` into whole 64-byte blocks, or fails where its bit length or
/// padded length is too large to represent.
pub fn pad(msg: &[u8]) -> (r: Result<Vec<u8>, DigestError>)
    ensures
        match r {
            Ok(p) => len_ok(msg@.len()) && p@ == padded(msg@),
            Err(e) => !len_ok(msg@.len()) && e == DigestError::InputTooLarge,
        },
{
    if msg.len() as u64 > MAX_MESSAGE_LEN {
        return Err(DigestError::InputTooLarge);
    }
    let len = msg.len();
    let total = match padded_length(len) {
        Some(t) => t,
        None => return Err(DigestError::InputTooLarge),
    };
    proof {
        lemma_padded_len(len as nat);
    }
    let mut buf: Vec<u8> = Vec::with_capacity(total);
    let mut i: usize = 0;
    while i < len
        invariant
            i <= len == msg@.len(),
            buf@ == msg@.subrange(0, i as int),
        decreases len - i,
    {
        buf.push(msg[i]);
        i += 1;
    }
    buf.push(0x80u8);
    let zeros_end = total - 8;
    while buf.len() < zeros_end
        invariant
            len == msg@.len(),
            total == padded_len(len as nat),
            zeros_end == total - 8,
            len + 1 <= buf@.len() <= zeros_end,
            buf@ == msg@ + seq![0x80u8] + Seq::new((buf@.len() - len - 1) as nat, |k: int| 0u8),
        decreases zeros_end - buf.len(),
    {
        buf.push(0u8);
        assert(buf@ =~= msg@ + seq![0x80u8] + Seq::new((buf@.len() - len - 1) as nat, |k: int| 0u8));
    }
    let bits: u64 = (len as u64) * 8;
    let ghost prefix = buf@;
    let mut j: u64 = 0;
    while j < 8
        invariant
            j <= 8,
            bits == bit_len(msg@),
            buf@ == prefix + be_u64_bytes(bits).subrange(0, j as int),
        decreases 8 - j,
    {
        let byte = ((bits >> (56 - 8 * j)) & 0xff) as u8;
        buf.push(byte);
        assert(buf@ =~= prefix + be_u64_bytes(bits).subrange(0, j + 1));
        j += 1;
    }
    assert(buf@ =~= padded(msg@));
    Ok(buf)
}

} // verus!
