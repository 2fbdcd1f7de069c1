//! Text forms of a digest: lowercase hex, and a report line that pairs the
//! hex with a label for the input.
use vstd::prelude::*;
use crate::digest::{digest, sha256_of};
use crate::padding::{len_ok, DigestError};
use vstd::string::{StringExecFns, StringSliceAdditionalSpecFns};
use vstd::utf8::{
    decode_utf8, encode_utf8, encode_utf8_decode_utf8, encode_utf8_valid_utf8, is_char_boundary,
    valid_utf8, valid_utf8_split,
};

verus! {

/// Longest label shown whole, in UTF-8 bytes.
pub const MAX_LABEL_LEN: usize = 30;

/// The sixteen lowercase hex digits.
pub open spec fn hex_digits() -> Seq<char> {
    seq!['0', '1', '2', '3', '4', '5', '6', '7', '8', '9', 'a', 'b', 'c', 'd', 'e', 'f']
}

/// `bytes` as lowercase hex, two digits per byte, high nibble first.
pub open spec fn hex_of(bytes: Seq<u8>) -> Seq<char> {
    Seq::new(
        2 * bytes.len(),
        |i: int|
            if i % 2 == 0 {
                hex_digits()[bytes[i / 2] as int / 16]
            } else {
                hex_digits()[bytes[i / 2] as int % 16]
            },
    )
}

/// The largest character boundary of the UTF-8 text `bytes` that is at
/// most `limit`.
pub open spec fn cut_point(bytes: Seq<u8>, limit: nat) -> nat
    decreases limit,
{
    if limit == 0 || is_char_boundary(bytes, limit as int) {
        limit
    } else {
        cut_point(bytes, (limit - 1) as nat)
    }
}

/// The label shown for an input named `name`, measured in UTF-8 bytes: the
/// name itself when it has at most 30 bytes, else the characters that lie
/// wholly within its first 27 bytes, followed by "...".
pub open spec fn label_of(name: Seq<char>) -> Seq<char> {
    let bytes = encode_utf8(name);
    if bytes.len() <= MAX_LABEL_LEN {
        name
    } else {
        decode_utf8(bytes.subrange(0, cut_point(bytes, (MAX_LABEL_LEN - 3) as nat) as int))
            + seq!['.', '.', '.']
    }
}

/// The report line for `data` under the name `name`: the hex digest, two
/// spaces, and the label.
pub open spec fn report_line(data: Seq<u8>, name: Seq<char>) -> Seq<char> {
    hex_of(sha256_of(data)) + seq![' ', ' '] + label_of(name)
}

/// Renders `bytes` as lowercase hex.
pub fn to_hex(bytes: &[u8]) -> (s: String)
    ensures
        s@ == hex_of(bytes@),
{
    let digits = "0123456789abcdef";
    proof {
        reveal_strlit("0123456789abcdef");
    }
    assert(digits@ =~= hex_digits());
    let mut s = String::new();
    let mut i: usize = 0;
    while i < bytes.len()
        invariant
            i <= bytes@.len(),
            digits@ == hex_digits(),
            s@ == hex_of(bytes@.subrange(0, i as int)),
        decreases bytes@.len() - i,
    {
        let hi = (bytes[i] / 16) as usize;
        let lo = (bytes[i] % 16) as usize;
        s.append(digits.substring_char(hi, hi + 1));
        s.append(digits.substring_char(lo, lo + 1));
        assert(s@ =~= hex_of(bytes@.subrange(0, i + 1)));
        i += 1;
    }
    assert(bytes@.subrange(0, i as int) =~= bytes@);
    s
}

/// The label shown for an input named `name`.
pub fn display_label(name: &str) -> (s: String)
    ensures
        s@ == label_of(name@),
{
    if name.as_bytes().len() <= MAX_LABEL_LEN {
        String::from_str(name)
    } else {
        let ghost bytes = name.spec_bytes();
        proof {
            encode_utf8_valid_utf8(name@);
        }
        let mut cut: usize = MAX_LABEL_LEN - 3;
        while cut > 0 && !name.is_char_boundary(cut)
            invariant
                cut <= MAX_LABEL_LEN - 3,
                bytes == name.spec_bytes(),
                valid_utf8(bytes),
                cut_point(bytes, cut as nat) == cut_point(bytes, (MAX_LABEL_LEN - 3) as nat),
            decreases cut,
        {
            cut -= 1;
        }
        let (head, _) = name.split_at(cut);
        proof {
            valid_utf8_split(bytes, cut as int);
            encode_utf8_decode_utf8(head@);
            assert(head@ == decode_utf8(bytes.subrange(0, cut as int)));
        }
        let mut s = String::from_str(head);
        let dots = "...";
        proof {
            reveal_strlit("...");
        }
        s.append(dots);
        assert(s@ =~= label_of(name@));
        s
    }
}

/// The hex digest of `data`, two spaces, and the label for `name`; fails
/// as `digest` does.
pub fn digest_line(data: &[u8], name: &str) -> (r: Result<String, DigestError>)
    ensures
        match r {
            Ok(s) => len_ok(data@.len()) && s@ == report_line(data@, name@),
            Err(e) => !len_ok(data@.len()) && e == DigestError::InputTooLarge,
        },
{
    let d = match digest(data) {
        Ok(d) => d,
        Err(e) => return Err(e),
    };
    let mut s = to_hex(d.as_slice());
    let sep = "  ";
    proof {
        reveal_strlit("  ");
    }
    s.append(sep);
    s.append(display_label(name).as_str());
    assert(s@ =~= report_line(data@, name@));
    Ok(s)
}

/// The report line for a string literal: the digest of its UTF-8 bytes,
/// labelled with the string itself.
pub fn sha256(msg: &str) -> (r: Result<String, DigestError>)
    ensures
        match r {
            Ok(s) => len_ok(msg.spec_bytes().len()) && s@ == report_line(msg.spec_bytes(), msg@),
            Err(e) => !len_ok(msg.spec_bytes().len()) && e == DigestError::InputTooLarge,
        },
{
    digest_line(msg.as_bytes(), msg)
}

} // verus!
