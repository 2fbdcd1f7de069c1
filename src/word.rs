//! Operations on 32-bit words used by the compression function.
use vstd::prelude::*;

verus! {

/// Addition modulo 2^32.
pub open spec fn add32(x: u32, y: u32) -> u32 {
    ((x + y) % 0x1_0000_0000) as u32
}

/// Right rotation of a 32-bit word by `n` bits, for `0 < n < 32`.
pub open spec fn rotr(x: u32, n: u32) -> u32 {
    (x >> n) | (x << (32 - n) as u32)
}

pub open spec fn small_sigma0(x: u32) -> u32 {
    rotr(x, 7) ^ rotr(x, 18) ^ (x >> 3)
}

pub open spec fn small_sigma1(x: u32) -> u32 {
    rotr(x, 17) ^ rotr(x, 19) ^ (x >> 10)
}

pub open spec fn big_sigma0(x: u32) -> u32 {
    rotr(x, 2) ^ rotr(x, 13) ^ rotr(x, 22)
}

pub open spec fn big_sigma1(x: u32) -> u32 {
    rotr(x, 6) ^ rotr(x, 11) ^ rotr(x, 25)
}

/// Bitwise choice: bits of `f` where `e` is set, bits of `g` elsewhere.
pub open spec fn choice(e: u32, f: u32, g: u32) -> u32 {
    (e & f) ^ (!e & g)
}

/// Bitwise majority of three words.
pub open spec fn majority(a: u32, b: u32, c: u32) -> u32 {
    (a & b) ^ (a & c) ^ (b & c)
}

pub fn wrapping_add32(x: u32, y: u32) -> (r: u32)
    ensures
        r == add32(x, y),
{
    x.wrapping_add(y)
}

pub fn rotate_right32(x: u32, n: u32) -> (r: u32)
    requires
        0 < n < 32,
    ensures
        r == rotr(x, n),
{
    (x >> n) | (x << (32 - n))
}

pub fn exec_small_sigma0(x: u32) -> (r: u32)
    ensures
        r == small_sigma0(x),
{
    rotate_right32(x, 7) ^ rotate_right32(x, 18) ^ (x >> 3)
}

pub fn exec_small_sigma1(x: u32) -> (r: u32)
    ensures
        r == small_sigma1(x),
{
    rotate_right32(x, 17) ^ rotate_right32(x, 19) ^ (x >> 10)
}

pub fn exec_big_sigma0(x: u32) -> (r: u32)
    ensures
        r == big_sigma0(x),
{
    rotate_right32(x, 2) ^ rotate_right32(x, 13) ^ rotate_right32(x, 22)
}

pub fn exec_big_sigma1(x: u32) -> (r: u32)
    ensures
        r == big_sigma1(x),
{
    rotate_right32(x, 6) ^ rotate_right32(x, 11) ^ rotate_right32(x, 25)
}

pub fn exec_choice(e: u32, f: u32, g: u32) -> (r: u32)
    ensures
        r == choice(e, f, g),
{
    (e & f) ^ (!e & g)
}

pub fn exec_majority(a: u32, b: u32, c: u32) -> (r: u32)
    ensures
        r == majority(a, b, c),
{
    (a & b) ^ (a & c) ^ (b & c)
}

} // verus!
