//! The word-stream walker: slices a ROM image into big-endian 16-bit words at
//! consecutive even offsets and renders one listing line per word.

use vstd::prelude::*;
use crate::text::{format_line, spec_line};

verus! {

/// The fixed capacity of the input buffer: bytes past it are never decoded.
pub const MAX_ROM_BYTES: usize = 4096;

/// The CHIP-8 program load origin: the address printed for byte offset 0.
pub const BASE_ADDR: u16 = 0x200;

/// How many lines a ROM of `len` bytes yields: the byte count, capped at the
/// buffer capacity, taken in whole pairs. An odd trailing byte yields none.
pub open spec fn decoded_count(len: nat) -> nat {
    (if len > 4096 { 4096 as nat } else { len }) / 2
}

/// Disassembles a ROM image into one listing line per two-byte word.
///
/// Words are read big-endian at consecutive even byte offsets from offset 0;
/// the line for the word at byte offset `k` carries address `0x200 + k`. At
/// most the first `MAX_ROM_BYTES` bytes are decoded, and an odd trailing byte
/// produces no line; neither cut is an error.
pub fn disassemble(rom: &Vec<u8>) -> (lines: Vec<String>)
    ensures
        lines@.len() == decoded_count(rom@.len()),
        forall|k: int|
            0 <= k < lines@.len() ==> lines@[k]@ == spec_line(
                (0x200 + 2 * k) as u16,
                rom@[2 * k],
                rom@[2 * k + 1],
            ),
{
    let n: usize = if rom.len() > MAX_ROM_BYTES {
        MAX_ROM_BYTES
    } else {
        rom.len()
    };
    let words: usize = n / 2;
    let mut lines: Vec<String> = Vec::new();
    let mut w: usize = 0;
    while w < words
        invariant
            words == decoded_count(rom@.len()),
            2 * words <= rom@.len(),
            words <= 2048,
            w <= words,
            lines@.len() == w,
            forall|k: int|
                0 <= k < w ==> lines@[k]@ == spec_line(
                    (0x200 + 2 * k) as u16,
                    rom@[2 * k],
                    rom@[2 * k + 1],
                ),
        decreases words - w,
    {
        let b1: u8 = rom[2 * w];
        let b2: u8 = rom[2 * w + 1];
        let addr: u16 = (0x200 + 2 * w) as u16;
        let line = format_line(addr, b1, b2);
        lines.push(line);
        w = w + 1;
    }
    lines
}

/// An odd trailing byte is silently dropped: a ROM of `2 * m + 1` bytes
/// yields exactly as many lines as one of `2 * m` bytes.
pub proof fn lemma_odd_byte_dropped(m: nat)
    ensures
        decoded_count(2 * m + 1) == decoded_count(2 * m),
{
}

/// The capacity cap: a ROM of exactly `MAX_ROM_BYTES` bytes is fully decoded,
/// and any longer ROM yields exactly the same number of lines, with no error.
pub proof fn lemma_capacity_cap(len: nat)
    requires
        len >= 4096,
    ensures
        decoded_count(len) == 2048,
        decoded_count(len) == decoded_count(4096),
{
}

} // verus!
