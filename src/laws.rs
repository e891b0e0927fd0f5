//! Facts about the address space that span several operations or every state.
use vstd::prelude::*;

use crate::memory::{
    basic_of, decode, hi_byte, lemma_latch_table, lo_byte, next_addr, MemState, MemType,
};

verus! {

/// Addresses 0x0000..=0x9FFF are backed by RAM whatever the flags are.
pub proof fn lemma_low_area_is_ram(addr: u16, basic_on: bool, chargen_on: bool, io_on: bool, kernal_on: bool)
    requires
        addr <= 0x9FFF,
    ensures
        decode(addr, basic_on, chargen_on, io_on, kernal_on) == MemType::RAM,
{
}

/// A write into 0xA000..=0xCFFF always lands in RAM. With BASIC mapped out
/// it is visible and reads back; with BASIC mapped in it is reported as not
/// visible, and reads back once a latch value maps BASIC out again.
pub proof fn lemma_write_in_basic_area(s: MemState, addr: u16, value: u8, latch: u8)
    requires
        s.wf(),
        0xA000 <= addr <= 0xCFFF,
    ensures
        s.poke(addr, value).ram[addr as int] == value,
        s.lands_visible(addr) == !s.basic_on,
        !s.basic_on ==> s.poke(addr, value).peek(addr) == value,
        !basic_of(latch) ==> s.poke(addr, value).poke(1, latch).peek(addr) == value,
{
}

/// Writing a word little-endian and reading it back at the same address
/// gives the word, where neither of its two addresses is under a ROM.
pub proof fn lemma_word_le_round_trip(s: MemState, addr: u16, value: u16)
    requires
        s.wf(),
        s.lands_visible(addr),
        s.lands_visible(next_addr(addr)),
    ensures
        s.poke_word_le(addr, value).wf(),
        s.poke_word_le(addr, value).readable(addr),
        s.poke_word_le(addr, value).readable(next_addr(addr)),
        s.poke_word_le(addr, value).peek_word_le(addr) == value,
{
    lemma_poke_keeps_visible(s, addr, lo_byte(value), next_addr(addr));
    lemma_poke_wf(s, addr, lo_byte(value));
    let t = s.poke(addr, lo_byte(value));
    lemma_poke_wf(t, next_addr(addr), hi_byte(value));
}

/// Writing a word big-endian and reading it back at the same address gives
/// the word, where neither of its two addresses is under a ROM.
pub proof fn lemma_word_be_round_trip(s: MemState, addr: u16, value: u16)
    requires
        s.wf(),
        s.lands_visible(addr),
        s.lands_visible(next_addr(addr)),
    ensures
        s.poke_word_be(addr, value).wf(),
        s.poke_word_be(addr, value).readable(addr),
        s.poke_word_be(addr, value).readable(next_addr(addr)),
        s.poke_word_be(addr, value).peek_word_be(addr) == value,
{
    lemma_poke_keeps_visible(s, addr, hi_byte(value), next_addr(addr));
    lemma_poke_wf(s, addr, hi_byte(value));
    let t = s.poke(addr, hi_byte(value));
    lemma_poke_wf(t, next_addr(addr), lo_byte(value));
}

/// A write of the latch byte switches banks at once: the next read sees the
/// flags of the new latch value. From RAM at 0xD000, latch 0x07 maps the I/O
/// window there and latch 0x03 the character ROM.
pub proof fn lemma_latch_write_switches_at_once(s: MemState, latch: u8)
    requires
        s.wf(),
    ensures
        s.poke(1, latch).wf(),
        s.poke(1, latch).flags_follow(latch),
        s.resolve(0xD000) == MemType::RAM ==> s.poke(1, 0x07).resolve(0xD000) == MemType::IO,
        s.resolve(0xD000) == MemType::RAM ==> s.poke(1, 0x07).peek(0xD000) == s.io[0],
        s.resolve(0xD000) == MemType::RAM ==> s.poke(1, 0x03).resolve(0xD000) == MemType::CHARGEN,
        s.resolve(0xD000) == MemType::RAM ==> s.poke(1, 0x03).peek(0xD000) == s.chargen[0],
{
    lemma_poke_wf(s, 1, latch);
    lemma_latch_table(0x07);
    lemma_latch_table(0x03);
    assert(0x07u8 & 0x07 == 7 && 0x03u8 & 0x07 == 3) by (bit_vector);
}

/// A write keeps every bank's size and the flags in step with the latch byte.
pub proof fn lemma_poke_wf(s: MemState, addr: u16, value: u8)
    requires
        s.wf(),
    ensures
        s.poke(addr, value).wf(),
{
}

/// Away from the latch byte, a write leaves the flags, and so the decoding of
/// every address, as they were.
proof fn lemma_poke_keeps_visible(s: MemState, addr: u16, value: u8, other: u16)
    requires
        s.wf(),
        addr != 1 || other <= 0x9FFF,
    ensures
        s.poke(addr, value).lands_visible(other) == s.lands_visible(other),
{
}

} // verus!
