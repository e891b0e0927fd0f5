use c64_memory::memory::{MemBank, MemType, Memory};

fn rom(len: usize, seed: u8) -> Vec<u8> {
    let mut v = Vec::with_capacity(len);
    for i in 0..len {
        v.push(seed.wrapping_add((i % 251) as u8));
    }
    v
}

fn machine() -> Memory {
    Memory::new(rom(0x2000, 0x10), rom(0x1000, 0x40), rom(0x2000, 0x80))
}

fn reset_machine() -> Memory {
    let mut m = machine();
    m.reset();
    m
}

#[test]
fn new_has_every_rom_mapped_out() {
    let m = machine();
    assert_eq!(m.get_bank(0xA000), MemType::RAM);
    assert_eq!(m.get_bank(0xD000), MemType::RAM);
    assert_eq!(m.get_bank(0xE000), MemType::RAM);
    assert_eq!(m.read_byte(0x0001), 0x00);
    assert_eq!(m.read_byte(0xFFFF), 0x00);
}

#[test]
fn reset_maps_basic_kernal_and_io() {
    let m = reset_machine();
    assert_eq!(m.read_byte(0x0000), 0xFF);
    assert_eq!(m.read_byte(0x0001), 0x07);
    assert_eq!(m.get_bank(0xA000), MemType::BASIC);
    assert_eq!(m.get_bank(0xE000), MemType::KERNAL);
    // latch %111 has bit 2 set: the I/O window, not the character ROM
    assert_eq!(m.get_bank(0xD000), MemType::IO);
}

#[test]
fn reset_then_read_kernal_first_byte() {
    let m = reset_machine();
    assert_eq!(m.read_byte(0xE000), 0x80);
    assert_eq!(m.read_byte(0xFFFF), 0x80u8.wrapping_add((0x1FFF % 251) as u8));
}

#[test]
fn latch_table_for_all_eight_values() {
    // (latch, basic, chargen, io, kernal)
    let table = [
        (0u8, false, false, false, false),
        (1, false, true, false, false),
        (2, false, true, false, true),
        (3, true, true, false, true),
        (4, false, false, false, false),
        (5, false, false, true, false),
        (6, false, false, true, true),
        (7, true, false, true, true),
    ];
    let mut m = machine();
    for &(latch, basic, chargen, io, kernal) in table.iter() {
        // the upper bits of the latch byte do not matter
        for high in [0x00u8, 0xF8] {
            m.write_byte(0x0001, latch | high);
            assert_eq!(m.get_bank(0xA000) == MemType::BASIC, basic);
            assert_eq!(m.get_bank(0xC000) == MemType::BASIC, basic);
            assert_eq!(m.get_bank(0xE000) == MemType::KERNAL, kernal);
            let d = m.get_bank(0xD000);
            assert_eq!(d == MemType::CHARGEN, chargen);
            assert_eq!(d == MemType::IO, io);
            assert_eq!(d == MemType::RAM, !chargen && !io);
        }
    }
}

#[test]
fn low_area_is_always_ram() {
    let mut m = machine();
    for latch in 0u8..8 {
        m.write_byte(0x0001, latch);
        for addr in [0x0000u16, 0x0001, 0x1234, 0x9FFF] {
            assert_eq!(m.get_bank(addr), MemType::RAM);
        }
    }
}

#[test]
fn basic_area_write_with_basic_off() {
    let mut m = machine();
    m.write_byte(0x0001, 0x06);
    assert!(m.write_byte(0xA000, 0x99));
    assert_eq!(m.read_byte(0xA000), 0x99);
    assert!(m.write_byte(0xCFFF, 0x42));
    assert_eq!(m.read_byte(0xCFFF), 0x42);
}

#[test]
fn basic_area_write_lands_under_rom() {
    let mut m = reset_machine();
    assert!(!m.write_byte(0xA000, 0x99));
    // still the ROM byte while BASIC is mapped
    assert_eq!(m.read_byte(0xA000), 0x10);
    assert!(!m.write_byte(0xC123, 0x55));
    m.write_byte(0x0001, 0x06);
    assert_eq!(m.get_bank(0xA000), MemType::RAM);
    assert_eq!(m.read_byte(0xA000), 0x99);
    assert_eq!(m.read_byte(0xC123), 0x55);
}

#[test]
fn kernal_area_write_lands_under_rom() {
    let mut m = reset_machine();
    assert!(!m.write_byte(0xE000, 0x01));
    assert_eq!(m.read_byte(0xE000), 0x80);
    m.write_byte(0x0001, 0x04);
    assert_eq!(m.read_byte(0xE000), 0x01);
}

#[test]
fn io_window_write_with_latch_five() {
    let mut m = machine();
    m.write_byte(0x0001, 0x05);
    assert_eq!(m.get_bank(0xD020), MemType::IO);
    assert!(m.write_byte(0xD020, 0x01));
    assert_eq!(m.read_byte(0xD020), 0x01);
    // the RAM beneath the window was not touched
    m.write_byte(0x0001, 0x04);
    assert_eq!(m.read_byte(0xD020), 0x00);
}

#[test]
fn chargen_write_lands_under_rom() {
    let mut m = machine();
    m.write_byte(0x0001, 0x01);
    assert!(!m.write_byte(0xD000, 0x77));
    assert_eq!(m.read_byte(0xD000), 0x40);
    m.write_byte(0x0001, 0x00);
    assert_eq!(m.read_byte(0xD000), 0x77);
}

#[test]
fn latch_write_switches_d000_at_once() {
    let mut m = machine();
    m.write_byte(0xD000, 0x33);
    assert_eq!(m.get_bank(0xD000), MemType::RAM);
    assert_eq!(m.read_byte(0xD000), 0x33);
    assert!(m.write_byte(0x0001, 0x03));
    assert_eq!(m.get_bank(0xD000), MemType::CHARGEN);
    assert_eq!(m.read_byte(0xD000), 0x40);
    m.write_byte(0x0001, 0x00);
    assert!(m.write_byte(0x0001, 0x07));
    assert_eq!(m.get_bank(0xD000), MemType::IO);
    assert_eq!(m.read_byte(0xD000), 0x00);
}

#[test]
fn word_le_exact_bytes() {
    let mut m = reset_machine();
    assert!(m.write_word_le(0x1000, 0x1234));
    assert_eq!(m.read_byte(0x1000), 0x34);
    assert_eq!(m.read_byte(0x1001), 0x12);
    assert_eq!(m.read_word_le(0x1000), 0x1234);
    assert_eq!(m.read_word_be(0x1000), 0x3412);
}

#[test]
fn word_be_exact_bytes() {
    let mut m = reset_machine();
    assert!(m.write_word_be(0x2000, 0xBEEF));
    assert_eq!(m.read_byte(0x2000), 0xBE);
    assert_eq!(m.read_byte(0x2001), 0xEF);
    assert_eq!(m.read_word_be(0x2000), 0xBEEF);
    assert_eq!(m.read_word_le(0x2000), 0xEFBE);
}

#[test]
fn word_round_trips() {
    let mut m = reset_machine();
    for addr in [0x0002u16, 0x0400, 0x9FFE, 0xD020, 0xDFFE] {
        for value in [0x0000u16, 0x00FF, 0xFF00, 0xA55A, 0xFFFF] {
            assert!(m.write_word_le(addr, value));
            assert_eq!(m.read_word_le(addr), value);
            assert!(m.write_word_be(addr, value));
            assert_eq!(m.read_word_be(addr), value);
        }
    }
}

#[test]
fn word_round_trip_across_the_top() {
    let mut m = machine();
    assert!(m.write_word_le(0xFFFF, 0xABCD));
    assert_eq!(m.read_byte(0xFFFF), 0xCD);
    assert_eq!(m.read_byte(0x0000), 0xAB);
    assert_eq!(m.read_word_le(0xFFFF), 0xABCD);
    assert!(m.write_word_be(0xFFFF, 0xABCD));
    assert_eq!(m.read_word_be(0xFFFF), 0xABCD);
}

#[test]
fn word_write_into_latch_switches_banks() {
    let mut m = machine();
    // high byte 0x07 lands on the latch byte
    assert!(m.write_word_le(0x0000, 0x07FF));
    assert_eq!(m.get_bank(0xA000), MemType::BASIC);
    assert_eq!(m.read_word_le(0x0000), 0x07FF);
}

#[test]
fn word_write_half_under_rom_is_not_visible() {
    let mut m = reset_machine();
    assert!(!m.write_word_le(0x9FFF, 0x1122));
    assert_eq!(m.read_byte(0x9FFF), 0x22);
    assert_eq!(m.read_byte(0xA000), 0x10);
    m.write_byte(0x0001, 0x06);
    assert_eq!(m.read_word_le(0x9FFF), 0x1122);
    m.write_byte(0x0001, 0x07);
    assert!(!m.write_word_be(0xDFFF, 0x3344));
    assert_eq!(m.read_byte(0xDFFF), 0x33);
}

#[test]
fn bank_ram_starts_zeroed_and_takes_writes() {
    let mut b = MemBank::new(MemType::RAM, Vec::new());
    assert!(!b.is_read_only());
    assert_eq!(b.read(0xFFFF), 0);
    b.write(0xFFFF, 0x5A);
    assert_eq!(b.read(0xFFFF), 0x5A);
}

#[test]
fn bank_io_is_offset_by_its_base() {
    let mut b = MemBank::new(MemType::IO, Vec::new());
    assert!(!b.is_read_only());
    b.write(0xD000, 0x11);
    b.write(0xDFFF, 0x22);
    assert_eq!(b.read(0xD000), 0x11);
    assert_eq!(b.read(0xDFFF), 0x22);
}

#[test]
fn bank_rom_holds_its_image() {
    let b = MemBank::new(MemType::KERNAL, rom(0x2000, 0x80));
    assert!(b.is_read_only());
    assert_eq!(b.read(0xE000), 0x80);
    assert_eq!(b.read(0xE001), 0x81);
    let c = MemBank::new(MemType::CHARGEN, rom(0x1000, 0x40));
    assert_eq!(c.read(0xDFFF), 0x40u8.wrapping_add((0xFFF % 251) as u8));
}
