use vstd::prelude::*;

verus! {

/// The kinds of physical storage that can back an address.
#[derive(Debug, Clone, Copy, PartialEq, Eq, Structural)]
pub enum MemType {
    RAM,
    BASIC,
    CHARGEN,
    IO,
    KERNAL,
}

/// ROM kinds are read-only; RAM and the I/O window are writable.
pub open spec fn is_rom(kind: MemType) -> bool {
    kind == MemType::BASIC || kind == MemType::CHARGEN || kind == MemType::KERNAL
}

/// Number of bytes a bank of this kind holds.
pub open spec fn bank_len(kind: MemType) -> nat {
    match kind {
        MemType::RAM => 0x10000,
        MemType::BASIC => 0x2000,
        MemType::CHARGEN => 0x1000,
        MemType::IO => 0x1000,
        MemType::KERNAL => 0x2000,
    }
}

/// Lowest address at which a bank of this kind is mapped.
pub open spec fn bank_base(kind: MemType) -> u16 {
    match kind {
        MemType::RAM => 0x0000,
        MemType::BASIC => 0xA000,
        MemType::CHARGEN => 0xD000,
        MemType::IO => 0xD000,
        MemType::KERNAL => 0xE000,
    }
}

/// Flags are derived from the three low bits of the latch byte.
pub open spec fn latch_bits(b: u8) -> u8 {
    b & 0x07
}

/// Character ROM is visible for latch patterns %0xx except %000.
pub open spec fn chargen_of(b: u8) -> bool {
    (latch_bits(b) & 0x04) == 0 && (latch_bits(b) & 0x03) != 0
}

/// The I/O window is visible for latch patterns %1xx except %100.
pub open spec fn io_of(b: u8) -> bool {
    (latch_bits(b) & 0x04) != 0 && (latch_bits(b) & 0x03) != 0
}

/// BASIC ROM is visible when both low latch bits are set.
pub open spec fn basic_of(b: u8) -> bool {
    (latch_bits(b) & 0x03) == 0x03
}

/// KERNAL ROM is visible with BASIC, or when the low latch bits are %10.
pub open spec fn kernal_of(b: u8) -> bool {
    basic_of(b) || (latch_bits(b) & 0x03) == 0x02
}

/// Which bank backs `addr` under the given flags.
pub open spec fn decode(addr: u16, basic_on: bool, chargen_on: bool, io_on: bool, kernal_on: bool) -> MemType {
    if addr <= 0x9FFF {
        MemType::RAM
    } else if addr <= 0xCFFF {
        if basic_on { MemType::BASIC } else { MemType::RAM }
    } else if addr <= 0xDFFF {
        if chargen_on {
            MemType::CHARGEN
        } else if io_on {
            MemType::IO
        } else {
            MemType::RAM
        }
    } else {
        if kernal_on { MemType::KERNAL } else { MemType::RAM }
    }
}

/// Every latch value, by its three low bits, selects the flags of this table:
///
/// | bits | chargen | io | basic | kernal |
/// |------|---------|----|-------|--------|
/// | %000 | off     | off| off   | off    |
/// | %001 | on      | off| off   | off    |
/// | %010 | on      | off| off   | on     |
/// | %011 | on      | off| on    | on     |
/// | %100 | off     | off| off   | off    |
/// | %101 | off     | on | off   | off    |
/// | %110 | off     | on | off   | on     |
/// | %111 | off     | on | on    | on     |
pub proof fn lemma_latch_table(b: u8)
    ensures
        latch_bits(b) < 8,
        chargen_of(b) == (latch_bits(b) == 1 || latch_bits(b) == 2 || latch_bits(b) == 3),
        io_of(b) == (latch_bits(b) == 5 || latch_bits(b) == 6 || latch_bits(b) == 7),
        basic_of(b) == (latch_bits(b) == 3 || latch_bits(b) == 7),
        kernal_of(b) == (latch_bits(b) == 2 || latch_bits(b) == 3 || latch_bits(b) == 6
            || latch_bits(b) == 7),
{
    let l = b & 0x07;
    assert(l < 8) by (bit_vector)
        requires l == b & 0x07;
    assert((l & 0x04) == 0 <==> l < 4) by (bit_vector)
        requires l < 8;
    assert((l & 0x03) == 0 <==> (l == 0 || l == 4)) by (bit_vector)
        requires l < 8;
    assert((l & 0x03) == 3 <==> (l == 3 || l == 7)) by (bit_vector)
        requires l < 8;
    assert((l & 0x03) == 2 <==> (l == 2 || l == 6)) by (bit_vector)
        requires l < 8;
}

/// The address after `addr`, wrapping from 0xFFFF to 0x0000.
pub open spec fn next_addr(addr: u16) -> u16 {
    if addr == 0xFFFF { 0 } else { (addr + 1) as u16 }
}

/// The 16-bit value with low byte `lo` and high byte `hi`.
pub open spec fn word_of(lo: u8, hi: u8) -> u16 {
    (lo as int + 256 * hi as int) as u16
}

/// The low byte of a word.
pub open spec fn lo_byte(v: u16) -> u8 {
    (v % 256) as u8
}

/// The high byte of a word.
pub open spec fn hi_byte(v: u16) -> u8 {
    (v / 256) as u8
}

/// Abstract contents of the address space: every bank's bytes and the four
/// bank-switching flags.
pub struct MemState {
    pub ram: Seq<u8>,
    pub basic: Seq<u8>,
    pub chargen: Seq<u8>,
    pub io: Seq<u8>,
    pub kernal: Seq<u8>,
    pub basic_on: bool,
    pub chargen_on: bool,
    pub io_on: bool,
    pub kernal_on: bool,
}

impl MemState {
    /// Every bank has its size, and the flags agree with the latch byte in RAM.
    pub open spec fn wf(self) -> bool {
        &&& self.ram.len() == bank_len(MemType::RAM)
        &&& self.basic.len() == bank_len(MemType::BASIC)
        &&& self.chargen.len() == bank_len(MemType::CHARGEN)
        &&& self.io.len() == bank_len(MemType::IO)
        &&& self.kernal.len() == bank_len(MemType::KERNAL)
        &&& self.flags_follow(self.ram[1])
    }

    /// The four flags are those derived from latch byte `b`.
    pub open spec fn flags_follow(self, b: u8) -> bool {
        &&& self.basic_on == basic_of(b)
        &&& self.chargen_on == chargen_of(b)
        &&& self.io_on == io_of(b)
        &&& self.kernal_on == kernal_of(b)
    }

    /// This state with its flags derived anew from latch byte `b`.
    pub open spec fn with_latch(self, b: u8) -> MemState {
        MemState {
            basic_on: basic_of(b),
            chargen_on: chargen_of(b),
            io_on: io_of(b),
            kernal_on: kernal_of(b),
            ..self
        }
    }

    /// The bank that backs `addr` in this state.
    pub open spec fn resolve(self, addr: u16) -> MemType {
        decode(addr, self.basic_on, self.chargen_on, self.io_on, self.kernal_on)
    }

    /// What a read of `addr` returns.
    pub open spec fn peek(self, addr: u16) -> u8 {
        match self.resolve(addr) {
            MemType::RAM => self.ram[addr as int],
            MemType::BASIC => self.basic[addr - 0xA000],
            MemType::CHARGEN => self.chargen[addr - 0xD000],
            MemType::IO => self.io[addr - 0xD000],
            MemType::KERNAL => self.kernal[addr - 0xE000],
        }
    }

    /// Whether the bank that backs `addr` holds a byte for it. Only BASIC,
    /// decoded over 0xA000..=0xCFFF but 8192 bytes long, leaves a gap.
    pub open spec fn readable(self, addr: u16) -> bool {
        addr - bank_base(self.resolve(addr)) < bank_len(self.resolve(addr))
    }

    /// Whether a write to `addr` reaches the bank a read of `addr` sees.
    pub open spec fn lands_visible(self, addr: u16) -> bool {
        !is_rom(self.resolve(addr))
    }

    /// The state after writing `value` at `addr`: the I/O window takes it where
    /// it is mapped, RAM takes it everywhere else (also under a ROM), and a
    /// write to 0x0001 derives the flags anew.
    pub open spec fn poke(self, addr: u16, value: u8) -> MemState {
        let s = if self.resolve(addr) == MemType::IO {
            MemState { io: self.io.update(addr - 0xD000, value), ..self }
        } else {
            MemState { ram: self.ram.update(addr as int, value), ..self }
        };
        if addr == 1 { s.with_latch(value) } else { s }
    }

    /// The little-endian word at `addr` and the address after it.
    pub open spec fn peek_word_le(self, addr: u16) -> u16 {
        word_of(self.peek(addr), self.peek(next_addr(addr)))
    }

    /// The big-endian word at `addr` and the address after it.
    pub open spec fn peek_word_be(self, addr: u16) -> u16 {
        word_of(self.peek(next_addr(addr)), self.peek(addr))
    }

    /// The state after writing `value` little-endian at `addr`.
    pub open spec fn poke_word_le(self, addr: u16, value: u16) -> MemState {
        self.poke(addr, lo_byte(value)).poke(next_addr(addr), hi_byte(value))
    }

    /// The state after writing `value` big-endian at `addr`.
    pub open spec fn poke_word_be(self, addr: u16, value: u16) -> MemState {
        self.poke(addr, hi_byte(value)).poke(next_addr(addr), lo_byte(value))
    }
}

/// One physical storage region: RAM, a ROM image or the I/O register window.
pub struct MemBank {
    bank_type: MemType,
    read_only: bool,
    offset: u16,
    data: Vec<u8>,
}

impl View for MemBank {
    type V = Seq<u8>;

    closed spec fn view(&self) -> Seq<u8> {
        self.data@
    }
}

impl MemBank {
    pub closed spec fn kind(&self) -> MemType {
        self.bank_type
    }

    /// Kind, offset, access and size agree with each other.
    pub closed spec fn wf(&self) -> bool {
        &&& self.read_only == is_rom(self.bank_type)
        &&& self.offset == bank_base(self.bank_type)
        &&& self.data@.len() == bank_len(self.bank_type)
    }

    /// Whether `addr` falls inside this bank's storage.
    pub open spec fn covers(&self, addr: u16) -> bool {
        bank_base(self.kind()) <= addr && addr - bank_base(self.kind()) < bank_len(self.kind())
    }

    /// A bank of the given kind. A ROM bank holds `rom_image` verbatim; RAM and
    /// the I/O window ignore it and start zero-filled.
    pub fn new(mem_type: MemType, rom_image: Vec<u8>) -> (r: MemBank)
        requires
            is_rom(mem_type) ==> rom_image@.len() == bank_len(mem_type),
        ensures
            r.wf(),
            r.kind() == mem_type,
            is_rom(mem_type) ==> r@ == rom_image@,
            !is_rom(mem_type) ==> r@ == Seq::new(bank_len(mem_type), |i: int| 0u8),
    {
        match mem_type {
            MemType::BASIC => MemBank { bank_type: mem_type, read_only: true, offset: 0xA000, data: rom_image },
            MemType::CHARGEN => MemBank { bank_type: mem_type, read_only: true, offset: 0xD000, data: rom_image },
            MemType::KERNAL => MemBank { bank_type: mem_type, read_only: true, offset: 0xE000, data: rom_image },
            MemType::RAM => MemBank { bank_type: mem_type, read_only: false, offset: 0x0000, data: zeroed(0x10000) },
            MemType::IO => MemBank { bank_type: mem_type, read_only: false, offset: 0xD000, data: zeroed(0x1000) },
        }
    }

    /// Whether this bank rejects writes.
    pub fn is_read_only(&self) -> (r: bool)
        requires
            self.wf(),
        ensures
            r == is_rom(self.kind()),
    {
        self.read_only
    }

    /// Stores `val` at `addr`, relative to this bank's base address.
    pub fn write(&mut self, addr: u16, val: u8)
        requires
            old(self).wf(),
            !is_rom(old(self).kind()),
            old(self).covers(addr),
        ensures
            final(self).wf(),
            final(self).kind() == old(self).kind(),
            final(self)@ == old(self)@.update(addr - bank_base(old(self).kind()), val),
    {
        self.data.set((addr - self.offset) as usize, val);
    }

    /// The byte stored at `addr`, relative to this bank's base address.
    pub fn read(&self, addr: u16) -> (r: u8)
        requires
            self.wf(),
            self.covers(addr),
        ensures
            r == self@[addr - bank_base(self.kind())],
    {
        self.data[(addr - self.offset) as usize]
    }
}

/// A zero-filled buffer of `n` bytes.
fn zeroed(n: usize) -> (r: Vec<u8>)
    ensures
        r@ == Seq::new(n as nat, |i: int| 0u8),
{
    let mut v: Vec<u8> = Vec::with_capacity(n);
    let mut k: usize = 0;
    while k < n
        invariant
            k <= n,
            v@ == Seq::new(k as nat, |i: int| 0u8),
        decreases n - k,
    {
        v.push(0);
        k = k + 1;
    }
    v
}

/// The whole address space: one bank of each kind and the bank-switching flags.
pub struct Memory {
    ram: MemBank,
    basic: MemBank,
    chargen: MemBank,
    io: MemBank,
    kernal: MemBank,
    basic_on: bool,
    chargen_on: bool,
    io_on: bool,
    kernal_on: bool,
    // cartridge overlays: reserved, always off
    cart_lo_on: bool,
    cart_hi_on: bool,
}

impl View for Memory {
    type V = MemState;

    closed spec fn view(&self) -> MemState {
        MemState {
            ram: self.ram@,
            basic: self.basic@,
            chargen: self.chargen@,
            io: self.io@,
            kernal: self.kernal@,
            basic_on: self.basic_on,
            chargen_on: self.chargen_on,
            io_on: self.io_on,
            kernal_on: self.kernal_on,
        }
    }
}

impl Memory {
    /// Each bank is well formed and of its own kind; the cartridge flags are off.
    pub closed spec fn banks_wf(&self) -> bool {
        &&& self.ram.wf() && self.ram.kind() == MemType::RAM
        &&& self.basic.wf() && self.basic.kind() == MemType::BASIC
        &&& self.chargen.wf() && self.chargen.kind() == MemType::CHARGEN
        &&& self.io.wf() && self.io.kind() == MemType::IO
        &&& self.kernal.wf() && self.kernal.kind() == MemType::KERNAL
        &&& !self.cart_lo_on && !self.cart_hi_on
    }

    /// The banks are well formed and the flags follow the latch byte.
    pub open spec fn wf(&self) -> bool {
        self.banks_wf() && self@.wf()
    }

    /// An address space over the given ROM images, with zeroed RAM and I/O
    /// window. The latch byte is zero, so every flag is off until `reset`.
    pub fn new(basic_rom: Vec<u8>, chargen_rom: Vec<u8>, kernal_rom: Vec<u8>) -> (r: Memory)
        requires
            basic_rom@.len() == bank_len(MemType::BASIC),
            chargen_rom@.len() == bank_len(MemType::CHARGEN),
            kernal_rom@.len() == bank_len(MemType::KERNAL),
        ensures
            r.wf(),
            r@.ram == Seq::new(bank_len(MemType::RAM), |i: int| 0u8),
            r@.io == Seq::new(bank_len(MemType::IO), |i: int| 0u8),
            r@.basic == basic_rom@,
            r@.chargen == chargen_rom@,
            r@.kernal == kernal_rom@,
            !r@.basic_on && !r@.chargen_on && !r@.io_on && !r@.kernal_on,
    {
        let r = Memory {
            ram: MemBank::new(MemType::RAM, Vec::new()),
            basic: MemBank::new(MemType::BASIC, basic_rom),
            chargen: MemBank::new(MemType::CHARGEN, chargen_rom),
            io: MemBank::new(MemType::IO, Vec::new()),
            kernal: MemBank::new(MemType::KERNAL, kernal_rom),
            basic_on: false,
            chargen_on: false,
            io_on: false,
            kernal_on: false,
            cart_lo_on: false,
            cart_hi_on: false,
        };
        assert(r@.ram[1] == 0);
        assert(0u8 & 0x07 == 0) by (bit_vector);
        proof {
            lemma_latch_table(0);
        }
        r
    }

    /// The kind of bank that backs `addr` under the current flags.
    pub fn get_bank(&self, addr: u16) -> (r: MemType)
        ensures
            r == self@.resolve(addr),
    {
        if addr <= 0x9FFF {
            MemType::RAM
        } else if addr <= 0xCFFF {
            if self.basic_on { MemType::BASIC } else { MemType::RAM }
        } else if addr <= 0xDFFF {
            if self.chargen_on {
                MemType::CHARGEN
            } else if self.io_on {
                MemType::IO
            } else {
                MemType::RAM
            }
        } else {
            if self.kernal_on { MemType::KERNAL } else { MemType::RAM }
        }
    }

    /// The bank of the given kind.
    fn bank(&self, kind: MemType) -> (r: &MemBank)
        requires
            self.banks_wf(),
        ensures
            r.wf(),
            r.kind() == kind,
            r@ == match kind {
                MemType::RAM => self@.ram,
                MemType::BASIC => self@.basic,
                MemType::CHARGEN => self@.chargen,
                MemType::IO => self@.io,
                MemType::KERNAL => self@.kernal,
            },
    {
        match kind {
            MemType::RAM => &self.ram,
            MemType::BASIC => &self.basic,
            MemType::CHARGEN => &self.chargen,
            MemType::IO => &self.io,
            MemType::KERNAL => &self.kernal,
        }
    }

    /// Derives the four flags from the latch byte at 0x0001.
    fn update_bank_flags(&mut self)
        requires
            old(self).banks_wf(),
        ensures
            final(self).wf(),
            final(self)@ == old(self)@.with_latch(old(self)@.ram[1]),
    {
        let latch = self.ram.read(0x0001) & 0x07;
        let b = Ghost(self@.ram[1]);
        assert(latch & 0x04 == latch_bits(b@) & 0x04 && latch & 0x03 == latch_bits(b@) & 0x03) by (bit_vector)
            requires latch == b@ & 0x07;
        self.chargen_on = ((latch & 0x04) == 0) && ((latch & 0x03) != 0);
        self.io_on = ((latch & 0x04) != 0) && ((latch & 0x03) != 0);
        self.basic_on = (latch & 0x03) == 0x03;
        self.kernal_on = self.basic_on || ((latch & 0x03) == 0x02);
    }

    /// Writes `value` at `addr`. Where a ROM is mapped the byte lands in the
    /// RAM beneath it and the result is `false`; otherwise the visible bank
    /// takes it and the result is `true`. A write to 0x0001 switches banks.
    pub fn write_byte(&mut self, addr: u16, value: u8) -> (r: bool)
        requires
            old(self).wf(),
        ensures
            final(self).wf(),
            final(self)@ == old(self)@.poke(addr, value),
            r == old(self)@.lands_visible(addr),
    {
        let kind = self.get_bank(addr);
        let visible = !self.bank(kind).is_read_only();
        if kind == MemType::IO {
            self.io.write(addr, value);
        } else {
            self.ram.write(addr, value);
        }
        if addr == 0x0001 {
            self.update_bank_flags();
        }
        visible
    }

    /// The byte a read of `addr` sees under the current flags.
    pub fn read_byte(&self, addr: u16) -> (r: u8)
        requires
            self.wf(),
            self@.readable(addr),
        ensures
            r == self@.peek(addr),
    {
        let kind = self.get_bank(addr);
        self.bank(kind).read(addr)
    }

    /// Power-on state: 0xFF at 0x0000, then latch 0x07 at 0x0001, which maps
    /// BASIC, KERNAL and the I/O window in and the character ROM out.
    pub fn reset(&mut self)
        requires
            old(self).wf(),
        ensures
            final(self).wf(),
            final(self)@ == old(self)@.poke(0x0000, 0xFF).poke(0x0001, 0x07),
            final(self)@.ram[0] == 0xFF,
            final(self)@.ram[1] == 0x07,
            final(self)@.basic_on,
            final(self)@.kernal_on,
            !final(self)@.chargen_on,
            final(self)@.io_on,
    {
        self.write_byte(0x0000, 0xFF);
        self.write_byte(0x0001, 0x07);
        proof {
            lemma_latch_table(0x07);
            assert(0x07u8 & 0x07 == 7) by (bit_vector);
        }
    }

    /// The word at `addr`, low byte first; each byte is read as `read_byte`
    /// reads it, the second one at the next address (0xFFFF wraps to 0x0000).
    pub fn read_word_le(&self, addr: u16) -> (r: u16)
        requires
            self.wf(),
            self@.readable(addr),
            self@.readable(next_addr(addr)),
        ensures
            r == self@.peek_word_le(addr),
    {
        let lo = self.read_byte(addr);
        let hi = self.read_byte(addr.wrapping_add(1));
        lo as u16 + (hi as u16) * 256
    }

    /// The word at `addr`, high byte first; each byte is read as `read_byte`
    /// reads it, the second one at the next address (0xFFFF wraps to 0x0000).
    pub fn read_word_be(&self, addr: u16) -> (r: u16)
        requires
            self.wf(),
            self@.readable(addr),
            self@.readable(next_addr(addr)),
        ensures
            r == self@.peek_word_be(addr),
    {
        let hi = self.read_byte(addr);
        let lo = self.read_byte(addr.wrapping_add(1));
        lo as u16 + (hi as u16) * 256
    }

    /// Writes `value` low byte first, each byte as `write_byte` writes it, the
    /// second one at the next address (0xFFFF wraps to 0x0000). `true` only
    /// where both bytes reached a visible bank.
    pub fn write_word_le(&mut self, addr: u16, value: u16) -> (r: bool)
        requires
            old(self).wf(),
        ensures
            final(self).wf(),
            final(self)@ == old(self)@.poke_word_le(addr, value),
            r == (old(self)@.lands_visible(addr) && old(self)@.poke(addr, lo_byte(value)).lands_visible(
                next_addr(addr),
            )),
    {
        let lo = (value % 256) as u8;
        let hi = (value / 256) as u8;
        let first = self.write_byte(addr, lo);
        let second = self.write_byte(addr.wrapping_add(1), hi);
        first && second
    }

    /// Writes `value` high byte first, each byte as `write_byte` writes it, the
    /// second one at the next address (0xFFFF wraps to 0x0000). `true` only
    /// where both bytes reached a visible bank.
    pub fn write_word_be(&mut self, addr: u16, value: u16) -> (r: bool)
        requires
            old(self).wf(),
        ensures
            final(self).wf(),
            final(self)@ == old(self)@.poke_word_be(addr, value),
            r == (old(self)@.lands_visible(addr) && old(self)@.poke(addr, hi_byte(value)).lands_visible(
                next_addr(addr),
            )),
    {
        let lo = (value % 256) as u8;
        let hi = (value / 256) as u8;
        let first = self.write_byte(addr, hi);
        let second = self.write_byte(addr.wrapping_add(1), lo);
        first && second
    }
}

} // verus!
