//! The memory bus: a unified 16-bit address space multiplexing boot ROM,
//! cartridge ROM, video RAM, cartridge RAM, work RAM, echo RAM, sprite
//! attribute memory, I/O registers, high RAM and the interrupt-enable byte.

use vstd::prelude::*;

verus! {

/// The abstract state of the bus: one sequence per backing buffer, plus the
/// interrupt-enable byte.  The boot-ROM overlay is on while the byte at
/// I/O offset 0x50 (address 0xFF50) is zero.
#[verifier::ext_equal]
pub ghost struct MemSnap {
    pub boot_rom: Seq<u8>,
    pub cart: Seq<u8>,
    pub vram: Seq<u8>,
    pub cart_ram: Seq<u8>,
    pub wram: Seq<u8>,
    pub oam: Seq<u8>,
    pub io_regs: Seq<u8>,
    pub hram: Seq<u8>,
    pub ie: u8,
}

impl MemSnap {
    /// Every buffer has the size the memory map gives it, and the cartridge
    /// holds at least the flat 32 KiB the core addresses.
    pub open spec fn wf(self) -> bool {
        &&& self.boot_rom.len() == 0x100
        &&& self.cart.len() >= 0x8000
        &&& self.vram.len() == 0x2000
        &&& self.cart_ram.len() == 0x2000
        &&& self.wram.len() == 0x2000
        &&& self.oam.len() == 0xA0
        &&& self.io_regs.len() == 0x80
        &&& self.hram.len() == 0x7F
    }

    /// A nonzero write to 0xFF50 has retired the boot-ROM overlay.
    pub open spec fn boot_disabled(self) -> bool {
        self.io_regs[0x50] != 0
    }

    /// The byte a read of `addr` yields, with all region rules applied.
    pub open spec fn read(self, addr: u16) -> u8 {
        if addr < 0x0100 && !self.boot_disabled() {
            self.boot_rom[addr as int]
        } else if addr < 0x8000 {
            self.cart[addr as int]
        } else if addr < 0xA000 {
            self.vram[addr - 0x8000]
        } else if addr < 0xC000 {
            self.cart_ram[addr - 0xA000]
        } else if addr < 0xE000 {
            self.wram[addr - 0xC000]
        } else if addr < 0xFE00 {
            self.wram[addr - 0xE000]
        } else if addr < 0xFEA0 {
            self.oam[addr - 0xFE00]
        } else if addr < 0xFF00 {
            0xFF
        } else if addr < 0xFF80 {
            self.io_regs[addr - 0xFF00]
        } else if addr < 0xFFFF {
            self.hram[addr - 0xFF80]
        } else {
            self.ie
        }
    }

    /// The byte an I/O-register write stores, once the register's own rule is
    /// applied: a processor write to LY (0xFF44) resets it, the low three
    /// bits of STAT (0xFF41) stay as they were, and the boot-ROM latch
    /// (0xFF50) ignores writes of zero so that disabling is permanent.
    pub open spec fn io_stored_byte(self, addr: u16, data: u8) -> u8 {
        if addr == 0xFF44 {
            0
        } else if addr == 0xFF41 {
            (data & 0xF8) | (self.io_regs[0x41] & 0x07)
        } else if addr == 0xFF50 {
            if data != 0 {
                data
            } else {
                self.io_regs[0x50]
            }
        } else {
            data
        }
    }

    /// The state after a processor write of `data` to `addr`: ROM and the
    /// unusable region discard the write, echo RAM stores into work RAM, and
    /// I/O registers store through `io_stored_byte`.
    pub open spec fn write(self, addr: u16, data: u8) -> MemSnap {
        if addr < 0x8000 {
            self
        } else if addr < 0xA000 {
            MemSnap { vram: self.vram.update(addr - 0x8000, data), ..self }
        } else if addr < 0xC000 {
            MemSnap { cart_ram: self.cart_ram.update(addr - 0xA000, data), ..self }
        } else if addr < 0xE000 {
            MemSnap { wram: self.wram.update(addr - 0xC000, data), ..self }
        } else if addr < 0xFE00 {
            MemSnap { wram: self.wram.update(addr - 0xE000, data), ..self }
        } else if addr < 0xFEA0 {
            MemSnap { oam: self.oam.update(addr - 0xFE00, data), ..self }
        } else if addr < 0xFF00 {
            self
        } else if addr < 0xFF80 {
            MemSnap {
                io_regs: self.io_regs.update(addr - 0xFF00, self.io_stored_byte(addr, data)),
                ..self
            }
        } else if addr < 0xFFFF {
            MemSnap { hram: self.hram.update(addr - 0xFF80, data), ..self }
        } else {
            MemSnap { ie: data, ..self }
        }
    }

    /// The state after the picture unit stores `data` directly into the I/O
    /// register at `addr`, bypassing the processor-side register rules.
    pub open spec fn ppu_store(self, addr: u16, data: u8) -> MemSnap {
        MemSnap { io_regs: self.io_regs.update(addr - 0xFF00, data), ..self }
    }
}

/// A cell whose stored byte is returned unchanged by a later read: all RAM
/// regions, and the I/O registers that have no rule of their own.
pub open spec fn plain_cell(addr: u16) -> bool {
    &&& 0x8000 <= addr
    &&& !(0xFEA0 <= addr < 0xFF00)
    &&& addr != 0xFF41
    &&& addr != 0xFF44
    &&& addr != 0xFF50
}

/// Two addresses that decode to the same storage cell: the address itself,
/// or the work-RAM cell an echo-RAM address mirrors.
pub open spec fn same_cell(a: u16, b: u16) -> bool {
    ||| a == b
    ||| (0xC000 <= a < 0xDE00 && b == a + 0x2000)
    ||| (0xE000 <= a < 0xFE00 && b == a - 0x2000)
}

/// A write leaves every buffer its size.
pub proof fn lemma_write_wf(m: MemSnap, addr: u16, data: u8)
    requires
        m.wf(),
    ensures
        m.write(addr, data).wf(),
{
}

/// A stored byte comes back: reading a plain cell right after writing it
/// yields the written byte.
pub proof fn lemma_read_after_write(m: MemSnap, addr: u16, data: u8)
    requires
        m.wf(),
        plain_cell(addr),
    ensures
        m.write(addr, data).read(addr) == data,
{
}

/// A write is invisible elsewhere: reading any cell the write does not
/// decode to yields the old byte.  The one address with action at a
/// distance is the boot-ROM latch, which redirects reads below 0x0100.
pub proof fn lemma_write_frame(m: MemSnap, addr: u16, data: u8, other: u16)
    requires
        m.wf(),
        !same_cell(addr, other),
        !(other < 0x0100 && addr == 0xFF50),
    ensures
        m.write(addr, data).read(other) == m.read(other),
{
}

/// Echo RAM mirrors work RAM: a read at 0xE000-0xFDFF yields the byte at
/// the address 0x2000 below.
pub proof fn lemma_echo_read(m: MemSnap, addr: u16)
    requires
        m.wf(),
        0xE000 <= addr < 0xFE00,
    ensures
        m.read(addr) == m.read((addr - 0x2000) as u16),
{
}

/// Echo RAM mirrors work RAM: a write at 0xE000-0xFDFF leaves the same
/// state as the write at the address 0x2000 below.
pub proof fn lemma_echo_write(m: MemSnap, addr: u16, data: u8)
    requires
        m.wf(),
        0xE000 <= addr < 0xFE00,
    ensures
        m.write(addr, data) == m.write((addr - 0x2000) as u16, data),
{
    assert(m.write(addr, data) =~= m.write((addr - 0x2000) as u16, data));
}

/// One nonzero write to 0xFF50 retires the boot-ROM overlay: reads below
/// 0x0100 fall through to the cartridge from that point on.
pub proof fn lemma_boot_disable(m: MemSnap, data: u8, addr: u16)
    requires
        m.wf(),
        data != 0,
        addr < 0x0100,
    ensures
        m.write(0xFF50, data).boot_disabled(),
        m.write(0xFF50, data).read(addr) == m.cart[addr as int],
{
}

/// The overlay never comes back: once the boot ROM is disabled, no write
/// whatever re-enables it.
pub proof fn lemma_boot_disable_permanent(m: MemSnap, addr: u16, data: u8)
    requires
        m.wf(),
        m.boot_disabled(),
    ensures
        m.write(addr, data).boot_disabled(),
{
}

/// Setting a clear bit and clearing it again restores the byte first read,
/// at every address but the two with one-way rules of their own (the LY
/// reset at 0xFF44 and the boot latch at 0xFF50).
pub proof fn lemma_set_reset_bit_round_trip(m: MemSnap, addr: u16, n: u8)
    requires
        m.wf(),
        n < 8,
        m.read(addr) & (1u8 << n) == 0,
        addr != 0xFF44,
        addr != 0xFF50,
    ensures
        ({
            let m1 = m.write(addr, m.read(addr) | (1u8 << n));
            let m2 = m1.write(addr, m1.read(addr) & !(1u8 << n));
            m2.read(addr) == m.read(addr)
        }),
{
    let b = m.read(addr);
    let mask = 1u8 << n;
    assert((b | mask) & !mask == b && ({
        let s1 = ((b | mask) & 0xF8) | (b & 0x07);
        let s2 = ((s1 & !mask) & 0xF8) | (s1 & 0x07);
        s2 == b
    })) by (bit_vector)
        requires
            mask == 1u8 << n,
            n < 8,
            b & mask == 0,
    ;
    let m1 = m.write(addr, b | mask);
    let m2 = m1.write(addr, m1.read(addr) & !mask);
    if addr < 0x8000 {
    } else if 0xFEA0 <= addr < 0xFF00 {
    } else if addr == 0xFF41 {
        assert(m2.read(addr) == b);
    } else {
        assert(m2.read(addr) == b);
    }
}

/// The length of `s` once trailing zero bytes are dropped.
pub open spec fn trimmed_len(s: Seq<u8>) -> nat
    decreases s.len(),
{
    if s.len() == 0 {
        0
    } else if s.last() == 0 {
        trimmed_len(s.drop_last())
    } else {
        s.len()
    }
}

/// The title field of the cartridge header: the fifteen bytes at
/// 0x0134-0x0142.
pub open spec fn title_bytes(m: MemSnap) -> Seq<u8> {
    Seq::new(15, |i: int| m.read((0x0134 + i) as u16))
}

/// Reads the game title from the cartridge header, with the padding of
/// trailing zero bytes removed.  The bytes are ASCII in a well-formed
/// header; turning them into printable text is the host's affair.
pub fn parse_title(mem: &Mem) -> (r: Vec<u8>)
    requires
        mem@.wf(),
    ensures
        r@ == title_bytes(mem@).take(trimmed_len(title_bytes(mem@)) as int),
{
    let mut bytes = mem.read_range(0x0134..0x0143);
    proof {
        assert(bytes@ =~= title_bytes(mem@));
    }
    let mut n: usize = bytes.len();
    proof {
        assert(bytes@.take(n as int) =~= bytes@);
    }
    while n > 0 && bytes[n - 1] == 0
        invariant
            n <= bytes@.len(),
            bytes@ == title_bytes(mem@),
            trimmed_len(bytes@) == trimmed_len(bytes@.take(n as int)),
        decreases n,
    {
        proof {
            assert(bytes@.take(n as int).drop_last() =~= bytes@.take(n - 1));
        }
        n = n - 1;
    }
    proof {
        assert(trimmed_len(bytes@.take(n as int)) == n as nat) by {
            if n > 0 {
                assert(bytes@.take(n as int).last() == bytes@[n - 1]);
            }
        }
    }
    bytes.truncate(n);
    proof {
        assert(bytes@ =~= title_bytes(mem@).take(trimmed_len(title_bytes(mem@)) as int));
    }
    return bytes;
}

/// The memory bus.  It owns every backing buffer; the abstract state is the
/// `MemSnap` view.
pub struct Mem {
    boot_rom: Vec<u8>,
    cart: Vec<u8>,
    vram: Vec<u8>,
    cart_ram: Vec<u8>,
    wram: Vec<u8>,
    oam: Vec<u8>,
    io_regs: Vec<u8>,
    hram: Vec<u8>,
    interrupt_enable_register: u8,
}

impl View for Mem {
    type V = MemSnap;

    closed spec fn view(&self) -> MemSnap {
        MemSnap {
            boot_rom: self.boot_rom@,
            cart: self.cart@,
            vram: self.vram@,
            cart_ram: self.cart_ram@,
            wram: self.wram@,
            oam: self.oam@,
            io_regs: self.io_regs@,
            hram: self.hram@,
            ie: self.interrupt_enable_register,
        }
    }
}

/// Builds the bus around a 256-byte boot ROM and a flat cartridge image of at
/// least 32 KiB; every RAM buffer starts zeroed.
pub fn init_mem(boot_rom: Vec<u8>, cart: Vec<u8>) -> (r: Mem)
    requires
        boot_rom@.len() == 0x100,
        cart@.len() >= 0x8000,
    ensures
        r@.wf(),
        r@.boot_rom == boot_rom@,
        r@.cart == cart@,
        r@.vram == Seq::new(0x2000, |i: int| 0u8),
        r@.cart_ram == Seq::new(0x2000, |i: int| 0u8),
        r@.wram == Seq::new(0x2000, |i: int| 0u8),
        r@.oam == Seq::new(0xA0, |i: int| 0u8),
        r@.io_regs == Seq::new(0x80, |i: int| 0u8),
        r@.hram == Seq::new(0x7F, |i: int| 0u8),
        r@.ie == 0,
        !r@.boot_disabled(),
{
    let r = Mem {
        boot_rom,
        cart,
        vram: vec![0u8; 0x2000],
        cart_ram: vec![0u8; 0x2000],
        wram: vec![0u8; 0x2000],
        oam: vec![0u8; 0xA0],
        io_regs: vec![0u8; 0x80],
        hram: vec![0u8; 0x7F],
        interrupt_enable_register: 0,
    };
    proof {
        assert(r@.vram =~= Seq::new(0x2000, |i: int| 0u8));
        assert(r@.cart_ram =~= Seq::new(0x2000, |i: int| 0u8));
        assert(r@.wram =~= Seq::new(0x2000, |i: int| 0u8));
        assert(r@.oam =~= Seq::new(0xA0, |i: int| 0u8));
        assert(r@.io_regs =~= Seq::new(0x80, |i: int| 0u8));
        assert(r@.hram =~= Seq::new(0x7F, |i: int| 0u8));
    }
    return r;
}

impl Mem {
    /// Reads one byte, with the region rules of the memory map.
    pub fn read(&self, address: u16) -> (r: u8)
        requires
            self@.wf(),
        ensures
            r == self@.read(address),
    {
        if address < 0x0100 {
            if self.io_regs[0x50] != 0 {
                return self.cart[address as usize];
            } else {
                return self.boot_rom[address as usize];
            }
        } else if address < 0x8000 {
            return self.cart[address as usize];
        } else if address < 0xA000 {
            return self.vram[(address - 0x8000) as usize];
        } else if address < 0xC000 {
            return self.cart_ram[(address - 0xA000) as usize];
        } else if address < 0xE000 {
            return self.wram[(address - 0xC000) as usize];
        } else if address < 0xFE00 {
            return self.wram[(address - 0xE000) as usize];
        } else if address < 0xFEA0 {
            return self.oam[(address - 0xFE00) as usize];
        } else if address < 0xFF00 {
            return 0xFF;
        } else if address < 0xFF80 {
            return self.io_regs[(address - 0xFF00) as usize];
        } else if address < 0xFFFF {
            return self.hram[(address - 0xFF80) as usize];
        } else {
            return self.interrupt_enable_register;
        }
    }

    /// Writes one byte, with the region rules of the memory map: stores to
    /// ROM and to the unusable region are discarded, echo RAM lands in work
    /// RAM, and I/O registers apply their own rules.
    pub fn write(&mut self, address: u16, data: u8)
        requires
            old(self)@.wf(),
        ensures
            final(self)@ == old(self)@.write(address, data),
            final(self)@.wf(),
    {
        if address < 0x8000 {
            // Cartridge ROM: the store is discarded.
        } else if address < 0xA000 {
            self.vram[(address - 0x8000) as usize] = data;
        } else if address < 0xC000 {
            self.cart_ram[(address - 0xA000) as usize] = data;
        } else if address < 0xE000 {
            self.wram[(address - 0xC000) as usize] = data;
        } else if address < 0xFE00 {
            self.wram[(address - 0xE000) as usize] = data;
        } else if address < 0xFEA0 {
            self.oam[(address - 0xFE00) as usize] = data;
        } else if address < 0xFF00 {
            // Unusable region: the store is discarded.
        } else if address < 0xFF80 {
            let stored: u8 = if address == 0xFF44 {
                0
            } else if address == 0xFF41 {
                (data & 0xF8) | (self.io_regs[0x41] & 0x07)
            } else if address == 0xFF50 {
                if data != 0 {
                    data
                } else {
                    self.io_regs[0x50]
                }
            } else {
                data
            };
            self.io_regs[(address - 0xFF00) as usize] = stored;
        } else if address < 0xFFFF {
            self.hram[(address - 0xFF80) as usize] = data;
        } else {
            self.interrupt_enable_register = data;
        }
        proof {
            assert(self@ =~= old(self)@.write(address, data));
        }
    }

    /// Stores `data` straight into the I/O register at `addr`.  This is the
    /// picture unit's port onto the bus: it bypasses the processor-side
    /// register rules, so the unit can advance LY and the STAT mode bits.
    pub fn ppu_write(&mut self, addr: u16, data: u8)
        requires
            old(self)@.wf(),
            0xFF00 <= addr < 0xFF80,
        ensures
            final(self)@ == old(self)@.ppu_store(addr, data),
            final(self)@.wf(),
    {
        self.io_regs[(addr - 0xFF00) as usize] = data;
        proof {
            assert(self@ =~= old(self)@.ppu_store(addr, data));
        }
    }

    /// Reads the bytes of `range` in address order.
    pub fn read_range(&self, range: core::ops::Range<u16>) -> (r: Vec<u8>)
        requires
            self@.wf(),
        ensures
            r@.len() == if range.start <= range.end {
                range.end - range.start
            } else {
                0
            },
            forall|k: int|
                0 <= k < r@.len() ==> r@[k] == self@.read((range.start + k) as u16),
    {
        let mut bytes: Vec<u8> = Vec::new();
        let mut i: u16 = range.start;
        if range.start >= range.end {
            return bytes;
        }
        while i < range.end
            invariant
                self@.wf(),
                range.start <= i <= range.end,
                bytes@.len() == i - range.start,
                forall|k: int|
                    0 <= k < bytes@.len() ==> bytes@[k] == self@.read((range.start + k) as u16),
            decreases range.end - i,
        {
            bytes.push(self.read(i));
            i = i + 1;
        }
        return bytes;
    }

    /// Read-modify-write helper: sets bit `n` of the byte at `addr`.
    pub fn set_bit(&mut self, addr: u16, n: u8)
        requires
            old(self)@.wf(),
            n < 8,
        ensures
            final(self)@ == old(self)@.write(addr, old(self)@.read(addr) | (1u8 << n)),
            final(self)@.wf(),
    {
        let current: u8 = self.read(addr);
        self.write(addr, current | (1u8 << n));
    }

    /// Read-modify-write helper: clears bit `n` of the byte at `addr`.
    pub fn reset_bit(&mut self, addr: u16, n: u8)
        requires
            old(self)@.wf(),
            n < 8,
        ensures
            final(self)@ == old(self)@.write(addr, old(self)@.read(addr) & !(1u8 << n)),
            final(self)@.wf(),
    {
        let current: u8 = self.read(addr);
        self.write(addr, current & !(1u8 << n));
    }
}

} // verus!
