//! The picture-processing unit: a scanline state machine clocked by the
//! T-cycles the processor reports, advancing LY, the STAT mode bits and
//! the V-blank interrupt flag through the bus.

use vstd::prelude::*;

use crate::mem::Mem;
use crate::mem::MemSnap;

verus! {

/// One 8x8 tile: sixteen bytes, two per row; in each row the first byte
/// carries the low color bits and the second the high color bits.
pub struct Tile {
    data: Vec<u8>,
}

/// Whether bit `k` of `b` is set, as 0 or 1.
pub open spec fn bit_of(b: u8, k: u8) -> u8 {
    if b & (1u8 << k) != 0 {
        1
    } else {
        0
    }
}

/// The 2-bit color index of pixel `pixel` (row-major) in a 16-byte tile.
pub open spec fn tile_pixel(data: Seq<u8>, pixel: u8) -> u8 {
    let row = pixel / 8;
    let col = pixel % 8;
    (2 * bit_of(data[2 * row + 1], (7 - col) as u8) + bit_of(
        data[2 * row],
        (7 - col) as u8,
    )) as u8
}

impl Tile {
    pub closed spec fn view(self) -> Seq<u8> {
        self.data@
    }

    /// The 2-bit color index of a pixel, counted row-major from the top
    /// left.
    pub fn get_pixel_value(&self, pixel: u8) -> (r: u8)
        requires
            self@.len() == 16,
            pixel < 64,
        ensures
            r == tile_pixel(self@, pixel),
            r < 4,
    {
        let row = pixel / 8;
        let pixel_in_row = pixel % 8;
        let mask: u8 = 1u8 << (7 - pixel_in_row);
        let msbit: u8 = if self.data[(2 * row + 1) as usize] & mask != 0 {
            1
        } else {
            0
        };
        let lsbit: u8 = if self.data[(2 * row) as usize] & mask != 0 {
            1
        } else {
            0
        };
        2 * msbit + lsbit
    }
}

pub fn init_tile(data: Vec<u8>) -> (r: Tile)
    requires
        data@.len() == 16,
    ensures
        r@ == data@,
{
    Tile { data }
}

/// The scanline state machine.  The counter holds the T-cycles left in the
/// current line, from 456 down to 1.
#[derive(Copy, Clone)]
pub struct PPU {
    pub scanline_counter: i16,
}

impl PPU {
    /// The counter stays within one 456-cycle line.
    pub open spec fn wf(self) -> bool {
        1 <= self.scanline_counter <= 456
    }
}

/// The STAT mode for a line position: mode 1 throughout V-blank, else OAM
/// scan for the first 80 cycles of the line, drawing for the next 172,
/// and H-blank for the rest.
pub open spec fn mode_of(counter: int, ly: u8) -> u8 {
    if ly >= 144 {
        1
    } else if counter > 376 {
        2
    } else if counter > 204 {
        3
    } else {
        0
    }
}

/// The STAT byte after the unit refreshes its half: bits 7-3 stay, bit 2
/// is the LY=LYC coincidence, bits 1-0 are the mode.
pub open spec fn stat_after(m: MemSnap, counter: int) -> u8 {
    (m.read(0xFF41) & 0xF8) | (if m.read(0xFF44) == m.read(0xFF45) {
        4u8
    } else {
        0u8
    }) | mode_of(counter, m.read(0xFF44))
}

/// One tick of the unit as a function of its state, the bus and the
/// elapsed T-cycles.  Disabled, it holds LY at 0 in mode 1 and waits at
/// the top of a line.  Enabled, it counts the line down; when the line is
/// spent it advances LY (wrapping after line 153), raises the V-blank
/// interrupt flag on entering line 144, and carries the leftover cycles
/// into the next line.  Either way it then refreshes its STAT half.
pub open spec fn update_spec(p: PPU, m: MemSnap, cycles: u8) -> (PPU, MemSnap) {
    if m.read(0xFF40) & 0x80 == 0 {
        let m1 = m.ppu_store(0xFF44, 0);
        let m2 = m1.ppu_store(
            0xFF41,
            (m1.read(0xFF41) & 0xF8) | (if m1.read(0xFF44) == m1.read(0xFF45) {
                4u8
            } else {
                0u8
            }) | 1,
        );
        (PPU { scanline_counter: 456 }, m2)
    } else {
        let next = p.scanline_counter - cycles;
        if next <= 0 {
            let carried = next + 456;
            let old_ly = m.read(0xFF44);
            let new_ly: u8 = if old_ly >= 153 {
                0
            } else {
                (old_ly + 1) as u8
            };
            let m1 = m.ppu_store(0xFF44, new_ly);
            let m2 = if new_ly == 144 {
                m1.write(0xFF0F, m1.read(0xFF0F) | 0x01)
            } else {
                m1
            };
            let m3 = m2.ppu_store(0xFF41, stat_after(m2, carried));
            (PPU { scanline_counter: carried as i16 }, m3)
        } else {
            let m1 = m.ppu_store(0xFF41, stat_after(m, next));
            (PPU { scanline_counter: next as i16 }, m1)
        }
    }
}

impl PPU {
    /// Whether LCDC bit 7 holds the display off.
    pub fn display_disabled(&self, mem: &Mem) -> (r: bool)
        requires
            mem@.wf(),
        ensures
            r == (mem@.read(0xFF40) & 0x80 == 0),
    {
        return if mem.read(0xFF40) & 0b10000000 != 0 {
            false
        } else {
            true
        };
    }

    /// Refreshes the unit's half of STAT: the coincidence bit and the mode
    /// bits, leaving the interrupt-select bits to the processor.
    pub fn update_status(&self, mem: &mut Mem)
        requires
            old(mem)@.wf(),
            self.wf(),
        ensures
            final(mem)@ == old(mem)@.ppu_store(
                0xFF41,
                stat_after(old(mem)@, self.scanline_counter as int),
            ),
            final(mem)@.wf(),
    {
        let ly = mem.read(0xFF44);
        let lyc = mem.read(0xFF45);
        let stat = mem.read(0xFF41);
        let mode: u8 = if ly >= 144 {
            1
        } else if self.scanline_counter > 376 {
            2
        } else if self.scanline_counter > 204 {
            3
        } else {
            0
        };
        let coincidence: u8 = if ly == lyc {
            4
        } else {
            0
        };
        mem.ppu_write(0xFF41, (stat & 0xF8) | coincidence | mode);
    }

    /// Advances the scanline machine by the given T-cycles.
    pub fn update(&self, cycles: u8, mem: &mut Mem) -> (r: PPU)
        requires
            old(mem)@.wf(),
            self.wf(),
        ensures
            final(mem)@.wf(),
            (r, final(mem)@) == update_spec(*self, old(mem)@, cycles),
            r.wf(),
    {
        if self.display_disabled(mem) {
            mem.ppu_write(0xFF44, 0);
            let ly = mem.read(0xFF44);
            let lyc = mem.read(0xFF45);
            let stat = mem.read(0xFF41);
            let coincidence: u8 = if ly == lyc {
                4
            } else {
                0
            };
            mem.ppu_write(0xFF41, (stat & 0xF8) | coincidence | 1);
            return PPU { scanline_counter: 456 };
        }
        let next: i16 = self.scanline_counter - cycles as i16;
        if next <= 0 {
            let carried: i16 = next + 456;
            let old_ly = mem.read(0xFF44);
            let new_ly: u8 = if old_ly >= 153 {
                0
            } else {
                old_ly + 1
            };
            mem.ppu_write(0xFF44, new_ly);
            if new_ly == 144 {
                let iflags = mem.read(0xFF0F);
                mem.write(0xFF0F, iflags | 0x01);
            }
            let new_ppu = PPU { scanline_counter: carried };
            new_ppu.update_status(mem);
            return new_ppu;
        } else {
            let new_ppu = PPU { scanline_counter: next };
            new_ppu.update_status(mem);
            return new_ppu;
        }
    }
}

/// The position within the 70224-cycle frame: full lines behind us plus
/// the cycles already spent on the current line.
pub open spec fn frame_pos(p: PPU, ly: u8) -> int {
    ly * 456 + 456 - p.scanline_counter
}

/// While the display is enabled, ticking moves the frame position forward
/// by exactly the elapsed cycles, modulo the 70224 T-cycles of a frame —
/// so LY runs through 0..153 and back to 0 once per frame — and the
/// V-blank interrupt flag is raised exactly when the position crosses the
/// start of line 144, once per frame.
pub proof fn lemma_frame_progress(p: PPU, m: MemSnap, cycles: u8)
    requires
        p.wf(),
        m.wf(),
        m.read(0xFF40) & 0x80 != 0,
        m.read(0xFF44) <= 153,
    ensures
        ({
            let (p2, m2) = update_spec(p, m, cycles);
            let fp = frame_pos(p, m.read(0xFF44));
            let fp2 = frame_pos(p2, m2.read(0xFF44));
            &&& p2.wf()
            &&& m2.wf()
            &&& m2.read(0xFF44) <= 153
            &&& fp2 == (fp + cycles) % 70224
            &&& m2.read(0xFF44) == fp2 / 456
            &&& m2.read(0xFF40) == m.read(0xFF40)
            &&& m2.read(0xFF0F) == (if fp < 65664 && fp + cycles >= 65664 {
                m.read(0xFF0F) | 0x01
            } else {
                m.read(0xFF0F)
            })
        }),
{
    let (p2, m2) = update_spec(p, m, cycles);
    let ly = m.read(0xFF44);
    let ly2 = m2.read(0xFF44);
    let fp = frame_pos(p, ly);
    let fp2 = frame_pos(p2, ly2);
    assert(0 <= fp2 < 70224);
    vstd::arithmetic::div_mod::lemma_fundamental_div_mod_converse_div(
        fp2,
        456,
        ly2 as int,
        456 - p2.scanline_counter,
    );
    if p.scanline_counter - cycles <= 0 && ly == 153 {
        vstd::arithmetic::div_mod::lemma_fundamental_div_mod_converse_mod(
            fp + cycles,
            70224,
            1,
            fp2,
        );
    } else {
        assert(fp + cycles == fp2);
        vstd::arithmetic::div_mod::lemma_small_mod((fp + cycles) as nat, 70224);
    }
}

pub fn init_ppu() -> (r: PPU)
    ensures
        r.scanline_counter == 456,
        r.wf(),
{
    PPU { scanline_counter: 456 }
}

} // verus!
