use gbcore::mem::init_mem;
use gbcore::mem::Mem;
use gbcore::ppu::init_ppu;
use gbcore::ppu::init_tile;

fn blank_mem() -> Mem {
    init_mem(vec![0u8; 0x100], vec![0u8; 0x8000])
}

#[test]
fn test_get_pixel() {
    let tile_data = vec![
        0b10101010u8,
        0b01010101u8,
        0,
        0,
        0,
        0,
        0,
        0,
        0,
        0,
        0,
        0,
        0,
        0,
        0,
        0,
    ];
    let tile = init_tile(tile_data);
    let pixel_data = tile.get_pixel_value(0);
    assert_eq!(pixel_data, 1);
}

#[test]
fn test_get_pixel_high_bit() {
    let mut tile_data = vec![0u8; 16];
    tile_data[0] = 0b10101010;
    tile_data[1] = 0b01010101;
    let tile = init_tile(tile_data);
    // Column 1 has the low bit clear and the high bit set.
    assert_eq!(tile.get_pixel_value(1), 2);
    // Rows below the first are all zero.
    assert_eq!(tile.get_pixel_value(8), 0);
}

#[test]
fn test_disabled_display_holds_ly_zero() {
    let mut mem = blank_mem();
    let ppu = init_ppu();
    let ppu = ppu.update(200, &mut mem);
    let _ppu = ppu.update(200, &mut mem);
    assert_eq!(mem.read(0xFF44), 0);
    // Mode bits report V-blank while the display is off.
    assert_eq!(mem.read(0xFF41) & 0b11, 1);
}

#[test]
fn test_scanline_advances_after_456_cycles() {
    let mut mem = blank_mem();
    mem.write(0xFF40, 0x80);
    let mut ppu = init_ppu();
    for _ in 0..114 {
        ppu = ppu.update(4, &mut mem);
    }
    assert_eq!(mem.read(0xFF44), 1);
}

#[test]
fn test_vblank_timing_over_one_frame() {
    let mut mem = blank_mem();
    mem.write(0xFF40, 0x80);
    let mut ppu = init_ppu();
    let mut vblank_transitions = 0u32;
    let mut seen = [false; 154];
    let mut prev_if = mem.read(0xFF0F) & 1;
    seen[mem.read(0xFF44) as usize] = true;
    for _ in 0..(70224 / 4) {
        ppu = ppu.update(4, &mut mem);
        let ly = mem.read(0xFF44);
        assert!(ly <= 153);
        seen[ly as usize] = true;
        let now_if = mem.read(0xFF0F) & 1;
        if prev_if == 0 && now_if == 1 {
            vblank_transitions += 1;
            assert_eq!(ly, 144);
        }
        prev_if = now_if;
    }
    assert_eq!(vblank_transitions, 1);
    assert!(seen.iter().all(|s| *s));
    // A whole frame brings LY back to 0.
    assert_eq!(mem.read(0xFF44), 0);
}

#[test]
fn test_stat_mode_follows_line_position() {
    let mut mem = blank_mem();
    mem.write(0xFF40, 0x80);
    let ppu = init_ppu();
    // 40 cycles in: OAM scan.
    let ppu = ppu.update(40, &mut mem);
    assert_eq!(mem.read(0xFF41) & 0b11, 2);
    // 160 cycles in: drawing.
    let ppu = ppu.update(120, &mut mem);
    assert_eq!(mem.read(0xFF41) & 0b11, 3);
    // 300 cycles in: H-blank.
    let _ppu = ppu.update(140, &mut mem);
    assert_eq!(mem.read(0xFF41) & 0b11, 0);
}
