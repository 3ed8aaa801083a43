use gbcore::mem::init_mem;
use gbcore::mem::parse_title;
use gbcore::mem::Mem;

fn blank_mem() -> Mem {
    init_mem(vec![0u8; 0x100], vec![0u8; 0x8000])
}

#[test]
fn test_work_ram_read_write() {
    let mut mem = blank_mem();
    mem.write(0xC123, 0x42);
    assert_eq!(mem.read(0xC123), 0x42);
    mem.write(0xFF85, 0x99);
    assert_eq!(mem.read(0xFF85), 0x99);
    mem.write(0xFFFF, 0x1F);
    assert_eq!(mem.read(0xFFFF), 0x1F);
}

#[test]
fn test_echo_ram_mirrors_work_ram() {
    let mut mem = blank_mem();
    mem.write(0xC010, 0xAB);
    assert_eq!(mem.read(0xE010), 0xAB);
    mem.write(0xE011, 0x5C);
    assert_eq!(mem.read(0xC011), 0x5C);
    assert_eq!(mem.read(0xFDFF), mem.read(0xDDFF));
}

#[test]
fn test_rom_writes_are_discarded() {
    let mut cart = vec![0u8; 0x8000];
    cart[0x1000] = 0x77;
    let mut mem = init_mem(vec![0u8; 0x100], cart);
    mem.write(0x1000, 0x55);
    assert_eq!(mem.read(0x1000), 0x77);
}

#[test]
fn test_unusable_region_reads_ff() {
    let mut mem = blank_mem();
    mem.write(0xFEA5, 0x12);
    assert_eq!(mem.read(0xFEA5), 0xFF);
}

#[test]
fn test_boot_rom_overlay_disable_is_permanent() {
    let mut boot = vec![0u8; 0x100];
    let mut cart = vec![0u8; 0x8000];
    boot[0x10] = 0x11;
    cart[0x10] = 0x22;
    let mut mem = init_mem(boot, cart);
    assert_eq!(mem.read(0x0010), 0x11);
    mem.write(0xFF50, 0x01);
    assert_eq!(mem.read(0x0010), 0x22);
    // Writing zero afterwards must not bring the overlay back.
    mem.write(0xFF50, 0x00);
    assert_eq!(mem.read(0x0010), 0x22);
}

#[test]
fn test_set_then_reset_bit_round_trip() {
    let mut mem = blank_mem();
    mem.write(0xC200, 0b01000010);
    mem.set_bit(0xC200, 3);
    assert_eq!(mem.read(0xC200), 0b01001010);
    mem.reset_bit(0xC200, 3);
    assert_eq!(mem.read(0xC200), 0b01000010);
}

#[test]
fn test_ly_write_resets_to_zero() {
    let mut mem = blank_mem();
    mem.write(0xFF44, 77);
    assert_eq!(mem.read(0xFF44), 0);
}

#[test]
fn test_stat_low_bits_are_not_cpu_writable() {
    let mut mem = blank_mem();
    mem.write(0xFF41, 0xFF);
    assert_eq!(mem.read(0xFF41), 0xF8);
}

#[test]
fn test_read_range_collects_bytes() {
    let mut cart = vec![0u8; 0x8000];
    cart[0x0200] = 1;
    cart[0x0201] = 2;
    cart[0x0202] = 3;
    let mem = init_mem(vec![0u8; 0x100], cart);
    let bytes = mem.read_range(0x0200..0x0203);
    assert_eq!(bytes, vec![1, 2, 3]);
}

#[test]
fn test_parse_title_trims_nul_padding() {
    let mut cart = vec![0u8; 0x8000];
    let title = b"TEST GAME";
    for (i, b) in title.iter().enumerate() {
        cart[0x0134 + i] = *b;
    }
    let mem = init_mem(vec![0u8; 0x100], cart);
    assert_eq!(parse_title(&mem), title.to_vec());
}
