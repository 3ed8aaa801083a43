use gbcore::cpu::init_cpu;
use gbcore::cpu::CPU;
use gbcore::mem::init_mem;
use gbcore::mem::Mem;
use gbcore::registers::Registers;

fn mem_with_program(at: u16, program: &[u8]) -> Mem {
    let mut cart = vec![0u8; 0x8000];
    for (i, b) in program.iter().enumerate() {
        cart[at as usize + i] = *b;
    }
    init_mem(vec![0u8; 0x100], cart)
}

#[test]
fn test_nop_then_jp() {
    let mut mem = mem_with_program(0x0100, &[0x00, 0xC3, 0x50, 0x01]);
    let cpu = init_cpu().set_16bit_register(&Registers::PC, 0x0100);
    let (cpu, cycles) = cpu.execute(&mut mem).unwrap();
    assert_eq!(cpu.get_16bit_register(&Registers::PC), 0x0101);
    assert_eq!(cycles, 4);
    let (cpu, cycles) = cpu.execute(&mut mem).unwrap();
    assert_eq!(cpu.get_16bit_register(&Registers::PC), 0x0150);
    assert_eq!(cycles, 16);
}

#[test]
fn test_xor_a_clears_a_and_sets_z() {
    let mut mem = mem_with_program(0x0100, &[0xAF]);
    let cpu = init_cpu()
        .set_16bit_register(&Registers::PC, 0x0100)
        .set_8bit_register(&Registers::A, 0x5A)
        .set_8bit_register(&Registers::Flags, 0x00);
    let (cpu, cycles) = cpu.execute(&mut mem).unwrap();
    assert_eq!(cpu.get_8bit_register(&Registers::A), 0x00);
    assert_eq!(cpu.get_8bit_register(&Registers::Flags), 0x80);
    assert_eq!(cpu.get_16bit_register(&Registers::PC), 0x0101);
    assert_eq!(cycles, 4);
}

#[test]
fn test_xor_a_twice_leaves_state_identical() {
    let mut mem = mem_with_program(0x0100, &[0xAF, 0xAF]);
    let cpu = init_cpu()
        .set_16bit_register(&Registers::PC, 0x0100)
        .set_8bit_register(&Registers::A, 0x5A);
    let (once, _) = cpu.execute(&mut mem).unwrap();
    let (twice, _) = once.execute(&mut mem).unwrap();
    assert_eq!(twice.get_16bit_register(&Registers::AF), once.get_16bit_register(&Registers::AF));
    assert_eq!(twice.get_16bit_register(&Registers::BC), once.get_16bit_register(&Registers::BC));
    assert_eq!(twice.get_16bit_register(&Registers::DE), once.get_16bit_register(&Registers::DE));
    assert_eq!(twice.get_16bit_register(&Registers::HL), once.get_16bit_register(&Registers::HL));
    assert_eq!(twice.get_16bit_register(&Registers::SP), once.get_16bit_register(&Registers::SP));
}

#[test]
fn test_ld_hl_immediate() {
    let mut mem = mem_with_program(0x0100, &[0x21, 0x34, 0x12]);
    let cpu = init_cpu().set_16bit_register(&Registers::PC, 0x0100);
    let (cpu, cycles) = cpu.execute(&mut mem).unwrap();
    assert_eq!(cpu.get_16bit_register(&Registers::HL), 0x1234);
    assert_eq!(cpu.get_16bit_register(&Registers::PC), 0x0103);
    assert_eq!(cycles, 12);
}

#[test]
fn test_call_ret_round_trip() {
    let mut cart = vec![0u8; 0x8000];
    cart[0x0100] = 0xCD;
    cart[0x0101] = 0x34;
    cart[0x0102] = 0x12;
    cart[0x1234] = 0xC9;
    let mut mem = init_mem(vec![0u8; 0x100], cart);
    let cpu = init_cpu().set_16bit_register(&Registers::PC, 0x0100);
    assert_eq!(cpu.get_16bit_register(&Registers::SP), 0xFFFE);
    let (cpu, cycles) = cpu.execute(&mut mem).unwrap();
    assert_eq!(cpu.get_16bit_register(&Registers::PC), 0x1234);
    assert_eq!(cpu.get_16bit_register(&Registers::SP), 0xFFFC);
    assert_eq!(mem.read(0xFFFD), 0x01);
    assert_eq!(mem.read(0xFFFC), 0x03);
    assert_eq!(cycles, 24);
    let (cpu, cycles) = cpu.execute(&mut mem).unwrap();
    assert_eq!(cpu.get_16bit_register(&Registers::PC), 0x0103);
    assert_eq!(cpu.get_16bit_register(&Registers::SP), 0xFFFE);
    assert_eq!(cycles, 16);
}

#[test]
fn test_push_pop_round_trip() {
    let mut mem = mem_with_program(0x0100, &[0xC5, 0xD1]);
    let cpu = init_cpu()
        .set_16bit_register(&Registers::PC, 0x0100)
        .set_16bit_register(&Registers::BC, 0xBEEF);
    let (cpu, cycles) = cpu.execute(&mut mem).unwrap();
    assert_eq!(cycles, 16);
    let (cpu, cycles) = cpu.execute(&mut mem).unwrap();
    assert_eq!(cycles, 12);
    assert_eq!(cpu.get_16bit_register(&Registers::DE), 0xBEEF);
    assert_eq!(cpu.get_16bit_register(&Registers::SP), 0xFFFE);
}

#[test]
fn test_pop_af_masks_low_nibble() {
    let mut mem = mem_with_program(0x0100, &[0x01, 0xFF, 0xFF, 0xC5, 0xF1]);
    let cpu = init_cpu().set_16bit_register(&Registers::PC, 0x0100);
    let (cpu, _) = cpu.execute(&mut mem).unwrap();
    assert_eq!(cpu.get_16bit_register(&Registers::BC), 0xFFFF);
    let (cpu, _) = cpu.execute(&mut mem).unwrap();
    let (cpu, _) = cpu.execute(&mut mem).unwrap();
    assert_eq!(cpu.get_16bit_register(&Registers::AF), 0xFFF0);
}

#[test]
fn test_jr_nz_taken_and_not_taken() {
    // DEC A leaves A == 0, so the branch is skipped.
    let mut mem = mem_with_program(0x0100, &[0x3D, 0x20, 0x05]);
    let cpu = init_cpu()
        .set_16bit_register(&Registers::PC, 0x0100)
        .set_8bit_register(&Registers::A, 1);
    let (cpu, _) = cpu.execute(&mut mem).unwrap();
    assert_eq!(cpu.get_8bit_register(&Registers::A), 0);
    assert!(cpu.get_zero());
    let (cpu, cycles) = cpu.execute(&mut mem).unwrap();
    assert_eq!(cpu.get_16bit_register(&Registers::PC), 0x0103);
    assert_eq!(cycles, 8);

    // With A == 2 the decrement leaves it nonzero and the branch is taken.
    let mut mem = mem_with_program(0x0100, &[0x3D, 0x20, 0x05]);
    let cpu = init_cpu()
        .set_16bit_register(&Registers::PC, 0x0100)
        .set_8bit_register(&Registers::A, 2);
    let (cpu, _) = cpu.execute(&mut mem).unwrap();
    assert_eq!(cpu.get_8bit_register(&Registers::A), 1);
    assert!(!cpu.get_zero());
    let (cpu, cycles) = cpu.execute(&mut mem).unwrap();
    assert_eq!(cpu.get_16bit_register(&Registers::PC), 0x0101 + 2 + 5);
    assert_eq!(cycles, 12);
}

#[test]
fn test_jr_with_most_negative_displacement() {
    let mut mem = mem_with_program(0x0200, &[0x18, 0x80]);
    let cpu = init_cpu().set_16bit_register(&Registers::PC, 0x0200);
    let (cpu, cycles) = cpu.execute(&mut mem).unwrap();
    assert_eq!(cpu.get_16bit_register(&Registers::PC), 0x0200 + 2 - 128);
    assert_eq!(cycles, 12);
}

#[test]
fn test_undefined_opcode_reports_pc_and_byte() {
    let mut mem = mem_with_program(0x0100, &[0xD3]);
    let cpu = init_cpu().set_16bit_register(&Registers::PC, 0x0100);
    let err = cpu.execute(&mut mem).unwrap_err();
    assert_eq!(err.pc, 0x0100);
    assert_eq!(err.opcode, 0xD3);
    assert!(!err.prefixed);

    let mut mem = mem_with_program(0x0100, &[0xCB, 0x41]);
    let err = cpu.execute(&mut mem).unwrap_err();
    assert_eq!(err.pc, 0x0100);
    assert_eq!(err.opcode, 0x41);
    assert!(err.prefixed);
}

#[test]
fn test_interrupt_dispatch_jumps_to_vector() {
    let mut mem = mem_with_program(0x0100, &[0x00]);
    mem.write(0xFFFF, 0x01);
    mem.write(0xFF0F, 0x01);
    let cpu = CPU {
        ime: true,
        ..init_cpu().set_16bit_register(&Registers::PC, 0x0100)
    };
    let (cpu, cycles) = cpu.execute(&mut mem).unwrap();
    assert_eq!(cycles, 20);
    assert_eq!(cpu.get_16bit_register(&Registers::PC), 0x0040);
    assert_eq!(cpu.get_16bit_register(&Registers::SP), 0xFFFC);
    assert_eq!(mem.read(0xFFFD), 0x01);
    assert_eq!(mem.read(0xFFFC), 0x00);
    assert_eq!(mem.read(0xFF0F) & 0x01, 0);
    assert!(!cpu.ime);
}

#[test]
fn test_di_clears_interrupt_master_enable() {
    let mut mem = mem_with_program(0x0100, &[0xF3]);
    let cpu = CPU {
        ime: true,
        ..init_cpu().set_16bit_register(&Registers::PC, 0x0100)
    };
    let (cpu, cycles) = cpu.execute(&mut mem).unwrap();
    assert!(!cpu.ime);
    assert_eq!(cpu.get_16bit_register(&Registers::PC), 0x0101);
    assert_eq!(cycles, 4);
}

#[test]
fn test_boot_rom_executes_first() {
    // The reset vector reads from the boot ROM until 0xFF50 is written.
    let mut boot = vec![0u8; 0x100];
    boot[0x0000] = 0x3E;  // LD A, 0x42
    boot[0x0001] = 0x42;
    let mut cart = vec![0u8; 0x8000];
    cart[0x0000] = 0x00;
    let mut mem = init_mem(boot, cart);
    let cpu = init_cpu();
    let (cpu, _) = cpu.execute(&mut mem).unwrap();
    assert_eq!(cpu.get_8bit_register(&Registers::A), 0x42);
}

#[test]
fn test_ld_register_block() {
    // LD B, C then LD (HL), B then LD E, (HL).
    let mut mem = mem_with_program(0x0100, &[0x41, 0x70, 0x5E]);
    let cpu = init_cpu()
        .set_16bit_register(&Registers::PC, 0x0100)
        .set_8bit_register(&Registers::C, 0x7E)
        .set_16bit_register(&Registers::HL, 0xC000);
    let (cpu, cycles) = cpu.execute(&mut mem).unwrap();
    assert_eq!(cpu.get_8bit_register(&Registers::B), 0x7E);
    assert_eq!(cycles, 4);
    let (cpu, cycles) = cpu.execute(&mut mem).unwrap();
    assert_eq!(mem.read(0xC000), 0x7E);
    assert_eq!(cycles, 8);
    let (cpu, cycles) = cpu.execute(&mut mem).unwrap();
    assert_eq!(cpu.get_8bit_register(&Registers::E), 0x7E);
    assert_eq!(cycles, 8);
}

#[test]
fn test_alu_block_and_or_adc_sbc() {
    // AND B; OR C; ADC A, n; SBC A, n.
    let mut mem = mem_with_program(0x0100, &[0xA0, 0xB1, 0xCE, 0x01, 0xDE, 0x01]);
    let cpu = init_cpu()
        .set_16bit_register(&Registers::PC, 0x0100)
        .set_8bit_register(&Registers::A, 0b1100)
        .set_8bit_register(&Registers::B, 0b1010)
        .set_8bit_register(&Registers::C, 0b0001);
    let (cpu, cycles) = cpu.execute(&mut mem).unwrap();
    assert_eq!(cpu.get_8bit_register(&Registers::A), 0b1000);
    // AND always sets the half-carry flag.
    assert_eq!(cpu.get_8bit_register(&Registers::Flags), 0b00100000);
    assert_eq!(cycles, 4);
    let (cpu, _) = cpu.execute(&mut mem).unwrap();
    assert_eq!(cpu.get_8bit_register(&Registers::A), 0b1001);
    assert_eq!(cpu.get_8bit_register(&Registers::Flags), 0);
    // ADC with carry clear adds only the immediate; with 0xFF it carries.
    let cpu = cpu.set_8bit_register(&Registers::A, 0xFF);
    let (cpu, cycles) = cpu.execute(&mut mem).unwrap();
    assert_eq!(cpu.get_8bit_register(&Registers::A), 0x00);
    assert!(cpu.get_carry());
    assert!(cpu.get_zero());
    assert_eq!(cycles, 8);
    // SBC now subtracts the immediate and the carry.
    let cpu = cpu.set_8bit_register(&Registers::A, 0x05);
    let (cpu, _) = cpu.execute(&mut mem).unwrap();
    assert_eq!(cpu.get_8bit_register(&Registers::A), 0x03);
    assert!(!cpu.get_carry());
}

#[test]
fn test_ldi_a_from_hl() {
    let mut cart = vec![0u8; 0x8000];
    cart[0x0100] = 0x2A;
    cart[0x0101] = 0x3A;
    let mut mem = init_mem(vec![0u8; 0x100], cart);
    mem.write(0xC010, 0x42);
    mem.write(0xC011, 0x43);
    let cpu = init_cpu()
        .set_16bit_register(&Registers::PC, 0x0100)
        .set_16bit_register(&Registers::HL, 0xC010);
    let (cpu, _) = cpu.execute(&mut mem).unwrap();
    assert_eq!(cpu.get_8bit_register(&Registers::A), 0x42);
    assert_eq!(cpu.get_16bit_register(&Registers::HL), 0xC011);
    let (cpu, _) = cpu.execute(&mut mem).unwrap();
    assert_eq!(cpu.get_8bit_register(&Registers::A), 0x43);
    assert_eq!(cpu.get_16bit_register(&Registers::HL), 0xC010);
}

#[test]
fn test_jr_on_carry_flag() {
    let mut mem = mem_with_program(0x0100, &[0x38, 0x05]);
    let cpu = init_cpu()
        .set_16bit_register(&Registers::PC, 0x0100)
        .set_carry(true);
    let (cpu2, cycles) = cpu.execute(&mut mem).unwrap();
    assert_eq!(cpu2.get_16bit_register(&Registers::PC), 0x0102 + 5);
    assert_eq!(cycles, 12);
    let cpu = cpu.set_carry(false);
    let (cpu2, cycles) = cpu.execute(&mut mem).unwrap();
    assert_eq!(cpu2.get_16bit_register(&Registers::PC), 0x0102);
    assert_eq!(cycles, 8);
}
