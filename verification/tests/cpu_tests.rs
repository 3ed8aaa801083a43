use gbcore::cpu::init_cpu;
use gbcore::cpu::CARRY_FLAG;
use gbcore::cpu::CPU;
use gbcore::cpu::ZERO_FLAG;
use gbcore::registers::init_16bit_register;
use gbcore::registers::init_register;
use gbcore::registers::Registers;

#[test]
fn test_set_zero() {
    let cpu = init_cpu();
    let new_cpu = cpu.set_zero(true);
    assert_eq!(
        new_cpu.get_8bit_register(&Registers::Flags) & ZERO_FLAG,
        0b10000000
    )
}

#[test]
fn test_get_zero() {
    let cpu = CPU {
        af: init_register(0, 0b10000000),
        bc: init_16bit_register(0),
        de: init_16bit_register(0),
        hl: init_16bit_register(0),
        sp: init_16bit_register(0),
        pc: init_16bit_register(0),
        ime: false,
    };
    assert!(cpu.get_zero())
}

#[test]
fn test_unset_zero() {
    let cpu = CPU {
        af: init_register(0, 0b10000000),
        bc: init_16bit_register(0),
        de: init_16bit_register(0),
        hl: init_16bit_register(0),
        sp: init_16bit_register(0),
        pc: init_16bit_register(0),
        ime: false,
    };
    let new_cpu = cpu.set_zero(false);
    assert_eq!(new_cpu.get_8bit_register(&Registers::Flags) & ZERO_FLAG, 0)
}

#[test]
fn test_set_carry() {
    let cpu = init_cpu();
    let new_cpu = cpu.set_carry(true);
    assert_eq!(
        new_cpu.get_8bit_register(&Registers::Flags) & CARRY_FLAG,
        CARRY_FLAG
    )
}

#[test]
fn test_prefixed_rotate_left() {
    let cpu = init_cpu().set_8bit_register(&Registers::A, 0b10000000);
    let new_cpu = cpu.prefixed_rotate_left(&Registers::A);
    assert_eq!(new_cpu.get_8bit_register(&Registers::A), 0);
    assert!(new_cpu.get_carry());
    assert!(new_cpu.get_zero());
    assert_eq!(
        new_cpu.get_16bit_register(&Registers::PC),
        cpu.get_16bit_register(&Registers::PC) + 2
    );
}

#[test]
fn test_combine_bytes() {
    let cpu = init_cpu();
    assert_eq!(
        0b0000000100000001,
        cpu.combine_bytes(0b00000001, 0b00000001)
    );
}

#[test]
fn test_inc_wraps_to_zero_with_half_carry() {
    let cpu = init_cpu().set_8bit_register(&Registers::A, 0xFF);
    let (new_cpu, cycles) = cpu.inc_8bit_register(&Registers::A);
    assert_eq!(new_cpu.get_8bit_register(&Registers::A), 0x00);
    // Z and H set, N clear, C untouched.
    assert_eq!(new_cpu.get_8bit_register(&Registers::Flags), 0b10100000);
    assert_eq!(cycles, 4);
}

#[test]
fn test_dec_wraps_to_ff_with_half_borrow() {
    let cpu = init_cpu().set_8bit_register(&Registers::A, 0x00);
    let (new_cpu, cycles) = cpu.dec_8bit_register(&Registers::A);
    assert_eq!(new_cpu.get_8bit_register(&Registers::A), 0xFF);
    // H and N set, Z clear, C untouched.
    assert_eq!(new_cpu.get_8bit_register(&Registers::Flags), 0b01100000);
    assert_eq!(cycles, 4);
}

#[test]
fn test_add_carry_out_of_bit_7() {
    let cpu = init_cpu().set_8bit_register(&Registers::A, 0x90);
    let (new_cpu, _) = cpu.add(&Registers::A, 0x90);
    assert_eq!(new_cpu.get_8bit_register(&Registers::A), 0x20);
    assert!(new_cpu.get_carry());
    assert!(!new_cpu.get_zero());
}

#[test]
fn test_compare_is_sub_with_a_restored() {
    let cpu = init_cpu()
        .set_8bit_register(&Registers::A, 5)
        .set_8bit_register(&Registers::B, 7);
    let (subbed, _) = cpu.sub(&Registers::B);
    let compared = cpu.compare(5, 7);
    assert_eq!(
        compared.get_8bit_register(&Registers::Flags),
        subbed.get_8bit_register(&Registers::Flags)
    );
    assert_eq!(compared.get_8bit_register(&Registers::A), 5);
    assert_eq!(subbed.get_8bit_register(&Registers::A), 5u8.wrapping_sub(7));
}

#[test]
fn test_flags_low_nibble_always_reads_zero() {
    let cpu = init_cpu().set_8bit_register(&Registers::Flags, 0xFF);
    assert_eq!(cpu.get_8bit_register(&Registers::Flags), 0xF0);
    let cpu = init_cpu().set_16bit_register(&Registers::AF, 0xABCD);
    assert_eq!(cpu.get_8bit_register(&Registers::Flags), 0xC0);
    assert_eq!(cpu.get_8bit_register(&Registers::A), 0xAB);
}

#[test]
fn test_register_pair_view() {
    let reg = init_register(0x12, 0x34);
    assert_eq!(reg.get_16bit_value(), 0x1234);
    let reg = init_16bit_register(0xBEEF);
    assert_eq!(reg.get_high_byte(), 0xBE);
    assert_eq!(reg.get_low_byte(), 0xEF);
    let reg = reg.set_high_byte(0x01).set_low_byte(0x02);
    assert_eq!(reg.get_16bit_value(), 0x0102);
    let reg = reg.set_16bit_value(0x7FFF);
    assert_eq!(reg.get_16bit_value(), 0x7FFF);
}
