use gameboy_cpu::cpu::CPU;

#[test]
fn sub_equal_operands_gives_zero() {
    let mut cpu = CPU::new();
    cpu.registers.a = 1;
    let new_value = cpu.sub(1);
    assert_eq!(new_value, 0);
    assert_eq!(cpu.registers.f.zero, true);
    assert_eq!(cpu.registers.f.carry, false);
    assert_eq!(cpu.registers.f.subtract, true);
}

#[test]
fn sub_larger_operand_borrows_and_wraps() {
    let mut cpu = CPU::new();
    cpu.registers.a = 0;
    let new_value = cpu.sub(1);
    assert_eq!(new_value, 255);
    assert_eq!(cpu.registers.f.zero, false);
    assert_eq!(cpu.registers.f.carry, true);
    assert_eq!(cpu.registers.f.subtract, true);
}

#[test]
fn sub_keeps_the_half_carry_flag() {
    for half_carry in [false, true] {
        let mut cpu = CPU::new();
        cpu.registers.a = 0x10;
        cpu.registers.f.half_carry = half_carry;
        let new_value = cpu.sub(0x01);
        assert_eq!(new_value, 0x0F);
        assert_eq!(cpu.registers.f.half_carry, half_carry);
    }
}

#[test]
fn sub_leaves_the_accumulator_untouched() {
    let mut cpu = CPU::new();
    cpu.registers.a = 50;
    cpu.registers.b = 7;
    let new_value = cpu.sub(20);
    assert_eq!(new_value, 30);
    assert_eq!(cpu.registers.a, 50);
    assert_eq!(cpu.registers.b, 7);
}

#[test]
fn sub_matches_integer_arithmetic_on_every_input() {
    for a in 0..=255i32 {
        for b in 0..=255i32 {
            let mut cpu = CPU::new();
            cpu.registers.a = a as u8;
            let result = cpu.sub(b as u8);
            assert_eq!(result as i32, (a - b).rem_euclid(256));
            assert_eq!(cpu.registers.f.carry, b > a);
            assert_eq!(cpu.registers.f.zero, result == 0);
            assert_eq!(cpu.registers.f.subtract, true);
        }
    }
}
