use gameboy_cpu::cpu::CPU;

#[test]
fn cpu_add_hl() {
    let mut cpu = CPU::new();
    cpu.registers.set_hl(200);
    cpu.registers.f.subtract = true;
    let new_value = cpu.add_hl(1);
    assert_eq!(new_value, 201);
    assert_eq!(cpu.registers.f.zero, false);
    assert_eq!(cpu.registers.f.subtract, false);
    assert_eq!(cpu.registers.f.carry, false);
    assert_eq!(cpu.registers.f.half_carry, true);
}

#[test]
fn cpu_add_hl_no_half_carry() {
    let mut cpu = CPU::new();
    cpu.registers.set_hl(10);
    let new_value = cpu.add_hl(5);
    assert_eq!(new_value, 15);
    assert_eq!(cpu.registers.f.zero, false);
    assert_eq!(cpu.registers.f.carry, false);
    assert_eq!(cpu.registers.f.half_carry, false);
}

#[test]
fn cpu_add_hl_half_carry() {
    let mut cpu = CPU::new();
    cpu.registers.set_hl(0);
    let new_value = cpu.add_hl(16);
    assert_eq!(new_value, 16);
    assert_eq!(cpu.registers.f.zero, false);
    assert_eq!(cpu.registers.f.carry, false);
    assert_eq!(cpu.registers.f.half_carry, true);
}

#[test]
fn cpu_add_hl_carry_zero() {
    let mut cpu = CPU::new();
    cpu.registers.set_hl(65535);
    let new_value = cpu.add_hl(1);
    assert_eq!(new_value, 0);
    assert_eq!(cpu.registers.f.zero, true);
    assert_eq!(cpu.registers.f.carry, true);
    assert_eq!(cpu.registers.f.half_carry, true);
}

#[test]
fn cpu_add_hl_carry_no_half() {
    let mut cpu = CPU::new();
    cpu.registers.set_hl(65280);
    let new_value = cpu.add_hl(65280);
    assert_eq!(new_value, 65024);
    assert_eq!(cpu.registers.f.zero, false);
    assert_eq!(cpu.registers.f.carry, true);
    assert_eq!(cpu.registers.f.half_carry, false);
}

#[test]
fn add_hl_leaves_the_registers_untouched() {
    let mut cpu = CPU::new();
    cpu.registers.set_hl(0x1234);
    cpu.registers.a = 9;
    cpu.registers.set_bc(0x0102);
    cpu.registers.set_de(0x0304);
    let new_value = cpu.add_hl(0x1111);
    assert_eq!(new_value, 0x2345);
    assert_eq!(cpu.registers.get_hl(), 0x1234);
    assert_eq!(cpu.registers.a, 9);
    assert_eq!(cpu.registers.get_bc(), 0x0102);
    assert_eq!(cpu.registers.get_de(), 0x0304);
}

#[test]
fn add_hl_half_carry_threshold_is_fifteen_on_the_low_bytes() {
    let mut cpu = CPU::new();
    cpu.registers.set_hl(0x0108);
    cpu.add_hl(0x0207);
    assert_eq!(cpu.registers.f.half_carry, false);
    cpu.registers.set_hl(0x0108);
    cpu.add_hl(0x0208);
    assert_eq!(cpu.registers.f.half_carry, true);
    cpu.registers.set_hl(0x0FFF);
    cpu.add_hl(0x0100);
    assert_eq!(cpu.registers.f.half_carry, true);
    cpu.registers.set_hl(0x0F00);
    cpu.add_hl(0x0100);
    assert_eq!(cpu.registers.f.half_carry, false);
}

#[test]
fn add_hl_matches_integer_arithmetic_on_sampled_inputs() {
    let samples: [u16; 12] =
        [0, 1, 15, 16, 255, 256, 0x0FFF, 0x1000, 0x7FFF, 0x8000, 0xFF00, 0xFFFF];
    for hl in samples {
        for operand in samples {
            let mut cpu = CPU::new();
            cpu.registers.set_hl(hl);
            cpu.registers.f.subtract = true;
            let result = cpu.add_hl(operand);
            let sum = hl as u32 + operand as u32;
            assert_eq!(result as u32, sum % 65536);
            assert_eq!(cpu.registers.f.carry, sum > 65535);
            assert_eq!(cpu.registers.f.zero, result == 0);
            assert_eq!(cpu.registers.f.half_carry, (hl & 0xFF) + (operand & 0xFF) > 0xF);
            assert_eq!(cpu.registers.f.subtract, false);
        }
    }
}
