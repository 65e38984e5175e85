use chip8::cpu::CPU;
use chip8::frame_buffer::FrameBuffer;
use chip8::keyboard::Keyboard;
use chip8::memory::Memory;

fn emulate(cpu: &mut CPU, iterations: usize) {
    let input = Keyboard::new();
    let mut output = FrameBuffer::new();

    for _ in 0..(iterations / 2) {
        cpu.emulate_cycle(&input, &mut output).unwrap();
    }
}

#[test]
fn should_test_opcode_0x1xxx() {
    // arrange
    let data: Vec<u8> = [0x12, 0x02, 0x60, 0x01].to_vec();
    let mut memory = Memory::new();
    memory.load_data(512, &data);
    let mut cpu = CPU::new(memory);

    // act
    emulate(&mut cpu, data.len());

    // assert
    assert_eq!(0x1, cpu.v[0]);
}

#[test]
fn should_test_opcode_0x2xxx() {
    // arrange
    let data: Vec<u8> = [0x22, 0x02, 0x00, 0xEE].to_vec();
    let mut memory = Memory::new();
    memory.load_data(512, &data);
    let mut cpu = CPU::new(memory);

    // act
    emulate(&mut cpu, data.len());

    // assert
    assert_eq!(514, cpu.pc);
}

#[test]
fn should_skip_next_instruction() {
    // arrange
    let data: Vec<u8> = [0x60, 0x01, 0x30, 0x01].to_vec();
    let mut memory = Memory::new();
    memory.load_data(512, &data);
    let mut cpu = CPU::new(memory);

    // act
    emulate(&mut cpu, data.len());

    // assert
    assert_eq!(518, cpu.pc);
}

#[test]
fn should_not_skip_next_instruction() {
    // arrange
    let data: Vec<u8> = [0x60, 0x01, 0x30, 0x02].to_vec();
    let mut memory = Memory::new();
    memory.load_data(512, &data);
    let mut cpu = CPU::new(memory);

    // act
    emulate(&mut cpu, data.len());

    // assert
    assert_eq!(516, cpu.pc);
}

#[test]
fn should_skip_next_instruction_if_not_equals() {
    // arrange
    let data: Vec<u8> = [0x60, 0x01, 0x40, 0x02].to_vec();
    let mut memory = Memory::new();
    memory.load_data(512, &data);
    let mut cpu = CPU::new(memory);

    // act
    emulate(&mut cpu, data.len());

    // assert
    assert_eq!(518, cpu.pc);
}

#[test]
fn should_not_skip_next_instruction_if_equals() {
    // arrange
    let data: Vec<u8> = [0x60, 0x01, 0x40, 0x01].to_vec();
    let mut memory = Memory::new();
    memory.load_data(512, &data);
    let mut cpu = CPU::new(memory);

    // act
    emulate(&mut cpu, data.len());

    // assert
    assert_eq!(516, cpu.pc);
}

#[test]
fn should_skip_next_instruction_if_vx_equals_vy() {
    // arrange
    let data: Vec<u8> = [0x60, 0x01, 0x61, 0x01, 0x50, 0x10].to_vec();
    let mut memory = Memory::new();
    memory.load_data(512, &data);
    let mut cpu = CPU::new(memory);

    // act
    emulate(&mut cpu, data.len());

    // assert
    assert_eq!(520, cpu.pc);
}

#[test]
fn should_not_skip_next_instruction_if_vx_not_equals_vy() {
    // arrange
    let data: Vec<u8> = [0x60, 0x01, 0x61, 0x02, 0x50, 0x10].to_vec();
    let mut memory = Memory::new();
    memory.load_data(512, &data);
    let mut cpu = CPU::new(memory);

    // act
    emulate(&mut cpu, data.len());

    // assert
    assert_eq!(518, cpu.pc);
}

#[test]
fn should_test_opcode_0x6000() {
    // arrange
    let data: Vec<u8> = [0x60, 0x01].to_vec();
    let mut memory = Memory::new();
    memory.load_data(512, &data);
    let mut cpu = CPU::new(memory);

    // act
    emulate(&mut cpu, data.len());

    // assert
    assert_eq!(0x1, cpu.v[0]);
}

#[test]
fn should_add_value_to_value_in_registry() {
    // arrange
    let data: Vec<u8> = [0x60, 0x01, 0x70, 0x01].to_vec();
    let mut memory = Memory::new();
    memory.load_data(512, &data);
    let mut cpu = CPU::new(memory);

    // act
    emulate(&mut cpu, data.len());

    // assert
    assert_eq!(2, cpu.v[0]);
}

#[test]
fn should_add_value_to_value_in_registry_and_resolve_overflow() {
    // arrange
    let data: Vec<u8> = [0x60, 0xFF, 0x70, 0xFF].to_vec();
    let mut memory = Memory::new();
    memory.load_data(512, &data);
    let mut cpu = CPU::new(memory);

    // act
    emulate(&mut cpu, data.len());

    // assert
    assert_eq!(254, cpu.v[0]);
}

#[test]
fn should_test_opcode_0x8xy0() {
    // arrange
    let data: Vec<u8> = [0x60, 0x01, 0x62, 0x02, 0x80, 0x20].to_vec();
    let mut memory = Memory::new();
    memory.load_data(512, &data);
    let mut cpu = CPU::new(memory);

    // act
    emulate(&mut cpu, 4);

    // assert
    assert_eq!(0x1, cpu.v[0]);
    emulate(&mut cpu, 2);
    assert_eq!(0x2, cpu.v[0]);
}

#[test]
fn should_test_opcode_0x8xy1() {
    // arrange
    let data: Vec<u8> = [0x60, 0x01, 0x61, 0x06, 0x80, 0x11].to_vec();
    let mut memory = Memory::new();
    memory.load_data(512, &data);
    let mut cpu = CPU::new(memory);

    // act
    emulate(&mut cpu, data.len());

    // assert
    assert_eq!(7, cpu.v[0]);
}

#[test]
fn should_test_opcode_0x8xy2() {
    // arrange
    let data: Vec<u8> = [0x60, 0x0C, 0x61, 0x06, 0x80, 0x12].to_vec();
    let mut memory = Memory::new();
    memory.load_data(512, &data);
    let mut cpu = CPU::new(memory);

    // act
    emulate(&mut cpu, data.len());

    // assert
    assert_eq!(4, cpu.v[0]);
}

#[test]
fn should_test_opcode_0x8xy3() {
    // arrange
    let data: Vec<u8> = [0x60, 0x09, 0x61, 0x05, 0x80, 0x13].to_vec();
    let mut memory = Memory::new();
    memory.load_data(512, &data);
    let mut cpu = CPU::new(memory);

    // act
    emulate(&mut cpu, data.len());

    // assert
    assert_eq!(12, cpu.v[0]);
}

#[test]
fn should_test_opcode_0x8xy4_no_carry_set_register_f_to_zero() {
    // arrange
    let data: Vec<u8> = [0x60, 0x01, 0x61, 0x01, 0x80, 0x14].to_vec();
    let mut memory = Memory::new();
    memory.load_data(512, &data);
    let mut cpu = CPU::new(memory);

    // act
    emulate(&mut cpu, data.len());

    // assert
    assert_eq!(2, cpu.v[0]);
    assert_eq!(0, cpu.v[0xF]);
}

#[test]
fn should_test_opcode_0x8xy4_with_carry_set_register_f_to_one() {
    // arrange
    let data: Vec<u8> = [0x60, 0xF1, 0x61, 0xF1, 0x80, 0x14].to_vec();
    let mut memory = Memory::new();
    memory.load_data(512, &data);
    let mut cpu = CPU::new(memory);

    // act
    emulate(&mut cpu, data.len());

    // assert
    assert_eq!(226, cpu.v[0]);
    assert_eq!(1, cpu.v[0xF]);
}

#[test]
fn should_test_opcode_0x8xy5_if_sum_is_non_negative_value() {
    // arrange
    let data: Vec<u8> = [0x60, 0x03, 0x61, 0x02, 0x80, 0x15].to_vec();
    let mut memory = Memory::new();
    memory.load_data(512, &data);
    let mut cpu = CPU::new(memory);

    // act
    emulate(&mut cpu, data.len());

    // assert
    assert_eq!(1, cpu.v[0]);
    assert_eq!(1, cpu.v[0xF]);
}

#[test]
fn should_test_opcode_0x8xy5_if_sum_is_negative_value() {
    // arrange
    let data: Vec<u8> = [0x60, 0x02, 0x61, 0x03, 0x80, 0x15].to_vec();
    let mut memory = Memory::new();
    memory.load_data(512, &data);
    let mut cpu = CPU::new(memory);

    // act
    emulate(&mut cpu, data.len());

    // assert
    assert_eq!(255, cpu.v[0]);
    assert_eq!(0, cpu.v[0xF]);
}

#[test]
fn should_test_opcode_0x8xy6_if_sum_has_least_significant_bit_of_one() {
    // arrange
    let data: Vec<u8> = [0x60, 0x03, 0x80, 0x16].to_vec();
    let mut memory = Memory::new();
    memory.load_data(512, &data);
    let mut cpu = CPU::new(memory);

    // act
    emulate(&mut cpu, data.len());

    // assert
    assert_eq!(1, cpu.v[0]);
    assert_eq!(1, cpu.v[0xF]);
}

#[test]
fn should_test_opcode_0x8xy6_if_sum_has_least_significant_bit_of_zero() {
    // arrange
    let data: Vec<u8> = [0x60, 0x02, 0x80, 0x16].to_vec();
    let mut memory = Memory::new();
    memory.load_data(512, &data);
    let mut cpu = CPU::new(memory);

    // act
    emulate(&mut cpu, data.len());

    // assert
    assert_eq!(1, cpu.v[0]);
    assert_eq!(0, cpu.v[0xF]);
}

#[test]
fn should_test_opcode_0x8xy7_if_there_is_no_borrow_set_vf_to_one() {
    // arrange
    let data: Vec<u8> = [0x60, 0x02, 0x61, 0x03, 0x80, 0x17].to_vec();
    let mut memory = Memory::new();
    memory.load_data(512, &data);
    let mut cpu = CPU::new(memory);

    // act
    emulate(&mut cpu, data.len());

    // assert
    assert_eq!(1, cpu.v[0]);
    assert_eq!(1, cpu.v[0xF]);
}

#[test]
fn should_test_opcode_0x8xy7_if_there_is_borrow_set_vf_to_zero() {
    // arrange
    let data: Vec<u8> = [0x60, 0x03, 0x61, 0x02, 0x80, 0x17].to_vec();
    let mut memory = Memory::new();
    memory.load_data(512, &data);
    let mut cpu = CPU::new(memory);

    // act
    emulate(&mut cpu, data.len());

    // assert
    assert_eq!(255, cpu.v[0]);
    assert_eq!(0, cpu.v[0xF]);
}

#[test]
fn should_test_opcode_0x8xye_msb_should_be_one() {
    // arrange
    let data: Vec<u8> = [0x60, 0xFF, 0x80, 0x0E].to_vec();
    let mut memory = Memory::new();
    memory.load_data(512, &data);
    let mut cpu = CPU::new(memory);

    // act
    emulate(&mut cpu, data.len());

    // assert
    assert_eq!(254, cpu.v[0]);
    assert_eq!(1, cpu.v[0xF]);
}

#[test]
fn should_test_opcode_0x8xye_mbs_should_be_zero() {
    // arrange
    let data: Vec<u8> = [0x60, 0x01, 0x80, 0x0E].to_vec();
    let mut memory = Memory::new();
    memory.load_data(512, &data);
    let mut cpu = CPU::new(memory);

    // act
    emulate(&mut cpu, data.len());

    // assert
    assert_eq!(2, cpu.v[0]);
    assert_eq!(0, cpu.v[0xF]);
}

#[test]
fn should_test_opcode_0x9xy0_skips_next_instruction() {
    // arrange
    let data: Vec<u8> = [0x60, 0x01, 0x61, 0x02, 0x90, 0x10].to_vec();
    let mut memory = Memory::new();
    memory.load_data(512, &data);
    let mut cpu = CPU::new(memory);

    // act
    emulate(&mut cpu, data.len());

    // assert
    assert_eq!(520, cpu.pc);
}

#[test]
fn should_test_opcode_0x9xy0_should_not_skips_next_instruction() {
    // arrange
    let data: Vec<u8> = [0x60, 0x01, 0x61, 0x01, 0x90, 0x10].to_vec();
    let mut memory = Memory::new();
    memory.load_data(512, &data);
    let mut cpu = CPU::new(memory);

    // act
    emulate(&mut cpu, data.len());

    // assert
    assert_eq!(518, cpu.pc);
}

#[test]
fn should_test_opcode_0xannn_should_set_i_to_nnn() {
    // arrange
    let data: Vec<u8> = [0xAF, 0xFF].to_vec();
    let mut memory = Memory::new();
    memory.load_data(512, &data);
    let mut cpu = CPU::new(memory);

    // act
    emulate(&mut cpu, data.len());

    // assert
    assert_eq!(4095, cpu.i);
}

#[test]
fn should_test_opcode_0xbnnn_should_jump_to_nnn_plus_vzero() {
    // arrange
    let data: Vec<u8> = [0x60, 0x01, 0xB2, 0x05].to_vec();
    let mut memory = Memory::new();
    memory.load_data(512, &data);
    let mut cpu = CPU::new(memory);

    // act
    emulate(&mut cpu, data.len());

    // assert
    assert_eq!(518, cpu.pc);
}

#[test]
fn should_test_opcode_fx15_set_delay_timer_to_vx() {
    // arrange
    let data: Vec<u8> = [0x60, 0x01, 0xF0, 0x15].to_vec();
    let mut memory = Memory::new();
    memory.load_data(512, &data);
    let mut cpu = CPU::new(memory);

    // act
    emulate(&mut cpu, data.len());

    // assert
    assert_eq!(1, cpu.dt);
}

#[test]
fn should_test_opcode_fx18_set_sound_timer_to_vx() {
    // arrange
    let data: Vec<u8> = [0x60, 0x01, 0xF0, 0x18].to_vec();
    let mut memory = Memory::new();
    memory.load_data(512, &data);
    let mut cpu = CPU::new(memory);

    // act
    emulate(&mut cpu, data.len());

    // assert
    assert_eq!(1, cpu.st);
}

#[test]
fn should_test_opcode_fx1e_add_vx_to_i() {
    // arrange
    let data: Vec<u8> = [0x60, 0x01, 0xF0, 0x1E].to_vec();
    let mut memory = Memory::new();
    memory.load_data(512, &data);
    let mut cpu = CPU::new(memory);

    // act
    emulate(&mut cpu, data.len());

    // assert
    assert_eq!(1, cpu.i);
}

#[test]
fn should_test_opcode_fx07_set_vx_to_the_delay_timer() {
    // arrange
    let input = Keyboard::new();
    let mut output = FrameBuffer::new();
    let data: Vec<u8> = [0xF0, 0x07].to_vec();
    let mut memory = Memory::new();
    memory.load_data(512, &data);
    let mut cpu = CPU::new(memory);
    cpu.dt = 2;

    // act
    cpu.tick(&input, &mut output, false).unwrap();

    // assert
    assert_eq!(1, cpu.v[0]);
}
