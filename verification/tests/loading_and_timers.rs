use chip8_core::Opcode;
use chip8_core::System;

#[test]
fn new_zeroes_everything_and_starts_at_0x200() {
    let system = System::new(&[]);
    assert_eq!(system.get_program_counter(), 0x200);
    assert_eq!(system.get_address_register(), 0);
    assert_eq!(system.get_delay_timer(), 0);
    assert_eq!(system.get_sound_timer(), 0);
    assert_eq!(system.stack_len(), 0);
    for r in 0..16u8 {
        assert_eq!(system.get_register(r), 0);
    }
    for a in [0u16, 0x1FF, 0x200, 0xE9F, 0xEA0, 0xFFF] {
        assert_eq!(system.read_memory(a), 0);
    }
}

#[test]
fn program_is_loaded_at_0x200() {
    let system = System::new(&[0xDE, 0xAD, 0xBE, 0xEF]);
    assert_eq!(system.read_memory(0x1FF), 0);
    assert_eq!(system.read_memory(0x200), 0xDE);
    assert_eq!(system.read_memory(0x201), 0xAD);
    assert_eq!(system.read_memory(0x202), 0xBE);
    assert_eq!(system.read_memory(0x203), 0xEF);
    assert_eq!(system.read_memory(0x204), 0);
}

#[test]
fn loading_truncates_at_exactly_0xca0_bytes() {
    // A program longer than the 0xCA0-byte window between 0x200 and 0xEA0.
    let program: Vec<u8> = (0..0xD00u32).map(|i| (i % 251) as u8 + 1).collect();
    let system = System::new(&program);
    // The last byte written lands at 0xE9F, from program offset 0xC9F.
    assert_eq!(system.read_memory(0xE9F), program[0xC9F]);
    // Bytes beyond the 0xCA0th are absent: the reserved area stays zero.
    assert_eq!(system.read_memory(0xEA0), 0);
    assert_eq!(system.read_memory(0xEA1), 0);
    assert_eq!(system.read_memory(0xFFF), 0);
    assert_eq!(system.read_memory(0x200), program[0]);
}

#[test]
fn tick_with_zero_elapsed_time_changes_nothing() {
    let mut system = System::new(&[]);
    system.process_opcode(Opcode::SetReg(0, 30));
    system.process_opcode(Opcode::SetDelayTimer(0));
    system.process_opcode(Opcode::SetReg(1, 7));
    system.process_opcode(Opcode::SetSoundTimer(1));
    system.tick(60, 0);
    assert_eq!(system.get_delay_timer(), 30);
    assert_eq!(system.get_sound_timer(), 7);
}

#[test]
fn tick_decrements_both_timers_by_the_elapsed_seconds() {
    let mut system = System::new(&[]);
    system.process_opcode(Opcode::SetReg(0, 30));
    system.process_opcode(Opcode::SetDelayTimer(0));
    system.process_opcode(Opcode::SetReg(1, 7));
    system.process_opcode(Opcode::SetSoundTimer(1));
    system.tick(60, 5);
    assert_eq!(system.get_delay_timer(), 25);
    assert_eq!(system.get_sound_timer(), 2);
}

#[test]
fn tick_reduces_elapsed_time_modulo_the_rate() {
    let mut system = System::new(&[]);
    system.process_opcode(Opcode::SetReg(0, 30));
    system.process_opcode(Opcode::SetDelayTimer(0));
    system.tick(60, 61);
    assert_eq!(system.get_delay_timer(), 29);
}

#[test]
fn tick_clamps_at_zero_instead_of_wrapping() {
    let mut system = System::new(&[]);
    system.process_opcode(Opcode::SetReg(0, 3));
    system.process_opcode(Opcode::SetDelayTimer(0));
    system.tick(60, 10);
    assert_eq!(system.get_delay_timer(), 0);
    assert_eq!(system.get_sound_timer(), 0);
    system.tick(60, 10);
    assert_eq!(system.get_delay_timer(), 0);
}
