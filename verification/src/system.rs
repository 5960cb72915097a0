//! The executable machine: construction, the fetch and execute stages, the
//! timer driver and the register accessors, each verified against the model
//! in [`crate::state`].

use vstd::prelude::*;

use crate::opcodes::Opcode;
use crate::state::FLAG_REGISTER;
use crate::state::MEMORY_SIZE;
use crate::state::PROGRAM_START;
use crate::state::REGISTER_COUNT;
use crate::state::RESERVED_START;
use crate::state::StateModel;
use crate::state::WORD_SIZE;
use crate::state::mem_idx;
use crate::state::reg_idx;
use crate::state::spec_advance;
use crate::state::spec_process;
use crate::state::spec_register;
use crate::state::spec_set_flag;
use crate::state::spec_set_register;
use crate::state::spec_dump_mem;
use crate::state::spec_load_regs;
use crate::state::spec_tick;
use crate::state::wrap_add16;

verus! {

/// The machine state: memory, registers, address register, call stack,
/// timers and program counter. Constructed once from a program image.
pub struct System {
    memory: Vec<u8>,
    registers: Vec<u8>,
    address_register: u16,
    stack: Vec<u16>,
    delay_timer: u8,
    sound_timer: u8,
    program_counter: u16,
}

impl View for System {
    type V = StateModel;

    closed spec fn view(&self) -> StateModel {
        StateModel {
            memory: self.memory@,
            registers: self.registers@,
            address_register: self.address_register,
            stack: self.stack@,
            delay_timer: self.delay_timer,
            sound_timer: self.sound_timer,
            program_counter: self.program_counter,
        }
    }
}

impl System {
    /// Builds the initial machine state from a program image: memory zeroed
    /// with the program copied in starting at 0x200 and truncated where the
    /// reserved area begins at 0xEA0, registers and timers zeroed, an empty
    /// stack, and the program counter at 0x200.
    pub fn new(program: &[u8]) -> (s: System)
        ensures
            s@.wf(),
            forall|j: int| 0 <= j < 0x200 ==> s@.memory[j] == 0,
            forall|j: int|
                0x200 <= j < 0xEA0 ==> s@.memory[j] == (if j - 0x200 < program@.len() {
                    program@[j - 0x200]
                } else {
                    0u8
                }),
            forall|j: int| 0xEA0 <= j < 4096 ==> s@.memory[j] == 0,
            forall|j: int| 0 <= j < 16 ==> s@.registers[j] == 0,
            s@.address_register == 0,
            s@.stack.len() == 0,
            s@.delay_timer == 0,
            s@.sound_timer == 0,
            s@.program_counter == 0x200,
    {
        let mut memory: Vec<u8> = Vec::new();
        let mut filled: usize = 0;
        while filled < MEMORY_SIZE
            invariant
                filled == memory@.len(),
                filled <= MEMORY_SIZE,
                forall|j: int| 0 <= j < filled ==> memory@[j] == 0,
            decreases MEMORY_SIZE - filled,
        {
            memory.push(0);
            filled = filled + 1;
        }

        let mut current_address: usize = PROGRAM_START as usize;
        let mut i: usize = 0;
        while i < program.len() && current_address < RESERVED_START as usize
            invariant
                memory@.len() == MEMORY_SIZE,
                i <= program@.len(),
                current_address == 0x200 + i,
                current_address <= RESERVED_START as usize,
                forall|j: int| 0 <= j < 0x200 ==> memory@[j] == 0,
                forall|j: int| 0x200 <= j < 0x200 + i ==> memory@[j] == program@[j - 0x200],
                forall|j: int| 0x200 + i <= j < 4096 ==> memory@[j] == 0,
            decreases program@.len() - i,
        {
            memory.set(current_address, program[i]);
            current_address = current_address + 1;
            i = i + 1;
        }

        let mut registers: Vec<u8> = Vec::new();
        let mut r: usize = 0;
        while r < REGISTER_COUNT
            invariant
                r == registers@.len(),
                r <= REGISTER_COUNT,
                forall|j: int| 0 <= j < r ==> registers@[j] == 0,
            decreases REGISTER_COUNT - r,
        {
            registers.push(0);
            r = r + 1;
        }

        let stack: Vec<u16> = Vec::with_capacity(24);

        System {
            memory,
            registers,
            address_register: 0x0,
            stack,
            delay_timer: 0,
            sound_timer: 0,
            program_counter: PROGRAM_START,
        }
    }

    /// The value of the register selected by the low 4 bits of `register`.
    pub fn get_register(&self, register: u8) -> (value: u8)
        requires
            self@.wf(),
        ensures
            value == spec_register(self@, register),
    {
        self.registers[(register % 16) as usize]
    }

    /// Writes `value` to the register selected by the low 4 bits of
    /// `register`; nothing else changes.
    pub fn set_register(&mut self, register: u8, value: u8)
        requires
            old(self)@.wf(),
        ensures
            final(self)@ == spec_set_register(old(self)@, register, value),
            final(self)@.wf(),
    {
        self.registers.set((register % 16) as usize, value);
        assert(self@ =~= spec_set_register(old(self)@, register, value));
    }

    /// Routes a carry/borrow/shift outcome to the flag register (register
    /// 15); nothing else changes.
    pub fn set_flag_register(&mut self, value: u8)
        requires
            old(self)@.wf(),
        ensures
            final(self)@ == spec_set_flag(old(self)@, value),
            final(self)@.wf(),
    {
        self.registers.set(FLAG_REGISTER, value);
        assert(self@ =~= spec_set_flag(old(self)@, value));
    }

    /// Advances the program counter by `bytes`, wrapping modulo 2^16;
    /// nothing else changes.
    fn advance_pc(&mut self, bytes: u16)
        ensures
            final(self)@ == spec_advance(old(self)@, bytes),
    {
        self.program_counter = self.program_counter.wrapping_add(bytes);
        assert(self@ =~= spec_advance(old(self)@, bytes));
    }

    /// The fetch stage: the two instruction bytes at the program counter.
    /// A counter past the memory bound wraps around to a valid cell rather
    /// than failing.
    pub fn fetch(&self) -> (bytes: (u8, u8))
        requires
            self@.wf(),
        ensures
            bytes.0 == self@.memory[mem_idx(self@.program_counter)],
            bytes.1 == self@.memory[mem_idx(wrap_add16(self@.program_counter, 1))],
    {
        let first = self.memory[(self.program_counter % 4096) as usize];
        let second = self.memory[(self.program_counter.wrapping_add(1) % 4096) as usize];
        (first, second)
    }

    /// The execute stage: applies one decoded opcode's transition to the
    /// machine state, exactly as [`spec_process`] states it. No opcode can
    /// abort: register and memory operands are truncated to their valid
    /// domains and all arithmetic wraps or clamps as specified.
    pub fn process_opcode(&mut self, opcode: Opcode)
        requires
            old(self)@.wf(),
        ensures
            final(self)@ == spec_process(old(self)@, opcode),
            final(self)@.wf(),
    {
        match opcode {
            Opcode::Call(_address) => {
                self.advance_pc(WORD_SIZE);
            },
            Opcode::Clear => {
                self.advance_pc(WORD_SIZE);
            },
            Opcode::Return => {
                match self.stack.pop() {
                    Some(address) => {
                        self.program_counter = address.wrapping_add(WORD_SIZE);
                        assert(self@ =~= spec_process(old(self)@, opcode));
                    },
                    None => {
                        self.advance_pc(WORD_SIZE);
                        assert(self@ =~= spec_process(old(self)@, opcode));
                    },
                }
            },
            Opcode::Goto(address) => {
                self.program_counter = address;
                assert(self@ =~= spec_process(old(self)@, opcode));
            },
            Opcode::CallFunction(address) => {
                let return_address = self.program_counter;
                self.stack.push(return_address);
                self.program_counter = address;
                assert(self@ =~= spec_process(old(self)@, opcode));
            },
            Opcode::SkipEq(register, constant) => {
                if self.get_register(register) == constant {
                    self.advance_pc(2 * WORD_SIZE);
                } else {
                    self.advance_pc(WORD_SIZE);
                }
            },
            Opcode::SkipNEq(register, constant) => {
                if self.get_register(register) != constant {
                    self.advance_pc(2 * WORD_SIZE);
                } else {
                    self.advance_pc(WORD_SIZE);
                }
            },
            Opcode::SkipEqReg(first, second) => {
                if self.get_register(first) == self.get_register(second) {
                    self.advance_pc(2 * WORD_SIZE);
                } else {
                    self.advance_pc(WORD_SIZE);
                }
            },
            Opcode::SkipNEqReg(first, second) => {
                if self.get_register(first) != self.get_register(second) {
                    self.advance_pc(2 * WORD_SIZE);
                } else {
                    self.advance_pc(WORD_SIZE);
                }
            },
            Opcode::SetReg(register, constant) => {
                self.set_register(register, constant);
                self.advance_pc(WORD_SIZE);
            },
            Opcode::AddAssign(register, constant) => {
                let value = self.get_register(register);
                self.set_register(register, value.wrapping_add(constant));
                self.advance_pc(WORD_SIZE);
            },
            Opcode::Copy(to, from) => {
                let from_value = self.get_register(from);
                self.set_register(to, from_value);
                self.advance_pc(WORD_SIZE);
            },
            Opcode::Or(first, second) => {
                let first_value = self.get_register(first);
                let second_value = self.get_register(second);
                self.set_register(first, first_value | second_value);
                self.advance_pc(WORD_SIZE);
            },
            Opcode::And(first, second) => {
                let first_value = self.get_register(first);
                let second_value = self.get_register(second);
                self.set_register(first, first_value & second_value);
                self.advance_pc(WORD_SIZE);
            },
            Opcode::Xor(first, second) => {
                let first_value = self.get_register(first);
                let second_value = self.get_register(second);
                self.set_register(first, first_value ^ second_value);
                self.advance_pc(WORD_SIZE);
            },
            Opcode::AddAssignReg(first, second) => {
                let first_value = self.get_register(first);
                let second_value = self.get_register(second);
                let result = first_value.wrapping_add(second_value);
                let carry = (first_value as u16) + (second_value as u16) > 0xFF;
                self.set_register(first, result);
                self.set_flag_register(if carry { 1 } else { 0 });
                self.advance_pc(WORD_SIZE);
            },
            Opcode::SubAssignReg(first, second) => {
                let first_value = self.get_register(first);
                let second_value = self.get_register(second);
                let result = first_value.wrapping_sub(second_value);
                let borrow = first_value < second_value;
                self.set_register(first, result);
                self.set_flag_register(if borrow { 1 } else { 0 });
                self.advance_pc(WORD_SIZE);
            },
            Opcode::Subtract(first, second) => {
                let first_value = self.get_register(first);
                let second_value = self.get_register(second);
                let result = second_value.wrapping_sub(first_value);
                let borrow = second_value < first_value;
                self.set_register(first, result);
                self.set_flag_register(if borrow { 1 } else { 0 });
                self.advance_pc(WORD_SIZE);
            },
            Opcode::ShiftRight(first, second) => {
                let original_value = self.get_register(second);
                let lowest_bit = original_value & 0x1;
                let value = original_value >> 1;
                self.set_register(first, value);
                self.set_register(second, value);
                self.set_flag_register(lowest_bit);
                self.advance_pc(WORD_SIZE);
            },
            Opcode::ShiftLeft(first, second) => {
                let original_value = self.get_register(second);
                let highest_bit = original_value >> 7;
                let value = original_value.wrapping_add(original_value);
                self.set_register(first, value);
                self.set_register(second, value);
                self.set_flag_register(highest_bit);
                self.advance_pc(WORD_SIZE);
            },
            Opcode::SetAddressReg(address) => {
                self.address_register = address;
                self.advance_pc(WORD_SIZE);
                assert(self@ =~= spec_process(old(self)@, opcode));
            },
            Opcode::JumpOffset(_constant) => {
                let offset = self.get_register(0);
                self.program_counter = self.address_register.wrapping_add(offset as u16);
                assert(self@ =~= spec_process(old(self)@, opcode));
            },
            Opcode::SetRand(_register, _constant) => {
                self.advance_pc(WORD_SIZE);
            },
            Opcode::Draw(_first, _second, _constant) => {
                self.advance_pc(WORD_SIZE);
            },
            Opcode::SkipKeyPress(_register) => {
                self.advance_pc(WORD_SIZE);
            },
            Opcode::SkipNoKeyPress(_register) => {
                self.advance_pc(WORD_SIZE);
            },
            Opcode::StoreDelayTimer(register) => {
                let delay = self.delay_timer;
                self.set_register(register, delay);
                self.advance_pc(WORD_SIZE);
            },
            Opcode::StoreKeypress(_register) => {
                self.advance_pc(WORD_SIZE);
            },
            Opcode::SetDelayTimer(register) => {
                self.delay_timer = self.get_register(register);
                self.advance_pc(WORD_SIZE);
                assert(self@ =~= spec_process(old(self)@, opcode));
            },
            Opcode::SetSoundTimer(register) => {
                self.sound_timer = self.get_register(register);
                self.advance_pc(WORD_SIZE);
                assert(self@ =~= spec_process(old(self)@, opcode));
            },
            Opcode::IncrementAddressReg(register) => {
                let value = self.get_register(register);
                self.address_register = self.address_register.wrapping_add(value as u16);
                self.advance_pc(WORD_SIZE);
                assert(self@ =~= spec_process(old(self)@, opcode));
            },
            Opcode::StoreSpriteAddress(_register) => {
                self.advance_pc(WORD_SIZE);
            },
            Opcode::BinaryCodedDecimal(_register) => {
                self.advance_pc(WORD_SIZE);
            },
            Opcode::Dump(register) => {
                let count: u8 = register % 16 + 1;
                let mut i: u8 = 0;
                while i < count
                    invariant
                        old(self)@.wf(),
                        i <= count,
                        count == reg_idx(register) + 1,
                        self@.memory.len() == MEMORY_SIZE,
                        self@.registers == old(self)@.registers,
                        self@.stack == old(self)@.stack,
                        self@.delay_timer == old(self)@.delay_timer,
                        self@.sound_timer == old(self)@.sound_timer,
                        self@.program_counter == old(self)@.program_counter,
                        self@.address_register == wrap_add16(
                            old(self)@.address_register,
                            i as u16,
                        ),
                        self@.memory =~= spec_dump_mem(
                            old(self)@.memory,
                            old(self)@.registers,
                            old(self)@.address_register,
                            i as int,
                        ),
                    decreases count - i,
                {
                    let cell: usize = (self.address_register % 4096) as usize;
                    let value = self.registers[i as usize];
                    self.memory.set(cell, value);
                    self.address_register = self.address_register.wrapping_add(1);
                    i = i + 1;
                }
                self.advance_pc(WORD_SIZE);
                assert(self@ =~= spec_process(old(self)@, opcode));
            },
            Opcode::Load(register) => {
                let count: u8 = register % 16 + 1;
                let mut i: u8 = 0;
                while i < count
                    invariant
                        old(self)@.wf(),
                        i <= count,
                        count == reg_idx(register) + 1,
                        self@.registers.len() == REGISTER_COUNT,
                        self@.memory == old(self)@.memory,
                        self@.stack == old(self)@.stack,
                        self@.delay_timer == old(self)@.delay_timer,
                        self@.sound_timer == old(self)@.sound_timer,
                        self@.program_counter == old(self)@.program_counter,
                        self@.address_register == wrap_add16(
                            old(self)@.address_register,
                            i as u16,
                        ),
                        self@.registers =~= spec_load_regs(
                            old(self)@.registers,
                            old(self)@.memory,
                            old(self)@.address_register,
                            i as int,
                        ),
                    decreases count - i,
                {
                    let cell: usize = (self.address_register % 4096) as usize;
                    let value = self.memory[cell];
                    self.registers.set(i as usize, value);
                    self.address_register = self.address_register.wrapping_add(1);
                    i = i + 1;
                }
                self.advance_pc(WORD_SIZE);
                assert(self@ =~= spec_process(old(self)@, opcode));
            },
        }
    }

    /// The timer driver, run once per instruction cycle: `elapsed_secs`
    /// whole seconds since the last sample, reduced modulo the tick `rate`,
    /// are subtracted from both countdown timers, clamping at zero so a
    /// decay can never wrap below zero. Zero elapsed time leaves both timers
    /// unchanged.
    pub fn tick(&mut self, rate: u8, elapsed_secs: u64)
        requires
            old(self)@.wf(),
            rate > 0,
        ensures
            final(self)@ == spec_tick(old(self)@, rate, elapsed_secs),
            final(self)@.wf(),
            final(self)@.delay_timer <= old(self)@.delay_timer,
            final(self)@.sound_timer <= old(self)@.sound_timer,
            elapsed_secs == 0 ==> final(self)@.delay_timer == old(self)@.delay_timer
                && final(self)@.sound_timer == old(self)@.sound_timer,
    {
        let decrement = (elapsed_secs % (rate as u64)) as u8;

        if self.delay_timer >= decrement {
            self.delay_timer = self.delay_timer - decrement;
        } else {
            self.delay_timer = 0;
        }

        if self.sound_timer >= decrement {
            self.sound_timer = self.sound_timer - decrement;
        } else {
            self.sound_timer = 0;
        }

        assert(self@ =~= spec_tick(old(self)@, rate, elapsed_secs));
        assert(elapsed_secs == 0 ==> self@.delay_timer == old(self)@.delay_timer
            && self@.sound_timer == old(self)@.sound_timer) by {
            if elapsed_secs == 0 {
                assert(0u64 % (rate as u64) == 0) by (nonlinear_arith)
                    requires rate > 0;
            }
        }
    }

    /// The current program counter.
    pub fn get_program_counter(&self) -> (pc: u16)
        ensures
            pc == self@.program_counter,
    {
        self.program_counter
    }

    /// The current value of the address register.
    pub fn get_address_register(&self) -> (a: u16)
        ensures
            a == self@.address_register,
    {
        self.address_register
    }

    /// The current value of the delay timer.
    pub fn get_delay_timer(&self) -> (t: u8)
        ensures
            t == self@.delay_timer,
    {
        self.delay_timer
    }

    /// The current value of the sound timer.
    pub fn get_sound_timer(&self) -> (t: u8)
        ensures
            t == self@.sound_timer,
    {
        self.sound_timer
    }

    /// The number of return addresses on the call stack.
    pub fn stack_len(&self) -> (n: usize)
        ensures
            n == self@.stack.len(),
    {
        self.stack.len()
    }

    /// The byte in the memory cell selected by the low 12 bits of `address`.
    pub fn read_memory(&self, address: u16) -> (value: u8)
        requires
            self@.wf(),
        ensures
            value == self@.memory[mem_idx(address)],
    {
        self.memory[(address % 4096) as usize]
    }

    /// The decode-failure path: the fetched word is inert data, so the
    /// program counter advances one instruction width and nothing else
    /// changes.
    pub fn skip_data(&mut self)
        requires
            old(self)@.wf(),
        ensures
            final(self)@ == spec_advance(old(self)@, WORD_SIZE),
            final(self)@.wf(),
    {
        self.advance_pc(WORD_SIZE);
    }
}

} // verus!
