//! The mathematical model of the machine and the per-opcode transition
//! semantics, stated purely over `Seq` and integers.

use vstd::prelude::*;

use crate::opcodes::Opcode;

verus! {

/// Number of one-byte memory cells.
pub const MEMORY_SIZE: usize = 4096;

/// Number of general-purpose registers.
pub const REGISTER_COUNT: usize = 16;

/// Index of the register that doubles as the carry/borrow/shift flag.
pub const FLAG_REGISTER: usize = 15;

/// Address at which a program image is loaded.
pub const PROGRAM_START: u16 = 0x200;

/// First address of the reserved area: program loading stops here.
pub const RESERVED_START: u16 = 0xEA0;

/// Size in bytes of one instruction.
pub const WORD_SIZE: u16 = 2;

/// The abstract machine state: what a [`crate::System`] looks like in
/// contracts.
#[verifier::ext_equal]
pub struct StateModel {
    /// 4096 one-byte cells.
    pub memory: Seq<u8>,
    /// 16 general-purpose 8-bit registers; index 15 is the flag register.
    pub registers: Seq<u8>,
    /// The 16-bit address register.
    pub address_register: u16,
    /// Return addresses, most recently pushed last.
    pub stack: Seq<u16>,
    /// The delay countdown timer.
    pub delay_timer: u8,
    /// The sound countdown timer.
    pub sound_timer: u8,
    /// The 16-bit program counter.
    pub program_counter: u16,
}

impl StateModel {
    /// Well-formedness: the two fixed-size stores have their fixed sizes.
    pub open spec fn wf(self) -> bool {
        &&& self.memory.len() == MEMORY_SIZE
        &&& self.registers.len() == REGISTER_COUNT
    }
}

/// The register file index selected by a register operand: its low 4 bits.
pub open spec fn reg_idx(r: u8) -> int {
    (r % 16) as int
}

/// The memory cell selected by a 16-bit address: its low 12 bits.
pub open spec fn mem_idx(a: u16) -> int {
    (a % 4096) as int
}

/// 16-bit wrapping addition.
pub open spec fn wrap_add16(x: u16, y: u16) -> u16 {
    if x + y > 0xFFFF {
        (x + y - 0x10000) as u16
    } else {
        (x + y) as u16
    }
}

/// 8-bit wrapping addition.
pub open spec fn wrap_add8(x: u8, y: u8) -> u8 {
    if x + y > 0xFF {
        (x + y - 0x100) as u8
    } else {
        (x + y) as u8
    }
}

/// 8-bit wrapping subtraction.
pub open spec fn wrap_sub8(x: u8, y: u8) -> u8 {
    if x - y < 0 {
        (x - y + 0x100) as u8
    } else {
        (x - y) as u8
    }
}

/// Subtraction clamped at zero, the timers' decay rule.
pub open spec fn clamp_sub8(x: u8, y: u8) -> u8 {
    if x >= y {
        (x - y) as u8
    } else {
        0
    }
}

/// The state after writing `value` to the register selected by `r`.
pub open spec fn spec_set_register(s: StateModel, r: u8, value: u8) -> StateModel {
    StateModel { registers: s.registers.update(reg_idx(r), value), ..s }
}

/// The state after routing a carry/borrow/shift outcome to the flag register.
pub open spec fn spec_set_flag(s: StateModel, value: u8) -> StateModel {
    StateModel { registers: s.registers.update(FLAG_REGISTER as int, value), ..s }
}

/// The state after the program counter advances by `bytes`, wrapping.
pub open spec fn spec_advance(s: StateModel, bytes: u16) -> StateModel {
    StateModel { program_counter: wrap_add16(s.program_counter, bytes), ..s }
}

/// Memory after the first `n` registers have been dumped starting at `addr`:
/// register `i` lands at the cell selected by `addr + i`, sequentially, so a
/// later write wins over an earlier one to the same cell.
pub open spec fn spec_dump_mem(mem: Seq<u8>, regs: Seq<u8>, addr: u16, n: int) -> Seq<u8>
    decreases n,
{
    if n <= 0 {
        mem
    } else {
        spec_dump_mem(mem, regs, addr, n - 1).update(
            mem_idx(wrap_add16(addr, (n - 1) as u16)),
            regs[n - 1],
        )
    }
}

/// Registers after the first `n` have been loaded from memory starting at
/// `addr`: register `i` takes the cell selected by `addr + i`.
pub open spec fn spec_load_regs(regs: Seq<u8>, mem: Seq<u8>, addr: u16, n: int) -> Seq<u8>
    decreases n,
{
    if n <= 0 {
        regs
    } else {
        spec_load_regs(regs, mem, addr, n - 1).update(
            n - 1,
            mem[mem_idx(wrap_add16(addr, (n - 1) as u16))],
        )
    }
}

/// The value of the register selected by `r`.
pub open spec fn spec_register(s: StateModel, r: u8) -> u8 {
    s.registers[reg_idx(r)]
}

/// The transition a single decoded opcode applies to the machine state.
///
/// Every opcode advances the program counter by one instruction width except
/// the explicit jumps (`Goto`, `CallFunction`, `JumpOffset`), and by two
/// widths when a conditional skip's condition is true. All 8-bit arithmetic
/// wraps modulo 256; the arithmetic and shift opcodes route their
/// carry/borrow/shift-out bit to the flag register after the result is
/// written, so on register 15 the flag write wins.
pub open spec fn spec_process(s: StateModel, op: Opcode) -> StateModel {
    match op {
        Opcode::Call(_) => spec_advance(s, 2),
        Opcode::Clear => spec_advance(s, 2),
        Opcode::Return => {
            if s.stack.len() > 0 {
                StateModel {
                    stack: s.stack.drop_last(),
                    program_counter: wrap_add16(s.stack.last(), 2),
                    ..s
                }
            } else {
                spec_advance(s, 2)
            }
        },
        Opcode::Goto(address) => StateModel { program_counter: address, ..s },
        Opcode::CallFunction(address) => StateModel {
            stack: s.stack.push(s.program_counter),
            program_counter: address,
            ..s
        },
        Opcode::SkipEq(r, k) => {
            if spec_register(s, r) == k {
                spec_advance(s, 4)
            } else {
                spec_advance(s, 2)
            }
        },
        Opcode::SkipNEq(r, k) => {
            if spec_register(s, r) != k {
                spec_advance(s, 4)
            } else {
                spec_advance(s, 2)
            }
        },
        Opcode::SkipEqReg(a, b) => {
            if spec_register(s, a) == spec_register(s, b) {
                spec_advance(s, 4)
            } else {
                spec_advance(s, 2)
            }
        },
        Opcode::SkipNEqReg(a, b) => {
            if spec_register(s, a) != spec_register(s, b) {
                spec_advance(s, 4)
            } else {
                spec_advance(s, 2)
            }
        },
        Opcode::SetReg(r, k) => spec_advance(spec_set_register(s, r, k), 2),
        Opcode::AddAssign(r, k) => spec_advance(
            spec_set_register(s, r, wrap_add8(spec_register(s, r), k)),
            2,
        ),
        Opcode::Copy(to, from) => spec_advance(
            spec_set_register(s, to, spec_register(s, from)),
            2,
        ),
        Opcode::Or(a, b) => spec_advance(
            spec_set_register(s, a, spec_register(s, a) | spec_register(s, b)),
            2,
        ),
        Opcode::And(a, b) => spec_advance(
            spec_set_register(s, a, spec_register(s, a) & spec_register(s, b)),
            2,
        ),
        Opcode::Xor(a, b) => spec_advance(
            spec_set_register(s, a, spec_register(s, a) ^ spec_register(s, b)),
            2,
        ),
        Opcode::AddAssignReg(a, b) => {
            let va = spec_register(s, a);
            let vb = spec_register(s, b);
            let flag: u8 = if va + vb > 0xFF { 1 } else { 0 };
            spec_advance(spec_set_flag(spec_set_register(s, a, wrap_add8(va, vb)), flag), 2)
        },
        Opcode::SubAssignReg(a, b) => {
            let va = spec_register(s, a);
            let vb = spec_register(s, b);
            let flag: u8 = if va < vb { 1 } else { 0 };
            spec_advance(spec_set_flag(spec_set_register(s, a, wrap_sub8(va, vb)), flag), 2)
        },
        Opcode::Subtract(a, b) => {
            let va = spec_register(s, a);
            let vb = spec_register(s, b);
            let flag: u8 = if vb < va { 1 } else { 0 };
            spec_advance(spec_set_flag(spec_set_register(s, a, wrap_sub8(vb, va)), flag), 2)
        },
        Opcode::ShiftRight(a, b) => {
            let original = spec_register(s, b);
            let value = original >> 1;
            spec_advance(
                spec_set_flag(
                    spec_set_register(spec_set_register(s, a, value), b, value),
                    original & 1,
                ),
                2,
            )
        },
        Opcode::ShiftLeft(a, b) => {
            let original = spec_register(s, b);
            let value = wrap_add8(original, original);
            spec_advance(
                spec_set_flag(
                    spec_set_register(spec_set_register(s, a, value), b, value),
                    original >> 7,
                ),
                2,
            )
        },
        Opcode::SetAddressReg(address) => spec_advance(
            StateModel { address_register: address, ..s },
            2,
        ),
        Opcode::JumpOffset(_) => StateModel {
            program_counter: wrap_add16(s.address_register, spec_register(s, 0) as u16),
            ..s
        },
        Opcode::SetRand(_, _) => spec_advance(s, 2),
        Opcode::Draw(_, _, _) => spec_advance(s, 2),
        Opcode::SkipKeyPress(_) => spec_advance(s, 2),
        Opcode::SkipNoKeyPress(_) => spec_advance(s, 2),
        Opcode::StoreDelayTimer(r) => spec_advance(spec_set_register(s, r, s.delay_timer), 2),
        Opcode::StoreKeypress(_) => spec_advance(s, 2),
        Opcode::SetDelayTimer(r) => spec_advance(
            StateModel { delay_timer: spec_register(s, r), ..s },
            2,
        ),
        Opcode::SetSoundTimer(r) => spec_advance(
            StateModel { sound_timer: spec_register(s, r), ..s },
            2,
        ),
        Opcode::IncrementAddressReg(r) => spec_advance(
            StateModel {
                address_register: wrap_add16(s.address_register, spec_register(s, r) as u16),
                ..s
            },
            2,
        ),
        Opcode::StoreSpriteAddress(_) => spec_advance(s, 2),
        Opcode::BinaryCodedDecimal(_) => spec_advance(s, 2),
        Opcode::Dump(r) => {
            let n = r % 16 + 1;
            spec_advance(
                StateModel {
                    memory: spec_dump_mem(s.memory, s.registers, s.address_register, n as int),
                    address_register: wrap_add16(s.address_register, n as u16),
                    ..s
                },
                2,
            )
        },
        Opcode::Load(r) => {
            let n = r % 16 + 1;
            spec_advance(
                StateModel {
                    registers: spec_load_regs(s.registers, s.memory, s.address_register, n as int),
                    address_register: wrap_add16(s.address_register, n as u16),
                    ..s
                },
                2,
            )
        },
    }
}

/// The timer decay applied once per cycle: `elapsed_secs` whole seconds,
/// reduced modulo the tick rate, are subtracted from each timer, clamping at
/// zero.
pub open spec fn spec_tick(s: StateModel, rate: u8, elapsed_secs: u64) -> StateModel {
    let dec = (elapsed_secs % rate as u64) as u8;
    StateModel {
        delay_timer: clamp_sub8(s.delay_timer, dec),
        sound_timer: clamp_sub8(s.sound_timer, dec),
        ..s
    }
}

} // verus!
