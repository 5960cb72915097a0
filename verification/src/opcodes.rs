//! The instruction set: one variant per decoded opcode.

use vstd::prelude::*;

verus! {

/// A 16-bit address into machine memory (only the low 12 bits name a cell).
pub type Address = u16;

/// An 8-bit immediate constant.
pub type Constant = u8;

/// A register operand; only the low 4 bits select one of the 16 registers.
pub type Register = u8;

/// A decoded instruction value, produced from two raw program bytes by an
/// external decoder and consumed by [`crate::System::process_opcode`].
#[derive(Clone, Copy, Debug, PartialEq, Eq, Structural)]
pub enum Opcode {
    /// Machine-routine call; a no-op on this core's state.
    Call(Address),
    /// Display clear; the display is untracked, so a no-op on state.
    Clear,
    /// Pop the most recently pushed return address and resume just past it;
    /// with an empty stack, advance normally instead.
    Return,
    /// Unconditional jump.
    Goto(Address),
    /// Push the current program counter, then jump.
    CallFunction(Address),
    /// Skip the next instruction if the register equals the constant.
    SkipEq(Register, Constant),
    /// Skip the next instruction if the register differs from the constant.
    SkipNEq(Register, Constant),
    /// Skip the next instruction if the two registers are equal.
    SkipEqReg(Register, Register),
    /// register := constant.
    SetReg(Register, Constant),
    /// register := register + constant, wrapping modulo 256, no flag.
    AddAssign(Register, Constant),
    /// first := value of second.
    Copy(Register, Register),
    /// first := first | second.
    Or(Register, Register),
    /// first := first & second.
    And(Register, Register),
    /// first := first ^ second.
    Xor(Register, Register),
    /// first := first + second modulo 256; flag register := 1 on 8-bit
    /// overflow, else 0.
    AddAssignReg(Register, Register),
    /// first := first - second modulo 256; flag register := 1 on underflow,
    /// else 0.
    SubAssignReg(Register, Register),
    /// Both registers := second >> 1; flag register := lowest bit of the
    /// original second.
    ShiftRight(Register, Register),
    /// first := second - first modulo 256; flag register := 1 on underflow,
    /// else 0.
    Subtract(Register, Register),
    /// Both registers := second << 1 modulo 256; flag register := the bit
    /// shifted out (the highest bit of the original second).
    ShiftLeft(Register, Register),
    /// Skip the next instruction if the two registers differ.
    SkipNEqReg(Register, Register),
    /// address register := address.
    SetAddressReg(Address),
    /// Jump to address register + value of register 0.
    JumpOffset(Constant),
    /// Random-number generation is unimplemented; a no-op on state.
    SetRand(Register, Constant),
    /// Draw intent; the display is untracked, so a no-op on state.
    Draw(Register, Register, Constant),
    /// Input polling is unimplemented; a no-op on state.
    SkipKeyPress(Register),
    /// Input polling is unimplemented; a no-op on state.
    SkipNoKeyPress(Register),
    /// register := delay timer.
    StoreDelayTimer(Register),
    /// Blocking key read is unimplemented; a no-op on state.
    StoreKeypress(Register),
    /// delay timer := value of register.
    SetDelayTimer(Register),
    /// sound timer := value of register.
    SetSoundTimer(Register),
    /// address register := address register + value of register, wrapping
    /// modulo 2^16, no flag.
    IncrementAddressReg(Register),
    /// Font sprite lookup is unimplemented; a no-op on state.
    StoreSpriteAddress(Register),
    /// Digit decomposition is unimplemented; a no-op on state.
    BinaryCodedDecimal(Register),
    /// Write registers 0..=register into memory at the address register,
    /// incrementing the address register after each byte.
    Dump(Register),
    /// Read memory at the address register into registers 0..=register,
    /// incrementing the address register after each byte.
    Load(Register),
}

} // verus!
