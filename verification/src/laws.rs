//! Laws that relate several opcode transitions, proved once over the model
//! for every well-formed state.

use vstd::prelude::*;

use vstd::arithmetic::div_mod::lemma_mod_multiples_vanish;
use vstd::arithmetic::div_mod::lemma_small_mod;

use crate::opcodes::Opcode;
use crate::state::FLAG_REGISTER;
use crate::state::StateModel;
use crate::state::reg_idx;
use crate::state::spec_process;
use crate::state::spec_register;
use crate::state::spec_tick;
use crate::state::wrap_add8;
use crate::state::wrap_add16;

verus! {

/// Writing a register with `SetReg` and then reading the same register
/// yields exactly the constant written.
pub proof fn lemma_set_then_get(s: StateModel, r: u8, k: u8)
    requires
        s.wf(),
    ensures
        spec_register(spec_process(s, Opcode::SetReg(r, k)), r) == k,
{
}

/// Reduction of a value below 512 modulo 256, spelled out for the lemma
/// below.
proof fn lemma_mod256(x: int)
    requires
        0 <= x < 512,
    ensures
        x % 256 == (if x < 256 {
            x
        } else {
            x - 256
        }),
{
    if x < 256 {
        lemma_small_mod(x as nat, 256);
    } else {
        lemma_mod_multiples_vanish(1, x - 256, 256);
        lemma_small_mod((x - 256) as nat, 256);
    }
}

/// Two `AddAssignReg(a, b)` in a row compose with plain modular addition:
/// the destination ends at (original a + 2·original b) modulo 256, and the
/// flag register reflects the second step's overflow. The two operands must
/// select distinct registers, neither of them the flag register; otherwise
/// the first step's result or flag write feeds back into the second step.
pub proof fn lemma_add_assign_reg_twice(s: StateModel, a: u8, b: u8)
    requires
        s.wf(),
        reg_idx(a) != reg_idx(b),
        reg_idx(a) != FLAG_REGISTER as int,
        reg_idx(b) != FLAG_REGISTER as int,
    ensures
        ({
            let twice = spec_process(
                spec_process(s, Opcode::AddAssignReg(a, b)),
                Opcode::AddAssignReg(a, b),
            );
            let va = spec_register(s, a);
            let vb = spec_register(s, b);
            &&& spec_register(twice, a) == (va + 2 * vb) % 256
            &&& twice.registers[FLAG_REGISTER as int] == (if wrap_add8(va, vb) + vb > 0xFF {
                1u8
            } else {
                0u8
            })
        }),
{
    let va = spec_register(s, a);
    let vb = spec_register(s, b);
    lemma_mod256(va + vb);
    lemma_mod256(wrap_add8(va, vb) + vb);
    assert(wrap_add8(wrap_add8(va, vb), vb) == (va + 2 * vb) % 256) by {
        if va + vb <= 0xFF {
            lemma_mod256(va + 2 * vb);
        } else {
            lemma_mod256(va + 2 * vb - 256);
            lemma_mod_multiples_vanish(1, va + 2 * vb - 256, 256);
        }
    }
}

/// `CallFunction(address)` followed by `Return` resumes at the instruction
/// immediately after the call: the stack records the pre-call counter, the
/// return pops it and advances past it, and the stack is back to what it
/// was. Everything but the program counter and the stack is untouched by
/// both steps.
pub proof fn lemma_call_then_return(s: StateModel, address: u16)
    requires
        s.wf(),
    ensures
        ({
            let round = spec_process(
                spec_process(s, Opcode::CallFunction(address)),
                Opcode::Return,
            );
            &&& round.program_counter == wrap_add16(s.program_counter, 2)
            &&& round.stack == s.stack
            &&& round.memory == s.memory
            &&& round.registers == s.registers
            &&& round.address_register == s.address_register
            &&& round.delay_timer == s.delay_timer
            &&& round.sound_timer == s.sound_timer
        }),
{
    let called = spec_process(s, Opcode::CallFunction(address));
    assert(called.stack.last() == s.program_counter);
    assert(called.stack.drop_last() =~= s.stack);
}

/// The timer driver is idempotent on zero elapsed time: a tick with zero
/// elapsed seconds leaves the whole state, both timers included, unchanged.
pub proof fn lemma_tick_zero_elapsed(s: StateModel, rate: u8)
    requires
        s.wf(),
        rate > 0,
    ensures
        spec_tick(s, rate, 0) == s,
{
    lemma_small_mod(0, rate as nat);
    assert(spec_tick(s, rate, 0) =~= s);
}

} // verus!
