//! General properties of the instruction semantics, stated over every
//! machine state and proved once and for all.

use vstd::prelude::*;
use crate::machine::{State, advanced, fetch_ok, spec_fetch};
use crate::isa::{Instr, read_span, spec_parse, step_ok, write_span};

verus! {

/// Clearing the framebuffer is idempotent: executing the clear
/// instruction from the state it produced leaves that state unchanged,
/// so clearing twice is the same as clearing once.
pub proof fn lemma_clear_idempotent(s0: State, s1: State, s2: State, op: u16)
    requires
        spec_parse(op) is ClearScreen,
        step_ok(s0, s1, op),
        step_ok(s1, s2, op),
    ensures
        s2 == s1,
{
    assert(s2 =~= s1);
}

/// Storing registers 0..=x to memory at the index register and then
/// loading registers 0..=x back from the same address restores every
/// register exactly.
pub proof fn lemma_store_load_round_trip(
    s0: State,
    s1: State,
    s2: State,
    x: u8,
    store_op: u16,
    load_op: u16,
)
    requires
        spec_parse(store_op) == (Instr::StoreRegs { x }),
        spec_parse(load_op) == (Instr::LoadRegs { x }),
        x < crate::NUM_REGISTERS,
        s0.regs.len() == crate::NUM_REGISTERS,
        s0.ram.len() == crate::RAM_SIZE,
        s0.index + x + 1 <= crate::RAM_SIZE,
        step_ok(s0, s1, store_op),
        step_ok(s1, s2, load_op),
    ensures
        s2.regs == s0.regs,
{
    assert(s1.ram == write_span(s0.ram, s0.index as int, s0.regs, x + 1));
    assert(s2.regs == read_span(s1.regs, s1.ram, s1.index as int, x + 1));
    assert(s2.regs =~= s0.regs);
}

/// While the key named by a key-wait instruction stays up, a whole step
/// (fetch, advance, execute) leaves the machine exactly as it was, so
/// the same instruction is fetched again on every following step.
pub proof fn lemma_key_wait_blocks(pre: State, post: State, x: u8, op: u16)
    requires
        spec_parse(op) == (Instr::WaitKey { x }),
        spec_fetch(pre) == op,
        fetch_ok(pre),
        x < crate::NUM_REGISTERS,
        pre.regs.len() == crate::NUM_REGISTERS,
        pre.regs[x as int] < crate::NUM_KEYS,
        !pre.keys[pre.regs[x as int] as int],
        step_ok(advanced(pre), post, op),
    ensures
        post == pre,
{
    assert(post =~= pre);
}

/// Once the key named by a key-wait instruction is down, a step moves
/// the program counter past the instruction and changes nothing else.
pub proof fn lemma_key_wait_advances(pre: State, post: State, x: u8, op: u16)
    requires
        spec_parse(op) == (Instr::WaitKey { x }),
        spec_fetch(pre) == op,
        fetch_ok(pre),
        x < crate::NUM_REGISTERS,
        pre.regs.len() == crate::NUM_REGISTERS,
        pre.regs[x as int] < crate::NUM_KEYS,
        pre.keys[pre.regs[x as int] as int],
        step_ok(advanced(pre), post, op),
    ensures
        post == advanced(pre),
{
}

} // verus!
