//! Laws of the engine, stated over the transition table `execute_spec`
//! and proved for every machine state the statement admits.

use crate::engine::execute_spec;
use crate::machine::{EmuError, MachineModel};
use crate::opcode::{FlowControlOpcode, MetaOpcode, RegularOpcode};
use vstd::prelude::*;

verus! {

/// A jump sets the program counter to its target exactly: no advance is
/// added afterwards, and nothing else of the state changes.
pub proof fn lemma_jump_sets_pc(m: MachineModel, addr: u16)
    ensures
        execute_spec(m, MetaOpcode::FlowControl(FlowControlOpcode::Jump { addr }))
            == Ok::<MachineModel, EmuError>((MachineModel { program_counter: addr, ..m })),
{
}

/// A call followed by a return restores the whole state: the program
/// counter is back at its pre-call value and the stack is unchanged net.
pub proof fn lemma_call_then_return(m: MachineModel, addr: u16)
    ensures
        ({
            let called = execute_spec(m, MetaOpcode::FlowControl(FlowControlOpcode::Call { addr }));
            &&& called matches Ok(c)
            &&& execute_spec(c, MetaOpcode::FlowControl(FlowControlOpcode::Return))
                == Ok::<MachineModel, EmuError>(m)
        }),
{
    let called = execute_spec(m, MetaOpcode::FlowControl(FlowControlOpcode::Call { addr }));
    let c = called->Ok_0;
    assert(c.stack.last() == m.program_counter);
    assert(c.stack.drop_last() =~= m.stack);
    let returned = execute_spec(c, MetaOpcode::FlowControl(FlowControlOpcode::Return));
    assert(returned->Ok_0 == m);
}

/// A skip-if-equal advances the program counter by 4 net when the
/// register holds the immediate, and by 2 net when it does not; nothing
/// else of the state changes. The bound on the program counter keeps the
/// advance clear of the 16-bit wraparound; every state whose instruction
/// was fetched from two in-bounds memory bytes satisfies it.
pub proof fn lemma_skip_if_reg_val_equal(m: MachineModel, x: u8, value: u8)
    requires
        x < 16,
        m.program_counter + 4 < 0x10000,
    ensures
        execute_spec(m, MetaOpcode::Regular(RegularOpcode::SkipIfRegValEqual { x, value }))
            == Ok::<MachineModel, EmuError>(
            (MachineModel {
                program_counter: (if m.v[x as int] == value {
                    (m.program_counter + 4) as u16
                } else {
                    (m.program_counter + 2) as u16
                }),
                ..m
            }),
        ),
{
}

/// Two successive draws of the random-and-mask instruction with the same
/// single-bit mask alternate the register between the mask and zero, in
/// the order the cursor dictates, and leave the cursor where it began:
/// the sequence is a deterministic toggle, not a random source. The mask
/// is confined to its low bit because the instruction ANDs the cursor's
/// 0-or-1 value with it, so only that bit can ever reach the register.
pub proof fn lemma_random_and_val_toggles(m: MachineModel, x: u8, value: u8)
    requires
        x < 16,
        m.v.len() == 16,
        value & 1 == value,
    ensures
        ({
            let op = MetaOpcode::Regular(RegularOpcode::LoadRandomAndValToReg { x, value });
            let first = execute_spec(m, op);
            &&& first matches Ok(m1)
            &&& execute_spec(m1, op) matches Ok(m2)
            &&& m1.v[x as int] == (if m.rng { value } else { 0u8 })
            &&& m2.v[x as int] == (if m.rng { 0u8 } else { value })
            &&& m2.rng == m.rng
        }),
{
    assert(value & 1 == value ==> 1u8 & value == value) by (bit_vector);
    assert(0u8 & value == 0u8) by (bit_vector);
}

} // verus!
