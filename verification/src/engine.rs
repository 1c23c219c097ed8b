//! The execution engine: the state-transition function of the machine.
//! A flow-control instruction sets the program counter verbatim; a
//! regular or unknown instruction is executed first and the program
//! counter then advances by 2 unconditionally, so a conditional skip
//! realizes a net advance of 4 by adding 2 itself. Only a fixed subset
//! of the regular shapes changes state beyond that advance; every other
//! shape is a documented no-op.

use crate::display::{draw_sprite, draw_sprite_spec};
use crate::machine::{pop, push, replace, Chip8, EmuError, MachineModel};
use crate::opcode::{
    decode_spec, flow_opcode_wf, opcode_wf, parse_opcode, regular_opcode_wf, FlowControlOpcode,
    MetaOpcode, RegularOpcode,
};
use vstd::prelude::*;

verus! {

/// `n` reduced to 16 bits, as wraparound addition leaves it.
pub open spec fn wrap16(n: int) -> u16 {
    (n % 0x10000) as u16
}

/// `n` reduced to 8 bits, as wraparound addition leaves it.
pub open spec fn wrap8(n: int) -> u8 {
    (n % 0x100) as u8
}

/// 16-bit addition with wraparound.
fn wrap_add16(a: u16, b: u16) -> (r: u16)
    ensures
        r == wrap16(a + b),
{
    ((a as u32 + b as u32) % 0x10000) as u16
}

/// 8-bit addition with wraparound.
fn wrap_add8(a: u8, b: u8) -> (r: u8)
    ensures
        r == wrap8(a + b),
{
    ((a as u16 + b as u16) % 0x100) as u8
}

/// The unconditional advance past an executed regular or unknown
/// instruction: the program counter moves 2 bytes on.
pub open spec fn advance(m: MachineModel) -> MachineModel {
    MachineModel { program_counter: wrap16(m.program_counter + 2), ..m }
}

/// What executing a flow-control instruction yields: the program counter
/// is replaced verbatim, with no advance afterwards. `Return` on an
/// empty stack is the one failure.
pub open spec fn execute_flow_spec(m: MachineModel, op: FlowControlOpcode) -> Result<
    MachineModel,
    EmuError,
> {
    match op {
        FlowControlOpcode::Jump { addr } => Ok(MachineModel { program_counter: addr, ..m }),
        FlowControlOpcode::JumpPlusV0 { addr } => Ok(
            MachineModel { program_counter: wrap16(addr + m.v[0]), ..m },
        ),
        FlowControlOpcode::Call { addr } => Ok(
            MachineModel {
                program_counter: addr,
                stack: m.stack.push(m.program_counter),
                ..m
            },
        ),
        FlowControlOpcode::Return => if m.stack.len() == 0 {
            Err(EmuError::StackUnderflow)
        } else {
            Ok(MachineModel { program_counter: m.stack.last(), stack: m.stack.drop_last(), ..m })
        },
    }
}

/// What executing a regular instruction yields, before the engine's
/// unconditional advance. Only the shapes matched here change state;
/// every other shape, `SysCall` among them, is a deliberate no-op.
/// A sprite read past the end of memory is the one failure.
pub open spec fn execute_regular_spec(m: MachineModel, op: RegularOpcode) -> Result<
    MachineModel,
    EmuError,
> {
    match op {
        RegularOpcode::LoadValToReg { x, value } => Ok(
            MachineModel { v: m.v.update(x as int, value), ..m },
        ),
        RegularOpcode::LoadValToI { value } => Ok(MachineModel { reg_i: value, ..m }),
        RegularOpcode::LoadRandomAndValToReg { x, value } => Ok(
            MachineModel {
                v: m.v.update(x as int, (if m.rng { 1u8 } else { 0u8 }) & value),
                rng: !m.rng,
                ..m
            },
        ),
        RegularOpcode::AddValToReg { x, value } => Ok(
            MachineModel { v: m.v.update(x as int, wrap8(m.v[x as int] + value)), ..m },
        ),
        RegularOpcode::SkipIfRegValEqual { x, value } => if m.v[x as int] == value {
            Ok(MachineModel { program_counter: wrap16(m.program_counter + 2), ..m })
        } else {
            Ok(m)
        },
        RegularOpcode::DrawSprite { x, y, n } => if m.reg_i + n > m.memory.len() {
            Err(EmuError::OutOfBounds)
        } else {
            let drawn: (Seq<bool>, bool) = draw_sprite_spec(
                m.display_memory,
                m.memory.subrange(m.reg_i as int, m.reg_i + n),
                m.v[x as int] as int,
                m.v[y as int] as int,
            );
            Ok(
                MachineModel {
                    display_memory: drawn.0,
                    v: m.v.update(0xF, if drawn.1 { 1u8 } else { 0u8 }),
                    ..m
                },
            )
        },
        _ => Ok(m),
    }
}

/// What one executed instruction yields: the transition table of the
/// engine, advance policy included.
pub open spec fn execute_spec(m: MachineModel, instruction: MetaOpcode) -> Result<
    MachineModel,
    EmuError,
> {
    match instruction {
        MetaOpcode::FlowControl(op) => execute_flow_spec(m, op),
        MetaOpcode::Regular(op) => match execute_regular_spec(m, op) {
            Ok(stepped) => Ok(advance(stepped)),
            Err(e) => Err(e),
        },
        MetaOpcode::Unknown(_) => Ok(advance(m)),
    }
}

/// The 16-bit word two consecutive memory bytes spell, big-endian.
pub open spec fn word_spec(hi: u8, lo: u8) -> u16 {
    ((hi as u16) << 8) | (lo as u16)
}

/// The instruction word at the program counter.
pub open spec fn fetch_spec(m: MachineModel) -> u16 {
    word_spec(m.memory[m.program_counter as int], m.memory[m.program_counter + 1])
}

/// What one whole step yields: fetch, decode, execute. A program counter
/// without two in-bounds bytes ahead of it fails the fetch.
pub open spec fn step_spec(m: MachineModel) -> Result<MachineModel, EmuError> {
    if m.program_counter + 1 >= m.memory.len() {
        Err(EmuError::OutOfBounds)
    } else {
        execute_spec(m, decode_spec(fetch_spec(m)))
    }
}

/// The executable outcome carries exactly the model outcome: the same
/// state on success, the same error on failure.
pub open spec fn result_models(r: Result<Chip8, EmuError>, s: Result<MachineModel, EmuError>) -> bool {
    match (r, s) {
        (Ok(c), Ok(m)) => c@ == m,
        (Err(e1), Err(e2)) => e1 == e2,
        _ => false,
    }
}

/// Executes one flow-control instruction.
fn execute_flow(chip8: Chip8, op: FlowControlOpcode) -> (r: Result<Chip8, EmuError>)
    requires
        chip8.wf(),
        flow_opcode_wf(op),
    ensures
        result_models(r, execute_spec(chip8@, MetaOpcode::FlowControl(op))),
        r matches Ok(c) ==> c.wf(),
{
    match op {
        FlowControlOpcode::Jump { addr } => Ok(Chip8 { program_counter: addr, ..chip8 }),
        FlowControlOpcode::JumpPlusV0 { addr } => {
            let target = wrap_add16(addr, chip8.v[0] as u16);
            Ok(Chip8 { program_counter: target, ..chip8 })
        },
        FlowControlOpcode::Call { addr } => Ok(
            Chip8 {
                stack: push(chip8.stack, chip8.program_counter),
                program_counter: addr,
                ..chip8
            },
        ),
        FlowControlOpcode::Return => {
            if chip8.stack.len() == 0 {
                return Err(EmuError::StackUnderflow);
            }
            let (new_stack, target) = pop(chip8.stack);
            Ok(Chip8 { program_counter: target, stack: new_stack, ..chip8 })
        },
    }
}

/// Executes one regular instruction and then advances the program
/// counter by 2.
fn execute_regular(chip8: Chip8, op: RegularOpcode) -> (r: Result<Chip8, EmuError>)
    requires
        chip8.wf(),
        regular_opcode_wf(op),
    ensures
        result_models(r, execute_spec(chip8@, MetaOpcode::Regular(op))),
        r matches Ok(c) ==> c.wf(),
{
    let stepped: Chip8 = match op {
        RegularOpcode::LoadValToReg { x, value } => Chip8 {
            v: replace(&chip8.v, x, value),
            ..chip8
        },
        RegularOpcode::LoadValToI { value } => Chip8 { reg_i: value, ..chip8 },
        RegularOpcode::LoadRandomAndValToReg { x, value } => Chip8 {
            v: replace(&chip8.v, x, (if chip8.rng { 1u8 } else { 0u8 }) & value),
            rng: !chip8.rng,
            ..chip8
        },
        RegularOpcode::AddValToReg { x, value } => {
            let sum = wrap_add8(chip8.v[x as usize], value);
            Chip8 { v: replace(&chip8.v, x, sum), ..chip8 }
        },
        RegularOpcode::SkipIfRegValEqual { x, value } => {
            if chip8.v[x as usize] == value {
                Chip8 { program_counter: wrap_add16(chip8.program_counter, 2), ..chip8 }
            } else {
                chip8
            }
        },
        RegularOpcode::DrawSprite { x, y, n } => {
            if chip8.reg_i as usize + n as usize > chip8.memory.len() {
                return Err(EmuError::OutOfBounds);
            }
            let (dm, collision) = draw_sprite(
                &chip8.display_memory,
                &chip8.memory,
                chip8.reg_i,
                n,
                chip8.v[x as usize],
                chip8.v[y as usize],
            );
            Chip8 {
                display_memory: dm,
                v: replace(&chip8.v, 0xF, if collision { 1 } else { 0 }),
                ..chip8
            }
        },
        _ => chip8,
    };
    Ok(Chip8 { program_counter: wrap_add16(stepped.program_counter, 2), ..stepped })
}

/// Applies one decoded instruction to a machine state and returns the
/// next state, or the error that stopped the step.
pub fn execute(chip8: Chip8, instruction: MetaOpcode) -> (r: Result<Chip8, EmuError>)
    requires
        chip8.wf(),
        opcode_wf(instruction),
    ensures
        result_models(r, execute_spec(chip8@, instruction)),
        r matches Ok(c) ==> c.wf(),
{
    match instruction {
        MetaOpcode::FlowControl(op) => execute_flow(chip8, op),
        MetaOpcode::Regular(op) => execute_regular(chip8, op),
        MetaOpcode::Unknown(_) => Ok(
            Chip8 { program_counter: wrap_add16(chip8.program_counter, 2), ..chip8 },
        ),
    }
}

/// One full machine step: fetches the big-endian word at the program
/// counter, decodes it, and executes it.
pub fn step(chip8: Chip8) -> (r: Result<Chip8, EmuError>)
    requires
        chip8.wf(),
    ensures
        result_models(r, step_spec(chip8@)),
        r matches Ok(c) ==> c.wf(),
{
    if chip8.program_counter as usize + 1 >= chip8.memory.len() {
        return Err(EmuError::OutOfBounds);
    }
    let hi = chip8.memory[chip8.program_counter as usize];
    let lo = chip8.memory[chip8.program_counter as usize + 1];
    let raw: u16 = ((hi as u16) << 8) | (lo as u16);
    let instruction = parse_opcode(raw);
    execute(chip8, instruction)
}

} // verus!
