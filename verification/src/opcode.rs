//! The instruction decoder: a total, pure classification of every 16-bit
//! word into a flow-control instruction, a regular instruction, or the
//! unknown fallback. Decoding goes nibble by nibble: the first nibble
//! selects the family, the remaining nibbles disambiguate within the
//! families 0, 8, E and F, and exact patterns win over a family's
//! generic fallback.

use vstd::prelude::*;

verus! {

/// A decoded instruction word.
#[derive(Clone, Copy, Debug, PartialEq, Eq, Structural)]
pub enum MetaOpcode {
    /// Sets the program counter verbatim; the engine adds nothing after it.
    FlowControl(FlowControlOpcode),
    /// Executed first; the engine then advances the program counter by 2.
    Regular(RegularOpcode),
    /// Any bit pattern that matches no known shape, kept verbatim.
    /// Not an error: the engine executes it as a no-op that still
    /// advances the program counter.
    Unknown(u16),
}

/// The instructions that replace the program counter outright.
#[derive(Clone, Copy, Debug, PartialEq, Eq, Structural)]
pub enum FlowControlOpcode {
    Jump { addr: u16 },
    JumpPlusV0 { addr: u16 },
    Call { addr: u16 },
    Return,
}

/// The instruction shapes that are followed by the usual advance by 2.
/// Each carries only the operand fields it needs: register indices `x`
/// and `y`, an immediate byte `value`, a 12-bit address in `value` for
/// `LoadValToI`, or a nibble count `n`.
#[derive(Clone, Copy, Debug, PartialEq, Eq, Structural)]
pub enum RegularOpcode {
    SysCall,
    SkipIfRegValEqual { x: u8, value: u8 },
    SkipIfRegValNotEqual { x: u8, value: u8 },
    SkipIfRegRegEqual { x: u8, y: u8 },
    SkipIfRegRegNotEqual { x: u8, y: u8 },
    SkipIfKeyPressed { x: u8 },
    SkipIfKeyNotPressed { x: u8 },
    LoadValToReg { x: u8, value: u8 },
    LoadRegToReg { x: u8, y: u8 },
    LoadDelayTimerToReg { x: u8 },
    LoadKeyToReg { x: u8 },
    LoadRegToDelayTimer { x: u8 },
    LoadRegToSoundTimer { x: u8 },
    LoadValToI { value: u16 },
    LoadSpriteLocationToI { x: u8 },
    LoadRegBcdToMem { x: u8 },
    LoadRegsToMem { n: u8 },
    LoadMemToRegs { n: u8 },
    LoadRandomAndValToReg { x: u8, value: u8 },
    SubRegFromReg { x: u8, y: u8 },
    SubnRegFromReg { x: u8, y: u8 },
    AddValToReg { x: u8, value: u8 },
    AddRegToI { x: u8 },
    OrRegReg { x: u8, y: u8 },
    AndRegReg { x: u8, y: u8 },
    XorRegReg { x: u8, y: u8 },
    AddRegToReg { x: u8, y: u8 },
    ShiftRightReg { x: u8 },
    ShiftLeftReg { x: u8 },
    ClearScreen,
    DrawSprite { x: u8, y: u8, n: u8 },
}

/// What `parse_opcode` returns for every 16-bit word: the decoding table,
/// one row per instruction shape.
pub open spec fn decode_spec(w: u16) -> MetaOpcode {
    let a: u16 = 0x000F & (w >> 12);
    let b: u16 = 0x000F & (w >> 8);
    let c: u16 = 0x000F & (w >> 4);
    let d: u16 = 0x000F & w;
    let nnn: u16 = 0x0FFF & w;
    let kk: u8 = (0x00FF & w) as u8;
    match (a, b, c, d) {
        (0, 0, 0xE, 0) => MetaOpcode::Regular(RegularOpcode::ClearScreen),
        (0, 0, 0xE, 0xE) => MetaOpcode::FlowControl(FlowControlOpcode::Return),
        (0, _, _, _) => MetaOpcode::Regular(RegularOpcode::SysCall),
        (1, _, _, _) => MetaOpcode::FlowControl(FlowControlOpcode::Jump { addr: nnn }),
        (2, _, _, _) => MetaOpcode::FlowControl(FlowControlOpcode::Call { addr: nnn }),
        (3, x, _, _) => MetaOpcode::Regular(
            RegularOpcode::SkipIfRegValEqual { x: x as u8, value: kk },
        ),
        (4, x, _, _) => MetaOpcode::Regular(
            RegularOpcode::SkipIfRegValNotEqual { x: x as u8, value: kk },
        ),
        (5, x, y, 0) => MetaOpcode::Regular(
            RegularOpcode::SkipIfRegRegEqual { x: x as u8, y: y as u8 },
        ),
        (6, x, _, _) => MetaOpcode::Regular(RegularOpcode::LoadValToReg { x: x as u8, value: kk }),
        (7, x, _, _) => MetaOpcode::Regular(RegularOpcode::AddValToReg { x: x as u8, value: kk }),
        (8, x, y, 0) => MetaOpcode::Regular(RegularOpcode::LoadRegToReg { x: x as u8, y: y as u8 }),
        (8, x, y, 1) => MetaOpcode::Regular(RegularOpcode::OrRegReg { x: x as u8, y: y as u8 }),
        (8, x, y, 2) => MetaOpcode::Regular(RegularOpcode::AndRegReg { x: x as u8, y: y as u8 }),
        (8, x, y, 3) => MetaOpcode::Regular(RegularOpcode::XorRegReg { x: x as u8, y: y as u8 }),
        (8, x, y, 4) => MetaOpcode::Regular(RegularOpcode::AddRegToReg { x: x as u8, y: y as u8 }),
        (8, x, y, 5) => MetaOpcode::Regular(
            RegularOpcode::SubRegFromReg { x: x as u8, y: y as u8 },
        ),
        (8, x, _, 6) => MetaOpcode::Regular(RegularOpcode::ShiftLeftReg { x: x as u8 }),
        (8, x, y, 7) => MetaOpcode::Regular(
            RegularOpcode::SubnRegFromReg { x: x as u8, y: y as u8 },
        ),
        (8, x, _, 0xE) => MetaOpcode::Regular(RegularOpcode::ShiftRightReg { x: x as u8 }),
        (9, x, y, 0) => MetaOpcode::Regular(
            RegularOpcode::SkipIfRegRegNotEqual { x: x as u8, y: y as u8 },
        ),
        (0xA, _, _, _) => MetaOpcode::Regular(RegularOpcode::LoadValToI { value: nnn }),
        (0xB, _, _, _) => MetaOpcode::FlowControl(FlowControlOpcode::JumpPlusV0 { addr: nnn }),
        (0xC, x, _, _) => MetaOpcode::Regular(
            RegularOpcode::LoadRandomAndValToReg { x: x as u8, value: kk },
        ),
        (0xD, x, y, n) => MetaOpcode::Regular(
            RegularOpcode::DrawSprite { x: x as u8, y: y as u8, n: n as u8 },
        ),
        (0xE, x, 9, 0xE) => MetaOpcode::Regular(RegularOpcode::SkipIfKeyPressed { x: x as u8 }),
        (0xE, x, 0xA, 1) => MetaOpcode::Regular(RegularOpcode::SkipIfKeyNotPressed { x: x as u8 }),
        (0xF, x, 0, 7) => MetaOpcode::Regular(RegularOpcode::LoadDelayTimerToReg { x: x as u8 }),
        (0xF, x, 0, 0xA) => MetaOpcode::Regular(RegularOpcode::LoadKeyToReg { x: x as u8 }),
        (0xF, x, 1, 5) => MetaOpcode::Regular(RegularOpcode::LoadRegToDelayTimer { x: x as u8 }),
        (0xF, x, 1, 8) => MetaOpcode::Regular(RegularOpcode::LoadRegToSoundTimer { x: x as u8 }),
        (0xF, x, 1, 0xE) => MetaOpcode::Regular(RegularOpcode::AddRegToI { x: x as u8 }),
        (0xF, x, 2, 9) => MetaOpcode::Regular(RegularOpcode::LoadSpriteLocationToI { x: x as u8 }),
        (0xF, x, 3, 3) => MetaOpcode::Regular(RegularOpcode::LoadRegBcdToMem { x: x as u8 }),
        (0xF, n, 5, 5) => MetaOpcode::Regular(RegularOpcode::LoadRegsToMem { n: n as u8 }),
        (0xF, n, 6, 5) => MetaOpcode::Regular(RegularOpcode::LoadMemToRegs { n: n as u8 }),
        (_, _, _, _) => MetaOpcode::Unknown(w),
    }
}

/// Operand fields lie in their architectural ranges: register indices and
/// nibble counts below 16, addresses below 4096.
pub open spec fn flow_opcode_wf(op: FlowControlOpcode) -> bool {
    match op {
        FlowControlOpcode::Jump { addr } => addr < 4096,
        FlowControlOpcode::JumpPlusV0 { addr } => addr < 4096,
        FlowControlOpcode::Call { addr } => addr < 4096,
        FlowControlOpcode::Return => true,
    }
}

/// Operand fields lie in their architectural ranges: register indices and
/// nibble counts below 16.
pub open spec fn regular_opcode_wf(op: RegularOpcode) -> bool {
    match op {
        RegularOpcode::SysCall => true,
        RegularOpcode::SkipIfRegValEqual { x, .. } => x < 16,
        RegularOpcode::SkipIfRegValNotEqual { x, .. } => x < 16,
        RegularOpcode::SkipIfRegRegEqual { x, y } => x < 16 && y < 16,
        RegularOpcode::SkipIfRegRegNotEqual { x, y } => x < 16 && y < 16,
        RegularOpcode::SkipIfKeyPressed { x } => x < 16,
        RegularOpcode::SkipIfKeyNotPressed { x } => x < 16,
        RegularOpcode::LoadValToReg { x, .. } => x < 16,
        RegularOpcode::LoadRegToReg { x, y } => x < 16 && y < 16,
        RegularOpcode::LoadDelayTimerToReg { x } => x < 16,
        RegularOpcode::LoadKeyToReg { x } => x < 16,
        RegularOpcode::LoadRegToDelayTimer { x } => x < 16,
        RegularOpcode::LoadRegToSoundTimer { x } => x < 16,
        RegularOpcode::LoadValToI { value } => value < 4096,
        RegularOpcode::LoadSpriteLocationToI { x } => x < 16,
        RegularOpcode::LoadRegBcdToMem { x } => x < 16,
        RegularOpcode::LoadRegsToMem { n } => n < 16,
        RegularOpcode::LoadMemToRegs { n } => n < 16,
        RegularOpcode::LoadRandomAndValToReg { x, .. } => x < 16,
        RegularOpcode::SubRegFromReg { x, y } => x < 16 && y < 16,
        RegularOpcode::SubnRegFromReg { x, y } => x < 16 && y < 16,
        RegularOpcode::AddValToReg { x, .. } => x < 16,
        RegularOpcode::AddRegToI { x } => x < 16,
        RegularOpcode::OrRegReg { x, y } => x < 16 && y < 16,
        RegularOpcode::AndRegReg { x, y } => x < 16 && y < 16,
        RegularOpcode::XorRegReg { x, y } => x < 16 && y < 16,
        RegularOpcode::AddRegToReg { x, y } => x < 16 && y < 16,
        RegularOpcode::ShiftRightReg { x } => x < 16,
        RegularOpcode::ShiftLeftReg { x } => x < 16,
        RegularOpcode::ClearScreen => true,
        RegularOpcode::DrawSprite { x, y, n } => x < 16 && y < 16 && n < 16,
    }
}

/// See `flow_opcode_wf` and `regular_opcode_wf`; an unknown word carries
/// no operand fields.
pub open spec fn opcode_wf(op: MetaOpcode) -> bool {
    match op {
        MetaOpcode::FlowControl(f) => flow_opcode_wf(f),
        MetaOpcode::Regular(r) => regular_opcode_wf(r),
        MetaOpcode::Unknown(_) => true,
    }
}

/// Decodes one 16-bit word. Total and pure: every word maps to exactly
/// the row of `decode_spec`, with `Unknown` as the fallback, and the
/// operand fields always lie in their architectural ranges.
pub fn parse_opcode(opcode: u16) -> (r: MetaOpcode)
    ensures
        r == decode_spec(opcode),
        opcode_wf(r),
{
    proof {
        assert(0x000Fu16 & (opcode >> 12) < 16) by (bit_vector);
        assert(0x000Fu16 & (opcode >> 8) < 16) by (bit_vector);
        assert(0x000Fu16 & (opcode >> 4) < 16) by (bit_vector);
        assert(0x000Fu16 & opcode < 16) by (bit_vector);
        assert(0x0FFFu16 & opcode < 4096) by (bit_vector);
    }
    let a: u16 = 0x000F & (opcode >> 12);
    let b: u16 = 0x000F & (opcode >> 8);
    let c: u16 = 0x000F & (opcode >> 4);
    let d: u16 = 0x000F & opcode;
    let nnn: u16 = 0x0FFF & opcode;
    let kk: u8 = (0x00FF & opcode) as u8;
    match (a, b, c, d) {
        (0, 0, 0xE, 0) => MetaOpcode::Regular(RegularOpcode::ClearScreen),
        (0, 0, 0xE, 0xE) => MetaOpcode::FlowControl(FlowControlOpcode::Return),
        (0, _, _, _) => MetaOpcode::Regular(RegularOpcode::SysCall),
        (1, _, _, _) => MetaOpcode::FlowControl(FlowControlOpcode::Jump { addr: nnn }),
        (2, _, _, _) => MetaOpcode::FlowControl(FlowControlOpcode::Call { addr: nnn }),
        (3, x, _, _) => MetaOpcode::Regular(
            RegularOpcode::SkipIfRegValEqual { x: x as u8, value: kk },
        ),
        (4, x, _, _) => MetaOpcode::Regular(
            RegularOpcode::SkipIfRegValNotEqual { x: x as u8, value: kk },
        ),
        (5, x, y, 0) => MetaOpcode::Regular(
            RegularOpcode::SkipIfRegRegEqual { x: x as u8, y: y as u8 },
        ),
        (6, x, _, _) => MetaOpcode::Regular(RegularOpcode::LoadValToReg { x: x as u8, value: kk }),
        (7, x, _, _) => MetaOpcode::Regular(RegularOpcode::AddValToReg { x: x as u8, value: kk }),
        (8, x, y, 0) => MetaOpcode::Regular(RegularOpcode::LoadRegToReg { x: x as u8, y: y as u8 }),
        (8, x, y, 1) => MetaOpcode::Regular(RegularOpcode::OrRegReg { x: x as u8, y: y as u8 }),
        (8, x, y, 2) => MetaOpcode::Regular(RegularOpcode::AndRegReg { x: x as u8, y: y as u8 }),
        (8, x, y, 3) => MetaOpcode::Regular(RegularOpcode::XorRegReg { x: x as u8, y: y as u8 }),
        (8, x, y, 4) => MetaOpcode::Regular(RegularOpcode::AddRegToReg { x: x as u8, y: y as u8 }),
        (8, x, y, 5) => MetaOpcode::Regular(
            RegularOpcode::SubRegFromReg { x: x as u8, y: y as u8 },
        ),
        (8, x, _, 6) => MetaOpcode::Regular(RegularOpcode::ShiftLeftReg { x: x as u8 }),
        (8, x, y, 7) => MetaOpcode::Regular(
            RegularOpcode::SubnRegFromReg { x: x as u8, y: y as u8 },
        ),
        (8, x, _, 0xE) => MetaOpcode::Regular(RegularOpcode::ShiftRightReg { x: x as u8 }),
        (9, x, y, 0) => MetaOpcode::Regular(
            RegularOpcode::SkipIfRegRegNotEqual { x: x as u8, y: y as u8 },
        ),
        (0xA, _, _, _) => MetaOpcode::Regular(RegularOpcode::LoadValToI { value: nnn }),
        (0xB, _, _, _) => MetaOpcode::FlowControl(FlowControlOpcode::JumpPlusV0 { addr: nnn }),
        (0xC, x, _, _) => MetaOpcode::Regular(
            RegularOpcode::LoadRandomAndValToReg { x: x as u8, value: kk },
        ),
        (0xD, x, y, n) => MetaOpcode::Regular(
            RegularOpcode::DrawSprite { x: x as u8, y: y as u8, n: n as u8 },
        ),
        (0xE, x, 9, 0xE) => MetaOpcode::Regular(RegularOpcode::SkipIfKeyPressed { x: x as u8 }),
        (0xE, x, 0xA, 1) => MetaOpcode::Regular(RegularOpcode::SkipIfKeyNotPressed { x: x as u8 }),
        (0xF, x, 0, 7) => MetaOpcode::Regular(RegularOpcode::LoadDelayTimerToReg { x: x as u8 }),
        (0xF, x, 0, 0xA) => MetaOpcode::Regular(RegularOpcode::LoadKeyToReg { x: x as u8 }),
        (0xF, x, 1, 5) => MetaOpcode::Regular(RegularOpcode::LoadRegToDelayTimer { x: x as u8 }),
        (0xF, x, 1, 8) => MetaOpcode::Regular(RegularOpcode::LoadRegToSoundTimer { x: x as u8 }),
        (0xF, x, 1, 0xE) => MetaOpcode::Regular(RegularOpcode::AddRegToI { x: x as u8 }),
        (0xF, x, 2, 9) => MetaOpcode::Regular(RegularOpcode::LoadSpriteLocationToI { x: x as u8 }),
        (0xF, x, 3, 3) => MetaOpcode::Regular(RegularOpcode::LoadRegBcdToMem { x: x as u8 }),
        (0xF, n, 5, 5) => MetaOpcode::Regular(RegularOpcode::LoadRegsToMem { n: n as u8 }),
        (0xF, n, 6, 5) => MetaOpcode::Regular(RegularOpcode::LoadMemToRegs { n: n as u8 }),
        (_, _, _, _) => MetaOpcode::Unknown(opcode),
    }
}

} // verus!
