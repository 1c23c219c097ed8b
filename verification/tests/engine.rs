use chip8_core::engine::{execute, step};
use chip8_core::machine::{init, Chip8, EmuError};
use chip8_core::opcode::{FlowControlOpcode, MetaOpcode, RegularOpcode};

fn run(chip8: Chip8, instruction: MetaOpcode) -> Chip8 {
    execute(chip8, instruction).expect("instruction should execute")
}

#[test]
fn jump_sets_pc_exactly() {
    let c = run(
        init(),
        MetaOpcode::FlowControl(FlowControlOpcode::Jump { addr: 0x300 }),
    );
    assert_eq!(c.program_counter, 0x300);
    assert_eq!(c.stack.len(), 0);
}

#[test]
fn jump_plus_v0_adds_register() {
    let mut c = init();
    c.v[0] = 5;
    let c = run(
        c,
        MetaOpcode::FlowControl(FlowControlOpcode::JumpPlusV0 { addr: 0x300 }),
    );
    assert_eq!(c.program_counter, 0x305);
}

#[test]
fn call_then_return_restores_pc_and_stack() {
    let c = init();
    let before_pc = c.program_counter;
    let before_len = c.stack.len();
    let called = run(
        c,
        MetaOpcode::FlowControl(FlowControlOpcode::Call { addr: 0x300 }),
    );
    assert_eq!(called.program_counter, 0x300);
    assert_eq!(called.stack.len(), before_len + 1);
    let returned = run(called, MetaOpcode::FlowControl(FlowControlOpcode::Return));
    assert_eq!(returned.program_counter, before_pc);
    assert_eq!(returned.stack.len(), before_len);
}

#[test]
fn return_on_empty_stack_is_stack_underflow() {
    let r = execute(init(), MetaOpcode::FlowControl(FlowControlOpcode::Return));
    assert_eq!(r.unwrap_err(), EmuError::StackUnderflow);
}

#[test]
fn load_val_to_reg_and_advance() {
    let c = run(
        init(),
        MetaOpcode::Regular(RegularOpcode::LoadValToReg { x: 5, value: 0xAB }),
    );
    assert_eq!(c.v[5], 0xAB);
    assert_eq!(c.program_counter, 512 + 2);
}

#[test]
fn load_val_to_i() {
    let c = run(
        init(),
        MetaOpcode::Regular(RegularOpcode::LoadValToI { value: 0x123 }),
    );
    assert_eq!(c.reg_i, 0x123);
    assert_eq!(c.program_counter, 514);
}

#[test]
fn add_val_to_reg_wraps_at_eight_bits() {
    let mut c = init();
    c.v[0] = 0xFF;
    let c = run(
        c,
        MetaOpcode::Regular(RegularOpcode::AddValToReg { x: 0, value: 1 }),
    );
    assert_eq!(c.v[0], 0x00);
    assert_eq!(c.program_counter, 514);
}

#[test]
fn add_val_to_reg_plain_sum() {
    let mut c = init();
    c.v[7] = 40;
    let c = run(
        c,
        MetaOpcode::Regular(RegularOpcode::AddValToReg { x: 7, value: 2 }),
    );
    assert_eq!(c.v[7], 42);
}

#[test]
fn sys_call_is_a_no_op_that_advances() {
    let before = init();
    let c = run(before, MetaOpcode::Regular(RegularOpcode::SysCall));
    assert_eq!(c.program_counter, 514);
    assert!(c.v.iter().all(|&r| r == 0));
    assert_eq!(c.reg_i, 0);
}

#[test]
fn unlisted_regular_shapes_are_no_ops_that_advance() {
    let mut c = init();
    c.v[1] = 3;
    c.v[2] = 5;
    let c = run(
        c,
        MetaOpcode::Regular(RegularOpcode::AddRegToReg { x: 1, y: 2 }),
    );
    assert_eq!(c.v[1], 3);
    assert_eq!(c.v[2], 5);
    assert_eq!(c.program_counter, 514);
}

#[test]
fn clear_screen_is_a_no_op_that_advances() {
    let mut c = init();
    c.display_memory[100] = true;
    let c = run(c, MetaOpcode::Regular(RegularOpcode::ClearScreen));
    assert!(c.display_memory[100]);
    assert_eq!(c.program_counter, 514);
}

#[test]
fn unknown_word_is_a_no_op_that_advances() {
    let c = run(init(), MetaOpcode::Unknown(0x5AB1));
    assert_eq!(c.program_counter, 514);
}

#[test]
fn random_and_val_toggles_between_zero_and_low_bit() {
    let op = MetaOpcode::Regular(RegularOpcode::LoadRandomAndValToReg { x: 2, value: 1 });
    let first = run(init(), op);
    assert_eq!(first.v[2], 0);
    assert!(first.rng);
    let second = run(first, op);
    assert_eq!(second.v[2], 1);
    assert!(!second.rng);
    let third = run(second, op);
    assert_eq!(third.v[2], 0);
}

#[test]
fn random_and_val_masks_to_the_low_bit() {
    let mut c = init();
    c.rng = true;
    let odd = run(
        c,
        MetaOpcode::Regular(RegularOpcode::LoadRandomAndValToReg { x: 0, value: 0xAB }),
    );
    assert_eq!(odd.v[0], 1);
    let mut c = init();
    c.rng = true;
    let even = run(
        c,
        MetaOpcode::Regular(RegularOpcode::LoadRandomAndValToReg { x: 0, value: 0xAA }),
    );
    assert_eq!(even.v[0], 0);
}

#[test]
fn skip_if_equal_advances_four_from_prefetch() {
    let mut c = init();
    c.memory[512] = 0x32;
    c.memory[513] = 0x07;
    c.v[2] = 7;
    let c = step(c).expect("step should succeed");
    assert_eq!(c.program_counter, 512 + 4);
}

#[test]
fn skip_if_not_equal_value_advances_two_from_prefetch() {
    let mut c = init();
    c.memory[512] = 0x32;
    c.memory[513] = 0x07;
    c.v[2] = 8;
    let c = step(c).expect("step should succeed");
    assert_eq!(c.program_counter, 512 + 2);
}

#[test]
fn step_fetches_decodes_and_executes() {
    let mut c = init();
    c.memory[512] = 0x63;
    c.memory[513] = 0x2A;
    let c = step(c).expect("step should succeed");
    assert_eq!(c.v[3], 0x2A);
    assert_eq!(c.program_counter, 514);
}

#[test]
fn step_call_then_return_round_trip() {
    let mut c = init();
    c.memory[512] = 0x23;
    c.memory[513] = 0x00;
    c.memory[0x300] = 0x00;
    c.memory[0x301] = 0xEE;
    let called = step(c).expect("call should succeed");
    assert_eq!(called.program_counter, 0x300);
    assert_eq!(called.stack, vec![512]);
    let returned = step(called).expect("return should succeed");
    assert_eq!(returned.program_counter, 512);
    assert_eq!(returned.stack.len(), 0);
}

#[test]
fn step_on_empty_stack_return_is_stack_underflow() {
    let mut c = init();
    c.memory[512] = 0x00;
    c.memory[513] = 0xEE;
    assert_eq!(step(c).unwrap_err(), EmuError::StackUnderflow);
}

#[test]
fn fetch_at_end_of_memory_is_out_of_bounds() {
    let mut c = init();
    c.program_counter = 4095;
    assert_eq!(step(c).unwrap_err(), EmuError::OutOfBounds);
    let mut c = init();
    c.program_counter = 0xFFFF;
    assert_eq!(step(c).unwrap_err(), EmuError::OutOfBounds);
}

#[test]
fn sprite_read_past_memory_is_out_of_bounds() {
    let mut c = init();
    c.reg_i = 4090;
    let r = execute(
        c,
        MetaOpcode::Regular(RegularOpcode::DrawSprite { x: 0, y: 1, n: 10 }),
    );
    assert_eq!(r.unwrap_err(), EmuError::OutOfBounds);
}
