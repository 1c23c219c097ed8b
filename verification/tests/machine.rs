use chip8_core::machine::{init, load_rom, pop, push, replace, EmuError};

#[test]
fn init_starts_zeroed_with_pc_at_program_start() {
    let c = init();
    assert_eq!(c.memory, vec![0u8; 4096]);
    assert_eq!(c.program_counter, 512);
    assert_eq!(c.v, vec![0u8; 16]);
    assert_eq!(c.reg_i, 0);
    assert_eq!(c.stack.len(), 0);
    assert_eq!(c.delay_timer, 0);
    assert_eq!(c.sound_timer, 0);
    assert_eq!(c.keyboard, vec![false; 16]);
    assert_eq!(c.display_memory, vec![false; 2048]);
    assert!(!c.rng);
}

#[test]
fn load_rom_copies_bytes_at_program_start() {
    let rom = vec![0x63u8, 0x2A, 0x12, 0x00];
    let c = load_rom(init(), &rom).expect("rom should fit");
    assert_eq!(c.memory.len(), 4096);
    assert_eq!(&c.memory[512..516], &rom[..]);
    assert!(c.memory[..512].iter().all(|&b| b == 0));
    assert!(c.memory[516..].iter().all(|&b| b == 0));
    assert_eq!(c.program_counter, 512);
}

#[test]
fn load_rom_of_largest_size_fits() {
    let rom = vec![0xEEu8; 4096 - 512];
    let c = load_rom(init(), &rom).expect("rom should fit exactly");
    assert_eq!(c.memory.len(), 4096);
    assert_eq!(c.memory[512], 0xEE);
    assert_eq!(c.memory[4095], 0xEE);
}

#[test]
fn load_rom_too_large_is_resource_overflow() {
    let rom = vec![0u8; 4096 - 512 + 1];
    assert_eq!(
        load_rom(init(), &rom).unwrap_err(),
        EmuError::ResourceOverflow
    );
}

#[test]
fn push_appends_one_element() {
    let v = push(vec![1u16, 2], 3);
    assert_eq!(v, vec![1, 2, 3]);
}

#[test]
fn pop_removes_and_returns_the_last_element() {
    let (rest, last) = pop(vec![1u16, 2, 3]);
    assert_eq!(rest, vec![1, 2]);
    assert_eq!(last, 3);
}

#[test]
fn replace_updates_one_index() {
    let v = replace(&vec![10u8, 20, 30], 1, 99);
    assert_eq!(v, vec![10, 99, 30]);
}
