use chip8_core::display::{byte_to_bits, draw_sprite};
use chip8_core::engine::execute;
use chip8_core::machine::init;
use chip8_core::opcode::{MetaOpcode, RegularOpcode};

#[test]
fn byte_to_bits_is_most_significant_first() {
    assert_eq!(
        byte_to_bits(&0xA5),
        vec![true, false, true, false, false, true, false, true]
    );
    assert_eq!(byte_to_bits(&0x00), vec![false; 8]);
    assert_eq!(byte_to_bits(&0xFF), vec![true; 8]);
    assert_eq!(
        byte_to_bits(&0x80),
        vec![true, false, false, false, false, false, false, false]
    );
    assert_eq!(
        byte_to_bits(&0x01),
        vec![false, false, false, false, false, false, false, true]
    );
}

#[test]
fn draw_wraps_horizontally_and_reports_no_collision_on_blank() {
    let mut c = init();
    c.memory[0x200] = 0xFF;
    c.reg_i = 0x200;
    c.v[0] = 60;
    c.v[1] = 0;
    let c = execute(
        c,
        MetaOpcode::Regular(RegularOpcode::DrawSprite { x: 0, y: 1, n: 1 }),
    )
    .expect("draw should succeed");
    let lit: Vec<usize> = (0..2048).filter(|&i| c.display_memory[i]).collect();
    assert_eq!(lit, vec![0, 1, 2, 3, 60, 61, 62, 63]);
    assert_eq!(c.v[0xF], 0);
    assert_eq!(c.program_counter, 514);
}

#[test]
fn redrawing_the_same_sprite_clears_it_and_reports_collision() {
    let mut c = init();
    c.memory[0x200] = 0xFF;
    c.reg_i = 0x200;
    c.v[0] = 60;
    c.v[1] = 0;
    let op = MetaOpcode::Regular(RegularOpcode::DrawSprite { x: 0, y: 1, n: 1 });
    let once = execute(c, op).expect("first draw should succeed");
    let twice = execute(once, op).expect("second draw should succeed");
    assert!(twice.display_memory.iter().all(|&p| !p));
    assert_eq!(twice.v[0xF], 1);
}

#[test]
fn draw_wraps_vertically() {
    let mut c = init();
    c.memory[0x200] = 0x80;
    c.memory[0x201] = 0x80;
    c.reg_i = 0x200;
    c.v[4] = 0;
    c.v[5] = 31;
    let c = execute(
        c,
        MetaOpcode::Regular(RegularOpcode::DrawSprite { x: 4, y: 5, n: 2 }),
    )
    .expect("draw should succeed");
    assert!(c.display_memory[31 * 64]);
    assert!(c.display_memory[0]);
    assert_eq!(c.v[0xF], 0);
}

#[test]
fn collision_set_by_one_pixel_stays_set() {
    let mut c = init();
    c.memory[0x200] = 0xC0;
    c.reg_i = 0x200;
    c.v[0] = 0;
    c.v[1] = 0;
    c.display_memory[0] = true;
    let c = execute(
        c,
        MetaOpcode::Regular(RegularOpcode::DrawSprite { x: 0, y: 1, n: 1 }),
    )
    .expect("draw should succeed");
    assert!(!c.display_memory[0]);
    assert!(c.display_memory[1]);
    assert_eq!(c.v[0xF], 1);
}

#[test]
fn draw_sprite_alone_returns_framebuffer_and_flag() {
    let display = vec![false; 2048];
    let mut memory = vec![0u8; 4096];
    memory[0] = 0x81;
    let (drawn, collision) = draw_sprite(&display, &memory, 0, 1, 8, 2);
    assert!(!collision);
    assert!(drawn[2 * 64 + 8]);
    assert!(drawn[2 * 64 + 15]);
    assert_eq!(drawn.iter().filter(|&&p| p).count(), 2);
    let (cleared, collided) = draw_sprite(&drawn, &memory, 0, 1, 8, 2);
    assert!(collided);
    assert!(cleared.iter().all(|&p| !p));
}

#[test]
fn draw_with_zero_rows_changes_nothing() {
    let mut c = init();
    c.reg_i = 0x200;
    let c = execute(
        c,
        MetaOpcode::Regular(RegularOpcode::DrawSprite { x: 0, y: 1, n: 0 }),
    )
    .expect("draw should succeed");
    assert!(c.display_memory.iter().all(|&p| !p));
    assert_eq!(c.v[0xF], 0);
    assert_eq!(c.program_counter, 514);
}
