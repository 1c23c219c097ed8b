//! The machine state: memory, registers, stack, timers, keys, framebuffer,
//! and the alternating pseudo-random cursor, together with its mathematical
//! model and the small helpers that rebuild one field of it.

use vstd::prelude::*;

verus! {

/// Number of bytes of machine memory.
pub const MEMORY_SIZE: usize = 4096;

/// First address a program is loaded at; addresses below it are reserved
/// and never written by the engine.
pub const PROGRAM_START: usize = 512;

/// Number of general-purpose 8-bit registers.
pub const REGISTER_COUNT: usize = 16;

/// Number of keys of the keypad.
pub const KEY_COUNT: usize = 16;

/// Width of the screen in pixels.
pub const DISPLAY_WIDTH: usize = 64;

/// Height of the screen in pixels.
pub const DISPLAY_HEIGHT: usize = 32;

/// Number of pixels of the screen, row-major: index = x + 64 * y.
pub const DISPLAY_SIZE: usize = DISPLAY_WIDTH * DISPLAY_HEIGHT;

/// The conditions under which a step cannot complete. A step either
/// finishes atomically or surfaces one of these; no partial state is
/// ever observable.
#[derive(Clone, Copy, Debug, PartialEq, Eq, Structural)]
pub enum EmuError {
    /// `Return` was executed while the call stack was empty.
    StackUnderflow,
    /// A two-byte fetch or a sprite read would pass the end of memory.
    OutOfBounds,
    /// A program image larger than the space past `PROGRAM_START`.
    ResourceOverflow,
}

/// The machine state. One value of this type is threaded through a run;
/// each engine step consumes it and returns the next state.
#[derive(Debug)]
pub struct Chip8 {
    pub memory: Vec<u8>,
    pub program_counter: u16,
    pub v: Vec<u8>,
    pub reg_i: u16,
    pub stack: Vec<u16>,
    pub delay_timer: u8,
    pub sound_timer: u8,
    pub keyboard: Vec<bool>,
    pub display_memory: Vec<bool>,
    pub rng: bool,
}

/// The mathematical value of a machine state, with every container viewed
/// as a sequence. All contracts of the engine speak of this model.
pub ghost struct MachineModel {
    pub memory: Seq<u8>,
    pub program_counter: u16,
    pub v: Seq<u8>,
    pub reg_i: u16,
    pub stack: Seq<u16>,
    pub delay_timer: u8,
    pub sound_timer: u8,
    pub keyboard: Seq<bool>,
    pub display_memory: Seq<bool>,
    pub rng: bool,
}

impl MachineModel {
    /// The fixed shape every machine state keeps: memory, registers, keys
    /// and framebuffer have their architectural lengths. The stack is
    /// deliberately unbounded and the program counter may point anywhere;
    /// an out-of-range fetch is reported by the engine, not excluded here.
    pub open spec fn wf(self) -> bool {
        &&& self.memory.len() == MEMORY_SIZE
        &&& self.v.len() == REGISTER_COUNT
        &&& self.keyboard.len() == KEY_COUNT
        &&& self.display_memory.len() == DISPLAY_SIZE
    }
}

impl View for Chip8 {
    type V = MachineModel;

    open spec fn view(&self) -> MachineModel {
        MachineModel {
            memory: self.memory@,
            program_counter: self.program_counter,
            v: self.v@,
            reg_i: self.reg_i,
            stack: self.stack@,
            delay_timer: self.delay_timer,
            sound_timer: self.sound_timer,
            keyboard: self.keyboard@,
            display_memory: self.display_memory@,
            rng: self.rng,
        }
    }
}

impl Chip8 {
    /// See `MachineModel::wf`.
    pub open spec fn wf(&self) -> bool {
        self@.wf()
    }
}

/// A vector of `len` copies of `value`.
fn filled<T: Copy>(len: usize, value: T) -> (r: Vec<T>)
    ensures
        r@.len() == len,
        forall|i: int| 0 <= i < len ==> r@[i] == value,
{
    let mut r: Vec<T> = Vec::new();
    let mut i: usize = 0;
    while i < len
        invariant
            i <= len,
            r@.len() == i,
            forall|j: int| 0 <= j < i ==> r@[j] == value,
        decreases len - i,
    {
        r.push(value);
        i = i + 1;
    }
    r
}

/// The state a machine starts in: everything zeroed and blank, the
/// program counter at `PROGRAM_START`, the stack empty.
pub open spec fn init_spec() -> MachineModel {
    MachineModel {
        memory: Seq::new(MEMORY_SIZE as nat, |i: int| 0u8),
        program_counter: PROGRAM_START as u16,
        v: Seq::new(REGISTER_COUNT as nat, |i: int| 0u8),
        reg_i: 0,
        stack: Seq::empty(),
        delay_timer: 0,
        sound_timer: 0,
        keyboard: Seq::new(KEY_COUNT as nat, |i: int| false),
        display_memory: Seq::new(DISPLAY_SIZE as nat, |i: int| false),
        rng: false,
    }
}

/// Builds the start-of-run machine state.
pub fn init() -> (r: Chip8)
    ensures
        r@ == init_spec(),
        r.wf(),
{
    let r = Chip8 {
        memory: filled(MEMORY_SIZE, 0u8),
        v: filled(REGISTER_COUNT, 0u8),
        reg_i: 0,
        program_counter: PROGRAM_START as u16,
        stack: Vec::new(),
        delay_timer: 0,
        sound_timer: 0,
        keyboard: filled(KEY_COUNT, false),
        display_memory: filled(DISPLAY_SIZE, false),
        rng: false,
    };
    proof {
        assert(r@.memory =~= init_spec().memory);
        assert(r@.v =~= init_spec().v);
        assert(r@.stack =~= init_spec().stack);
        assert(r@.keyboard =~= init_spec().keyboard);
        assert(r@.display_memory =~= init_spec().display_memory);
    }
    r
}

/// The given vector with `x` appended.
pub fn push<T>(vec: Vec<T>, x: T) -> (r: Vec<T>)
    ensures
        r@ == vec@.push(x),
{
    let mut v = vec;
    v.push(x);
    v
}

/// The given vector without its last element, and that element.
pub fn pop<T>(vec: Vec<T>) -> (r: (Vec<T>, T))
    requires
        vec@.len() > 0,
    ensures
        r.0@ == vec@.drop_last(),
        r.1 == vec@.last(),
{
    let mut v = vec;
    let x = v.pop().unwrap();
    (v, x)
}

/// A copy of the given vector with the element at `i` replaced by `x`.
pub fn replace<T: Copy>(vec: &Vec<T>, i: u8, x: T) -> (r: Vec<T>)
    requires
        (i as int) < vec@.len(),
    ensures
        r@ == vec@.update(i as int, x),
{
    let mut r: Vec<T> = Vec::new();
    let mut j: usize = 0;
    while j < vec.len()
        invariant
            j <= vec@.len(),
            r@.len() == j,
            forall|k: int| 0 <= k < j ==> r@[k] == vec@[k],
        decreases vec@.len() - j,
    {
        r.push(vec[j]);
        j = j + 1;
    }
    r.set(i as usize, x);
    proof {
        assert(r@ =~= vec@.update(i as int, x));
    }
    r
}

/// Memory after a program image is copied in at `PROGRAM_START`:
/// the reserved bytes and everything past the image are untouched.
pub open spec fn load_rom_spec(m: MachineModel, rom: Seq<u8>) -> MachineModel {
    MachineModel {
        memory: m.memory.take(PROGRAM_START as int) + rom + m.memory.skip(
            PROGRAM_START + rom.len(),
        ),
        ..m
    }
}

/// The machine memory with `rom` written at `PROGRAM_START`.
fn store_rom_bytes(memory: Vec<u8>, rom: &Vec<u8>) -> (r: Vec<u8>)
    requires
        memory@.len() == MEMORY_SIZE,
        PROGRAM_START + rom@.len() <= memory@.len(),
    ensures
        r@ == memory@.take(PROGRAM_START as int) + rom@ + memory@.skip(
            PROGRAM_START + rom@.len(),
        ),
{
    let ghost m0 = memory@;
    let mut r = memory;
    let mut i: usize = 0;
    while i < rom.len()
        invariant
            i <= rom@.len(),
            m0.len() == MEMORY_SIZE,
            PROGRAM_START + rom@.len() <= m0.len(),
            r@.len() == m0.len(),
            forall|k: int| 0 <= k < PROGRAM_START ==> r@[k] == m0[k],
            forall|k: int| 0 <= k < i ==> r@[PROGRAM_START + k] == rom@[k],
            forall|k: int| PROGRAM_START + i <= k < m0.len() ==> r@[k] == m0[k],
        decreases rom@.len() - i,
    {
        r.set(PROGRAM_START + i, rom[i]);
        i = i + 1;
    }
    proof {
        assert(r@ =~= m0.take(PROGRAM_START as int) + rom@ + m0.skip(PROGRAM_START + rom@.len()));
    }
    r
}

/// Copies a program image verbatim into memory starting at `PROGRAM_START`.
/// An image longer than the space past `PROGRAM_START` is rejected whole:
/// the reserved bytes and the memory size are never disturbed.
pub fn load_rom(chip8: Chip8, rom: &Vec<u8>) -> (r: Result<Chip8, EmuError>)
    requires
        chip8.wf(),
    ensures
        rom@.len() <= MEMORY_SIZE - PROGRAM_START ==> (r matches Ok(c) && c@ == load_rom_spec(
            chip8@,
            rom@,
        ) && c.wf()),
        rom@.len() > MEMORY_SIZE - PROGRAM_START ==> r == Err::<Chip8, EmuError>(
            EmuError::ResourceOverflow,
        ),
{
    if rom.len() > MEMORY_SIZE - PROGRAM_START {
        return Err(EmuError::ResourceOverflow);
    }
    Ok(Chip8 { memory: store_rom_bytes(chip8.memory, rom), ..chip8 })
}

} // verus!
