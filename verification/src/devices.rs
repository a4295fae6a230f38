//! The machine's passive hardware: the byte-addressable memory with its
//! built-in font sprites, the sixteen-register file, the call stack, the
//! monochrome XOR display, and the countdown timers.

use vstd::prelude::*;

verus! {

/// Number of addressable bytes of memory.
pub const MEMORY_SIZE: usize = 4096;

/// Address at which a loaded program begins.
pub const PROGRAM_START: usize = 0x200;

/// The sixteen built-in font sprites, five bytes per hexadecimal digit,
/// resident at the bottom of memory.
pub const FONT_DATA: [u8; 80] = [
    0xF0, 0x90, 0x90, 0x90, 0xF0,
    0x20, 0x60, 0x20, 0x20, 0x70,
    0xF0, 0x10, 0xF0, 0x80, 0xF0,
    0xF0, 0x10, 0xF0, 0x10, 0xF0,
    0x90, 0x90, 0xF0, 0x10, 0x10,
    0xF0, 0x80, 0xF0, 0x90, 0xF0,
    0xF0, 0x80, 0xF0, 0x90, 0xF0,
    0xF0, 0x10, 0x20, 0x40, 0x40,
    0xF0, 0x90, 0xF0, 0x90, 0xF0,
    0xF0, 0x90, 0xF0, 0x10, 0xF0,
    0xF0, 0x90, 0xF0, 0x90, 0x90,
    0xE0, 0x90, 0xE0, 0x90, 0xE0,
    0xF0, 0x80, 0x80, 0x80, 0xF0,
    0xE0, 0x90, 0x90, 0x90, 0xE0,
    0xF0, 0x80, 0xF0, 0x80, 0xF0,
    0xF0, 0x80, 0xF0, 0x80, 0x80,
];

/// Flat byte-addressable memory. Every access goes through a bounds-checked
/// accessor; the caller decides what an out-of-range address means.
pub struct Ram {
    bytes: Vec<u8>,
}

impl View for Ram {
    type V = Seq<u8>;

    closed spec fn view(&self) -> Seq<u8> {
        self.bytes@
    }
}

impl Ram {
    pub open spec fn wf(&self) -> bool {
        self@.len() == MEMORY_SIZE
    }

    /// Fresh memory: the font sprites at the bottom, zero everywhere else.
    pub fn new() -> (r: Ram)
        ensures
            r.wf(),
            forall|i: int| 0 <= i < 80 ==> r@[i] == FONT_DATA@[i],
            forall|i: int| 80 <= i < MEMORY_SIZE ==> r@[i] == 0,
    {
        let mut bytes: Vec<u8> = Vec::new();
        let mut i: usize = 0;
        while i < MEMORY_SIZE
            invariant
                i <= MEMORY_SIZE,
                bytes@.len() == i,
                forall|j: int| 0 <= j < i ==> bytes@[j] == 0,
            decreases MEMORY_SIZE - i,
        {
            bytes.push(0);
            i = i + 1;
        }
        let mut k: usize = 0;
        while k < 80
            invariant
                k <= 80,
                bytes@.len() == MEMORY_SIZE,
                forall|j: int| 0 <= j < k ==> bytes@[j] == FONT_DATA@[j],
                forall|j: int| k <= j < MEMORY_SIZE ==> bytes@[j] == 0,
            decreases 80 - k,
        {
            bytes[k] = FONT_DATA[k];
            k = k + 1;
        }
        Ram { bytes }
    }

    /// Copy a program into memory starting at `PROGRAM_START`; everything
    /// outside the program's range is left as it was.
    pub fn load_program(&mut self, program: &[u8])
        requires
            old(self).wf(),
            program@.len() <= MEMORY_SIZE - PROGRAM_START,
        ensures
            final(self).wf(),
            forall|i: int|
                0 <= i < program@.len() ==> final(self)@[PROGRAM_START + i] == program@[i],
            forall|i: int| 0 <= i < PROGRAM_START ==> final(self)@[i] == old(self)@[i],
            forall|i: int|
                PROGRAM_START + program@.len() <= i < MEMORY_SIZE ==> final(self)@[i] == old(
                    self,
                )@[i],
    {
        let mut offset: usize = 0;
        while offset < program.len()
            invariant
                offset <= program@.len(),
                program@.len() <= MEMORY_SIZE - PROGRAM_START,
                self@.len() == MEMORY_SIZE,
                forall|i: int| 0 <= i < offset ==> self@[PROGRAM_START + i] == program@[i],
                forall|i: int| 0 <= i < PROGRAM_START ==> self@[i] == old(self)@[i],
                forall|i: int|
                    PROGRAM_START + offset <= i < MEMORY_SIZE ==> self@[i] == old(self)@[i],
            decreases program@.len() - offset,
        {
            self.bytes[PROGRAM_START + offset] = program[offset];
            offset = offset + 1;
        }
    }

    /// Read the byte at `addr`.
    pub fn read(&self, addr: u16) -> (b: u8)
        requires
            self.wf(),
            addr < MEMORY_SIZE,
        ensures
            b == self@[addr as int],
    {
        self.bytes[addr as usize]
    }

    /// Overwrite the byte at `addr`.
    pub fn write(&mut self, addr: u16, byte: u8)
        requires
            old(self).wf(),
            addr < MEMORY_SIZE,
        ensures
            final(self).wf(),
            final(self)@ == old(self)@.update(addr as int, byte),
    {
        self.bytes[addr as usize] = byte;
    }
}

/// The sixteen general-purpose 8-bit registers `V0..VF`. `VF` doubles as the
/// flag output of arithmetic, shift, and draw operations.
pub struct VariableRegisters {
    regs: Vec<u8>,
}

impl View for VariableRegisters {
    type V = Seq<u8>;

    closed spec fn view(&self) -> Seq<u8> {
        self.regs@
    }
}

impl VariableRegisters {
    pub open spec fn wf(&self) -> bool {
        self@.len() == 16
    }

    /// All sixteen registers start at zero.
    pub fn new() -> (r: VariableRegisters)
        ensures
            r.wf(),
            forall|i: int| 0 <= i < 16 ==> r@[i] == 0,
    {
        let mut regs: Vec<u8> = Vec::new();
        let mut i: usize = 0;
        while i < 16
            invariant
                i <= 16,
                regs@.len() == i,
                forall|j: int| 0 <= j < i ==> regs@[j] == 0,
            decreases 16 - i,
        {
            regs.push(0);
            i = i + 1;
        }
        VariableRegisters { regs }
    }

    /// Read register `Vi`.
    pub fn get(&self, i: usize) -> (v: u8)
        requires
            self.wf(),
            i < 16,
        ensures
            v == self@[i as int],
    {
        self.regs[i]
    }

    /// Overwrite register `Vi`.
    pub fn set(&mut self, i: usize, v: u8)
        requires
            old(self).wf(),
            i < 16,
        ensures
            final(self).wf(),
            final(self)@ == old(self)@.update(i as int, v),
    {
        self.regs[i] = v;
    }

    /// Raise the flag register: `VF = 1`.
    pub fn set_vf(&mut self)
        requires
            old(self).wf(),
        ensures
            final(self).wf(),
            final(self)@ == old(self)@.update(15, 1u8),
    {
        self.regs[15] = 1;
    }

    /// Write `val` into the flag register `VF`.
    pub fn set_vf_to(&mut self, val: u8)
        requires
            old(self).wf(),
        ensures
            final(self).wf(),
            final(self)@ == old(self)@.update(15, val),
    {
        self.regs[15] = val;
    }

    /// Lower the flag register: `VF = 0`.
    pub fn clear_vf(&mut self)
        requires
            old(self).wf(),
        ensures
            final(self).wf(),
            final(self)@ == old(self)@.update(15, 0u8),
    {
        self.regs[15] = 0;
    }
}

/// The LIFO stack of 16-bit return addresses for subroutine call and return.
pub struct Stack {
    entries: Vec<u16>,
}

impl View for Stack {
    type V = Seq<u16>;

    closed spec fn view(&self) -> Seq<u16> {
        self.entries@
    }
}

impl Stack {
    /// An empty stack.
    pub fn new() -> (s: Stack)
        ensures
            s@ == Seq::<u16>::empty(),
    {
        Stack { entries: Vec::new() }
    }

    /// Push a return address.
    pub fn push(&mut self, address: u16)
        ensures
            final(self)@ == old(self)@.push(address),
    {
        self.entries.push(address);
    }

    /// Pop the most recent return address; `None` when the stack is empty.
    pub fn pop(&mut self) -> (r: Option<u16>)
        ensures
            old(self)@.len() == 0 ==> r is None && final(self)@ == old(self)@,
            old(self)@.len() > 0 ==> r == Some(old(self)@.last()) && final(self)@ == old(
                self,
            )@.drop_last(),
    {
        self.entries.pop()
    }
}

/// Width of the display in pixels.
pub const SCREEN_WIDTH: usize = 64;

/// Height of the display in pixels.
pub const SCREEN_HEIGHT: usize = 32;

/// The 64x32 monochrome display, row-major. Pixels are only ever toggled by
/// drawing, never set directly.
pub struct Screen {
    pixels: Vec<bool>,
}

impl View for Screen {
    type V = Seq<bool>;

    closed spec fn view(&self) -> Seq<bool> {
        self.pixels@
    }
}

impl Screen {
    pub open spec fn wf(&self) -> bool {
        self@.len() == SCREEN_WIDTH * SCREEN_HEIGHT
    }

    /// A blank screen: every pixel off.
    pub fn new() -> (s: Screen)
        ensures
            s.wf(),
            forall|i: int| 0 <= i < SCREEN_WIDTH * SCREEN_HEIGHT ==> !s@[i],
    {
        let mut pixels: Vec<bool> = Vec::new();
        let mut i: usize = 0;
        while i < SCREEN_WIDTH * SCREEN_HEIGHT
            invariant
                i <= SCREEN_WIDTH * SCREEN_HEIGHT,
                pixels@.len() == i,
                forall|j: int| 0 <= j < i ==> !pixels@[j],
            decreases SCREEN_WIDTH * SCREEN_HEIGHT - i,
        {
            pixels.push(false);
            i = i + 1;
        }
        Screen { pixels }
    }

    /// Turn every pixel off.
    pub fn clear(&mut self)
        requires
            old(self).wf(),
        ensures
            final(self).wf(),
            forall|i: int| 0 <= i < SCREEN_WIDTH * SCREEN_HEIGHT ==> !final(self)@[i],
    {
        let mut i: usize = 0;
        while i < SCREEN_WIDTH * SCREEN_HEIGHT
            invariant
                i <= SCREEN_WIDTH * SCREEN_HEIGHT,
                self@.len() == SCREEN_WIDTH * SCREEN_HEIGHT,
                forall|j: int| 0 <= j < i ==> !self@[j],
            decreases SCREEN_WIDTH * SCREEN_HEIGHT - i,
        {
            self.pixels[i] = false;
            i = i + 1;
        }
    }

    /// Toggle the pixel at column `x`, row `y`; the result reports a
    /// collision, that is, whether the pixel was on before the toggle.
    pub fn set_pixel(&mut self, x: u8, y: u8) -> (collision: bool)
        requires
            old(self).wf(),
            x < SCREEN_WIDTH,
            y < SCREEN_HEIGHT,
        ensures
            final(self).wf(),
            collision == old(self)@[y as int * SCREEN_WIDTH + x as int],
            final(self)@ == old(self)@.update(
                y as int * SCREEN_WIDTH + x as int,
                !old(self)@[y as int * SCREEN_WIDTH + x as int],
            ),
    {
        let index = (y as usize) * SCREEN_WIDTH + (x as usize);
        let collision = self.pixels[index];
        self.pixels[index] = !collision;
        collision
    }

    /// Read the pixel at column `x`, row `y` without changing it.
    pub fn pixel(&self, x: u8, y: u8) -> (on: bool)
        requires
            self.wf(),
            x < SCREEN_WIDTH,
            y < SCREEN_HEIGHT,
        ensures
            on == self@[y as int * SCREEN_WIDTH + x as int],
    {
        self.pixels[(y as usize) * SCREEN_WIDTH + (x as usize)]
    }
}

/// Lifecycle of a countdown timer: it is `AboveZero` until its value reaches
/// zero by decrementing, at which point it transitions to `Zero` exactly once.
#[derive(Clone, Copy, Debug, PartialEq, Eq, Structural)]
pub enum TimerState {
    Zero,
    AboveZero,
}

/// An 8-bit countdown timer, decremented by an external clock.
#[derive(Clone, Copy, Debug, PartialEq, Eq, Structural)]
pub struct Timer {
    pub value: u8,
    pub state: TimerState,
}

impl Timer {
    /// What one clock tick does to a timer.
    pub open spec fn spec_decrement(t: Timer) -> Timer {
        if t.value == 0 {
            t
        } else if t.value == 1 {
            Timer { value: 0, state: TimerState::Zero }
        } else {
            Timer { value: (t.value - 1) as u8, state: t.state }
        }
    }

    /// A fresh timer: value zero, lifecycle not yet finished.
    pub fn new() -> (t: Timer)
        ensures
            t.value == 0,
            t.state == TimerState::AboveZero,
    {
        Timer { value: 0, state: TimerState::AboveZero }
    }

    /// One external clock tick: decrement if above one, finish (reach zero and
    /// transition to `Zero`) if exactly one, do nothing if already zero.
    pub fn decrement(&mut self)
        ensures
            *final(self) == Timer::spec_decrement(*old(self)),
            old(self).value == 0 ==> *final(self) == *old(self),
            old(self).value == 1 ==> final(self).value == 0 && final(self).state
                == TimerState::Zero,
            old(self).value > 1 ==> final(self).value == old(self).value - 1
                && final(self).state == old(self).state,
    {
        if self.value == 1 {
            self.value = 0;
            self.state = TimerState::Zero;
        } else if self.value > 1 {
            self.value = self.value - 1;
        }
    }

    /// Rewind the timer to sixty ticks; the lifecycle state is left as it was.
    pub fn reset(&mut self)
        ensures
            final(self).value == 60,
            final(self).state == old(self).state,
    {
        self.value = 60;
    }
}

} // verus!
