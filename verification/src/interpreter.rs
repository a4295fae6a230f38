//! The machine itself: it owns memory, registers, stack, screen, timers and
//! input state, and exposes a single-step fetch-decode-execute operation, a
//! timer tick, and key-state transitions.
//!
//! Every observable effect of a step is pinned down by `spec_step` and
//! `spec_execute`: mathematical functions from the machine's view and the
//! decoded instruction (plus the drawn random byte) to the next view or a
//! typed error. An erroneous instruction commits nothing: the machine is left
//! exactly as it was.

use vstd::prelude::*;

use crate::devices::{
    Ram, Screen, Stack, Timer, TimerState, VariableRegisters, FONT_DATA, MEMORY_SIZE,
    PROGRAM_START, SCREEN_HEIGHT, SCREEN_WIDTH,
};
use crate::instructions::{decode, spec_decode, Instruction, QuirkMode};

verus! {

/// One of the sixteen keys of the input matrix.
#[derive(Clone, Copy, Debug, PartialEq, Eq, Structural)]
pub enum Key {
    Key0,
    Key1,
    Key2,
    Key3,
    Key4,
    Key5,
    Key6,
    Key7,
    Key8,
    Key9,
    KeyA,
    KeyB,
    KeyC,
    KeyD,
    KeyE,
    KeyF,
}

impl Key {
    /// The key's value as a hexadecimal digit.
    pub open spec fn spec_value(self) -> u8 {
        match self {
            Key::Key0 => 0x0,
            Key::Key1 => 0x1,
            Key::Key2 => 0x2,
            Key::Key3 => 0x3,
            Key::Key4 => 0x4,
            Key::Key5 => 0x5,
            Key::Key6 => 0x6,
            Key::Key7 => 0x7,
            Key::Key8 => 0x8,
            Key::Key9 => 0x9,
            Key::KeyA => 0xA,
            Key::KeyB => 0xB,
            Key::KeyC => 0xC,
            Key::KeyD => 0xD,
            Key::KeyE => 0xE,
            Key::KeyF => 0xF,
        }
    }

    /// The key standing for a hexadecimal digit.
    pub open spec fn spec_from_value(v: u8) -> Key {
        if v == 0x0 {
            Key::Key0
        } else if v == 0x1 {
            Key::Key1
        } else if v == 0x2 {
            Key::Key2
        } else if v == 0x3 {
            Key::Key3
        } else if v == 0x4 {
            Key::Key4
        } else if v == 0x5 {
            Key::Key5
        } else if v == 0x6 {
            Key::Key6
        } else if v == 0x7 {
            Key::Key7
        } else if v == 0x8 {
            Key::Key8
        } else if v == 0x9 {
            Key::Key9
        } else if v == 0xA {
            Key::KeyA
        } else if v == 0xB {
            Key::KeyB
        } else if v == 0xC {
            Key::KeyC
        } else if v == 0xD {
            Key::KeyD
        } else if v == 0xE {
            Key::KeyE
        } else {
            Key::KeyF
        }
    }

    /// The key's value as a hexadecimal digit.
    pub fn value(self) -> (v: u8)
        ensures
            v == self.spec_value(),
    {
        match self {
            Key::Key0 => 0x0,
            Key::Key1 => 0x1,
            Key::Key2 => 0x2,
            Key::Key3 => 0x3,
            Key::Key4 => 0x4,
            Key::Key5 => 0x5,
            Key::Key6 => 0x6,
            Key::Key7 => 0x7,
            Key::Key8 => 0x8,
            Key::Key9 => 0x9,
            Key::KeyA => 0xA,
            Key::KeyB => 0xB,
            Key::KeyC => 0xC,
            Key::KeyD => 0xD,
            Key::KeyE => 0xE,
            Key::KeyF => 0xF,
        }
    }

    /// The key standing for the hexadecimal digit `v`.
    pub fn from_nibble(v: u8) -> (k: Key)
        requires
            v < 16,
        ensures
            k == Key::spec_from_value(v),
            k.spec_value() == v,
    {
        if v == 0x0 {
            Key::Key0
        } else if v == 0x1 {
            Key::Key1
        } else if v == 0x2 {
            Key::Key2
        } else if v == 0x3 {
            Key::Key3
        } else if v == 0x4 {
            Key::Key4
        } else if v == 0x5 {
            Key::Key5
        } else if v == 0x6 {
            Key::Key6
        } else if v == 0x7 {
            Key::Key7
        } else if v == 0x8 {
            Key::Key8
        } else if v == 0x9 {
            Key::Key9
        } else if v == 0xA {
            Key::KeyA
        } else if v == 0xB {
            Key::KeyB
        } else if v == 0xC {
            Key::KeyC
        } else if v == 0xD {
            Key::KeyD
        } else if v == 0xE {
            Key::KeyE
        } else {
            Key::KeyF
        }
    }
}

/// Per-key state. `AlreadyPressed` marks a key that was held when a
/// wait-for-key began: it counts as not held for the skip instructions and
/// cannot itself satisfy the wait.
#[derive(Clone, Copy, Debug, PartialEq, Eq, Structural)]
pub enum KeyState {
    NotPressed,
    Pressed,
    AlreadyPressed,
}

/// What beginning a wait-for-key does to each key: a held key is snapshotted
/// so that it cannot satisfy the wait by itself.
pub open spec fn spec_wait_snapshot(s: KeyState) -> KeyState {
    match s {
        KeyState::Pressed => KeyState::AlreadyPressed,
        _ => s,
    }
}

/// The sixteen key slots, the register waiting for a key (if any), and the
/// most recent pressed-then-released key event (if any).
pub struct InputHandler {
    pub keys_state: Vec<KeyState>,
    pub waiting: Option<usize>,
    pub pressed_and_released: Option<Key>,
}

impl InputHandler {
    /// No key pressed, no wait pending, no event recorded.
    pub fn new() -> (h: InputHandler)
        ensures
            h.keys_state@.len() == 16,
            forall|i: int| 0 <= i < 16 ==> h.keys_state@[i] == KeyState::NotPressed,
            h.waiting is None,
            h.pressed_and_released is None,
    {
        let mut keys_state: Vec<KeyState> = Vec::new();
        let mut i: usize = 0;
        while i < 16
            invariant
                i <= 16,
                keys_state@.len() == i,
                forall|j: int| 0 <= j < i ==> keys_state@[j] == KeyState::NotPressed,
            decreases 16 - i,
        {
            keys_state.push(KeyState::NotPressed);
            i = i + 1;
        }
        InputHandler { keys_state, waiting: None, pressed_and_released: None }
    }
}

/// Why a program cannot continue: an opcode matched no pattern, a return had
/// no pending call, an instruction formed an address beyond memory, or a
/// program did not fit in memory at construction.
#[derive(Clone, Copy, Debug, PartialEq, Eq, Structural)]
pub enum MachineError {
    DecodeFailed,
    StackUnderflow,
    MemoryOutOfRange,
    ProgramTooLarge,
}

/// Which of the two timers an external clock tick drives.
#[derive(Clone, Copy, Debug, PartialEq, Eq, Structural)]
pub enum TimerSelector {
    Delay,
    Sound,
}

/// The machine's whole observable state as mathematical values: what the
/// contracts speak of.
#[verifier::ext_equal]
pub ghost struct MachineView {
    pub ram: Seq<u8>,
    pub screen: Seq<bool>,
    pub regs: Seq<u8>,
    pub index: u16,
    pub pc: u16,
    pub stack: Seq<u16>,
    pub delay: Timer,
    pub sound: Timer,
    pub keys: Seq<KeyState>,
    pub waiting: Option<usize>,
    pub released: Option<Key>,
    pub mode: QuirkMode,
}

impl MachineView {
    /// Structural invariant of every reachable machine state: fixed component
    /// sizes, the program counter within the range jumps can form (an offset
    /// jump reaches at most `0xFFF + 0xFF`), the index register at most one
    /// past memory (a legacy register store leaves it there), return addresses
    /// within fetch range, and a waiting register below sixteen.
    pub open spec fn wf(self) -> bool {
        &&& self.ram.len() == MEMORY_SIZE
        &&& self.screen.len() == SCREEN_WIDTH * SCREEN_HEIGHT
        &&& self.regs.len() == 16
        &&& self.keys.len() == 16
        &&& self.pc <= 4350
        &&& self.index <= MEMORY_SIZE
        &&& forall|i: int| 0 <= i < self.stack.len() ==> self.stack[i] <= MEMORY_SIZE
        &&& match self.waiting {
            Some(r) => r < 16,
            None => true,
        }
    }
}

/// The virtual machine: fetches, decodes and executes one instruction per
/// step, under a runtime quirk configuration.
pub struct Interpreter {
    pub ram: Ram,
    pub screen: Screen,
    pub variable_registers: VariableRegisters,
    pub index_register: u16,
    pub program_counter: u16,
    pub stack: Stack,
    pub delay_timer: Timer,
    pub sound_timer: Timer,
    pub input_handler: InputHandler,
    pub mode: QuirkMode,
}

impl View for Interpreter {
    type V = MachineView;

    open spec fn view(&self) -> MachineView {
        MachineView {
            ram: self.ram@,
            screen: self.screen@,
            regs: self.variable_registers@,
            index: self.index_register,
            pc: self.program_counter,
            stack: self.stack@,
            delay: self.delay_timer,
            sound: self.sound_timer,
            keys: self.input_handler.keys_state@,
            waiting: self.input_handler.waiting,
            released: self.input_handler.pressed_and_released,
            mode: self.mode,
        }
    }
}

/// What recording a key transition does to the machine: a press marks an idle
/// key as pressed (a held or snapshotted key stays as it is); a release clears
/// the slot and, exactly when the key was in the `Pressed` state, records the
/// pressed-then-released event that satisfies a pending wait.
pub open spec fn spec_set_key_state(pre: MachineView, key: u8, pressed: bool) -> MachineView {
    let cur = pre.keys[key as int];
    if pressed {
        let ns = if cur is NotPressed {
            KeyState::Pressed
        } else {
            cur
        };
        MachineView { keys: pre.keys.update(key as int, ns), ..pre }
    } else {
        MachineView {
            keys: pre.keys.update(key as int, KeyState::NotPressed),
            released: if cur is Pressed {
                Some(Key::spec_from_value(key))
            } else {
                pre.released
            },
            ..pre
        }
    }
}

/// Whether bit `bit` of a sprite row byte is set, counting from the most
/// significant bit: bit 0 is drawn leftmost.
pub open spec fn spec_sprite_bit(sprite: u8, bit: int) -> bool {
    (sprite >> ((7 - bit) as u8)) & 1 == 1
}

/// How many of a sprite row's eight bits land on screen when drawing starts at
/// column `x0`: traversal clips at the right edge instead of wrapping.
pub open spec fn spec_row_bits(x0: int) -> int {
    if 8 <= 64 - x0 {
        8
    } else {
        64 - x0
    }
}

/// How many of `n` sprite rows land on screen when drawing starts at row
/// `y0`: traversal clips at the bottom edge instead of wrapping.
pub open spec fn spec_draw_height(y0: int, n: int) -> int {
    if n <= 32 - y0 {
        n
    } else {
        32 - y0
    }
}

/// Drawing the first `nbits` bits of one sprite row: bit `k` toggles the pixel
/// at column `x0 + k`, row `y`, if it is set. Returns the new screen and
/// whether any toggle turned a set pixel off (a collision).
pub open spec fn spec_draw_row(
    screen: Seq<bool>,
    sprite: u8,
    x0: int,
    y: int,
    nbits: int,
) -> (Seq<bool>, bool)
    decreases nbits,
{
    if nbits <= 0 {
        (screen, false)
    } else {
        let prev = spec_draw_row(screen, sprite, x0, y, nbits - 1);
        let bit = nbits - 1;
        let x = x0 + bit;
        if spec_sprite_bit(sprite, bit) {
            let idx = y * SCREEN_WIDTH + x;
            (prev.0.update(idx, !prev.0[idx]), prev.1 || prev.0[idx])
        } else {
            prev
        }
    }
}

/// Drawing the first `nrows` sprite rows read from memory at `index`,
/// `index + 1`, ...: row `r` is drawn at screen row `y0 + r`. Returns the new
/// screen and whether any row collided.
pub open spec fn spec_draw_rows(
    screen: Seq<bool>,
    ram: Seq<u8>,
    index: int,
    x0: int,
    y0: int,
    nrows: int,
) -> (Seq<bool>, bool)
    decreases nrows,
{
    if nrows <= 0 {
        (screen, false)
    } else {
        let prev = spec_draw_rows(screen, ram, index, x0, y0, nrows - 1);
        let row = nrows - 1;
        let cur = spec_draw_row(prev.0, ram[index + row], x0, y0 + row, spec_row_bits(x0));
        (cur.0, prev.1 || cur.1)
    }
}

/// Memory after copying registers `0 .. count` to the `count` bytes starting
/// at `start`; everything else unchanged.
pub open spec fn spec_store_regs(ram: Seq<u8>, regs: Seq<u8>, start: int, count: int) -> Seq<u8> {
    Seq::new(
        ram.len(),
        |j: int|
            if start <= j < start + count {
                regs[j - start]
            } else {
                ram[j]
            },
    )
}

/// Registers after copying the `count` bytes starting at memory address
/// `start` into registers `0 .. count`; the higher registers unchanged.
pub open spec fn spec_load_regs(regs: Seq<u8>, ram: Seq<u8>, start: int, count: int) -> Seq<u8> {
    Seq::new(
        regs.len(),
        |r: int|
            if 0 <= r < count {
                ram[start + r]
            } else {
                regs[r]
            },
    )
}

/// What executing one decoded instruction does to the machine, as a function
/// of the state just after the fetch (the program counter already advanced
/// past the instruction) and of the random byte drawn for `RandomAnd`. An
/// error commits nothing.
pub open spec fn spec_execute(pre: MachineView, i: Instruction, rand: u8) -> Result<
    MachineView,
    MachineError,
> {
    match i {
        Instruction::Call { address } => Ok(
            MachineView { stack: pre.stack.push(pre.pc), pc: address, ..pre },
        ),
        Instruction::Return => if pre.stack.len() == 0 {
            Err(MachineError::StackUnderflow)
        } else {
            Ok(MachineView { pc: pre.stack.last(), stack: pre.stack.drop_last(), ..pre })
        },
        Instruction::Jump { address } => Ok(MachineView { pc: address, ..pre }),
        Instruction::JumpOffset { base_address, register } => {
            let r = match register {
                Some(r) => r as int,
                None => 0,
            };
            Ok(MachineView { pc: (base_address + pre.regs[r]) as u16, ..pre })
        },
        Instruction::SkipEqualByte { register, byte } => Ok(
            MachineView {
                pc: if pre.regs[register as int] == byte {
                    (pre.pc + 2) as u16
                } else {
                    pre.pc
                },
                ..pre
            },
        ),
        Instruction::SkipNotEqualByte { register, byte } => Ok(
            MachineView {
                pc: if pre.regs[register as int] != byte {
                    (pre.pc + 2) as u16
                } else {
                    pre.pc
                },
                ..pre
            },
        ),
        Instruction::SkipEqualVariable { register_x, register_y } => Ok(
            MachineView {
                pc: if pre.regs[register_x as int] == pre.regs[register_y as int] {
                    (pre.pc + 2) as u16
                } else {
                    pre.pc
                },
                ..pre
            },
        ),
        Instruction::SkipNotEqualVariable { register_x, register_y } => Ok(
            MachineView {
                pc: if pre.regs[register_x as int] != pre.regs[register_y as int] {
                    (pre.pc + 2) as u16
                } else {
                    pre.pc
                },
                ..pre
            },
        ),
        Instruction::SkipKey { register } => {
            let kv = pre.regs[register as int];
            if kv >= 16 {
                Err(MachineError::MemoryOutOfRange)
            } else {
                Ok(
                    MachineView {
                        pc: if pre.keys[kv as int] is Pressed {
                            (pre.pc + 2) as u16
                        } else {
                            pre.pc
                        },
                        ..pre
                    },
                )
            }
        },
        Instruction::SkipNotKey { register } => {
            let kv = pre.regs[register as int];
            if kv >= 16 {
                Err(MachineError::MemoryOutOfRange)
            } else {
                Ok(
                    MachineView {
                        pc: if !(pre.keys[kv as int] is Pressed) {
                            (pre.pc + 2) as u16
                        } else {
                            pre.pc
                        },
                        ..pre
                    },
                )
            }
        },
        Instruction::SetWithByte { register, byte } => Ok(
            MachineView { regs: pre.regs.update(register as int, byte), ..pre },
        ),
        Instruction::SetWithVariable { register_x, register_y } => Ok(
            MachineView {
                regs: pre.regs.update(register_x as int, pre.regs[register_y as int]),
                ..pre
            },
        ),
        Instruction::SetIndexWithAddress { address } => Ok(
            MachineView { index: address, ..pre },
        ),
        Instruction::SetIndexWithSpriteAddress { register } => Ok(
            MachineView { index: (pre.regs[register as int] * 5) as u16, ..pre },
        ),
        Instruction::AddWithByte { register, byte } => Ok(
            MachineView {
                regs: pre.regs.update(
                    register as int,
                    ((pre.regs[register as int] + byte) % 256) as u8,
                ),
                ..pre
            },
        ),
        Instruction::AddWithVariable { register_x, register_y } => {
            let sum = pre.regs[register_x as int] + pre.regs[register_y as int];
            Ok(
                MachineView {
                    regs: pre.regs.update(register_x as int, (sum % 256) as u8).update(
                        15,
                        if sum > 255 {
                            1u8
                        } else {
                            0u8
                        },
                    ),
                    ..pre
                },
            )
        },
        Instruction::AddIndexWithVariable { register } => {
            let ni = pre.index + pre.regs[register as int];
            if ni >= MEMORY_SIZE {
                Err(MachineError::MemoryOutOfRange)
            } else {
                Ok(MachineView { index: ni as u16, ..pre })
            }
        },
        Instruction::SubWithVariable { register_x, register_y } => {
            let vx = pre.regs[register_x as int];
            let vy = pre.regs[register_y as int];
            let value = if vx >= vy {
                vx - vy
            } else {
                vx - vy + 256
            };
            Ok(
                MachineView {
                    regs: pre.regs.update(register_x as int, value as u8).update(
                        15,
                        if vx >= vy {
                            1u8
                        } else {
                            0u8
                        },
                    ),
                    ..pre
                },
            )
        },
        Instruction::SubWithVariableNot { register_x, register_y } => {
            let vx = pre.regs[register_x as int];
            let vy = pre.regs[register_y as int];
            let value = if vy >= vx {
                vy - vx
            } else {
                vy - vx + 256
            };
            Ok(
                MachineView {
                    regs: pre.regs.update(register_x as int, value as u8).update(
                        15,
                        if vy >= vx {
                            1u8
                        } else {
                            0u8
                        },
                    ),
                    ..pre
                },
            )
        },
        Instruction::ShiftRight { register_x, register_y } => {
            let src = match register_y {
                Some(y) => pre.regs[y as int],
                None => pre.regs[register_x as int],
            };
            Ok(
                MachineView {
                    regs: pre.regs.update(register_x as int, src >> 1).update(15, src & 1),
                    ..pre
                },
            )
        },
        Instruction::ShiftLeft { register_x, register_y } => {
            let src = match register_y {
                Some(y) => pre.regs[y as int],
                None => pre.regs[register_x as int],
            };
            Ok(
                MachineView {
                    regs: pre.regs.update(register_x as int, src << 1).update(
                        15,
                        (src & 0x80) >> 7,
                    ),
                    ..pre
                },
            )
        },
        Instruction::Or { register_x, register_y } => Ok(
            MachineView {
                regs: pre.regs.update(
                    register_x as int,
                    pre.regs[register_x as int] | pre.regs[register_y as int],
                ),
                ..pre
            },
        ),
        Instruction::And { register_x, register_y } => Ok(
            MachineView {
                regs: pre.regs.update(
                    register_x as int,
                    pre.regs[register_x as int] & pre.regs[register_y as int],
                ),
                ..pre
            },
        ),
        Instruction::Xor { register_x, register_y } => Ok(
            MachineView {
                regs: pre.regs.update(
                    register_x as int,
                    pre.regs[register_x as int] ^ pre.regs[register_y as int],
                ),
                ..pre
            },
        ),
        Instruction::ClearScreen => Ok(
            MachineView { screen: Seq::new(pre.screen.len(), |i: int| false), ..pre },
        ),
        Instruction::Draw { register_x, register_y, n } => {
            let x0 = (pre.regs[register_x as int] % 64) as int;
            let y0 = (pre.regs[register_y as int] % 32) as int;
            let rows = spec_draw_height(y0, n as int);
            if pre.index + rows > MEMORY_SIZE {
                Err(MachineError::MemoryOutOfRange)
            } else {
                let drawn = spec_draw_rows(pre.screen, pre.ram, pre.index as int, x0, y0, rows);
                Ok(
                    MachineView {
                        screen: drawn.0,
                        regs: pre.regs.update(
                            15,
                            if drawn.1 {
                                1u8
                            } else {
                                0u8
                            },
                        ),
                        ..pre
                    },
                )
            }
        },
        Instruction::SetVariableWithDelayTimer { register } => Ok(
            MachineView { regs: pre.regs.update(register as int, pre.delay.value), ..pre },
        ),
        Instruction::SetDelayTimer { register } => Ok(
            MachineView {
                delay: Timer { value: pre.regs[register as int], state: pre.delay.state },
                ..pre
            },
        ),
        Instruction::SetSoundTimer { register } => Ok(
            MachineView {
                sound: Timer { value: pre.regs[register as int], state: pre.sound.state },
                ..pre
            },
        ),
        Instruction::StoreRegisters { up_to_register } => {
            let count = up_to_register + 1;
            if pre.index + count > MEMORY_SIZE {
                Err(MachineError::MemoryOutOfRange)
            } else {
                Ok(
                    MachineView {
                        ram: spec_store_regs(pre.ram, pre.regs, pre.index as int, count as int),
                        index: if pre.mode == QuirkMode::Legacy {
                            (pre.index + count) as u16
                        } else {
                            pre.index
                        },
                        ..pre
                    },
                )
            }
        },
        Instruction::LoadIntoRegisters { up_to_register } => {
            let count = up_to_register + 1;
            if pre.index + count > MEMORY_SIZE {
                Err(MachineError::MemoryOutOfRange)
            } else {
                Ok(
                    MachineView {
                        regs: spec_load_regs(pre.regs, pre.ram, pre.index as int, count as int),
                        index: if pre.mode == QuirkMode::Legacy {
                            (pre.index + count) as u16
                        } else {
                            pre.index
                        },
                        ..pre
                    },
                )
            }
        },
        Instruction::StoreDecimalConversion { register } => {
            if pre.index + 3 > MEMORY_SIZE {
                Err(MachineError::MemoryOutOfRange)
            } else {
                let v = pre.regs[register as int] as int;
                Ok(
                    MachineView {
                        ram: pre.ram.update(pre.index as int, (v / 100) as u8).update(
                            pre.index as int + 1,
                            ((v / 10) % 10) as u8,
                        ).update(pre.index as int + 2, (v % 10) as u8),
                        ..pre
                    },
                )
            }
        },
        Instruction::WaitForKey { register } => Ok(
            MachineView {
                keys: pre.keys.map_values(|s: KeyState| spec_wait_snapshot(s)),
                waiting: Some(register),
                released: None,
                ..pre
            },
        ),
        Instruction::RandomAnd { register, byte } => Ok(
            MachineView { regs: pre.regs.update(register as int, rand & byte), ..pre },
        ),
        Instruction::MachineRoutine { address } => Ok(pre),
    }
}

/// Relies on rand::rngs::OsRng (the operating system's entropy source, via
/// rand_core) and rand::Rng::gen::<u8>: one byte drawn from the operating
/// system. Nothing is promised of the value: every byte is a possible outcome.
#[verifier::external_body]
fn os_random_byte() -> u8 {
    rand::Rng::gen::<u8>(&mut rand::rngs::OsRng)
}

/// Whether `post` and `r` are the outcome of one step from `pre` under the
/// random byte `rand`.
pub open spec fn spec_step_outcome(
    pre: MachineView,
    post: MachineView,
    rand: u8,
    r: Result<(), MachineError>,
) -> bool {
    match spec_step(pre, rand) {
        Ok(v) => r == Ok::<(), MachineError>(()) && post == v,
        Err(e) => r == Err::<(), MachineError>(e) && post == pre,
    }
}

/// Law: executing a register store (`V0..=Vn` to memory at `I`) and then a
/// register load from the same `I` - into any register file - reproduces the
/// stored registers and leaves the higher registers alone; the index register
/// ends where it began in modern mode and advanced by `n + 1` in legacy mode
/// (by each of the two operations, run from the same `I`).
pub proof fn lemma_store_load_round_trip(
    pre: MachineView,
    fresh_regs: Seq<u8>,
    n: usize,
    rand: u8,
)
    requires
        pre.wf(),
        n < 16,
        fresh_regs.len() == 16,
        pre.index + n + 1 <= MEMORY_SIZE,
    ensures
        ({
            let stored = spec_execute(pre, Instruction::StoreRegisters { up_to_register: n }, rand);
            stored matches Ok(s) && {
                let mid = MachineView { regs: fresh_regs, index: pre.index, ..s };
                let loaded = spec_execute(
                    mid,
                    Instruction::LoadIntoRegisters { up_to_register: n },
                    rand,
                );
                loaded matches Ok(l) && {
                    &&& forall|j: int| 0 <= j <= n ==> l.regs[j] == pre.regs[j]
                    &&& forall|j: int| n < j < 16 ==> l.regs[j] == fresh_regs[j]
                    &&& l.ram == s.ram
                    &&& pre.mode == QuirkMode::Legacy ==> s.index == pre.index + n + 1 && l.index
                        == pre.index + n + 1
                    &&& pre.mode == QuirkMode::Modern ==> s.index == pre.index && l.index
                        == pre.index
                }
            }
        }),
{
    let stored_ram = spec_store_regs(pre.ram, pre.regs, pre.index as int, n + 1);
    let loaded_regs = spec_load_regs(fresh_regs, stored_ram, pre.index as int, n + 1);
    assert(forall|j: int| 0 <= j <= n ==> loaded_regs[j] == pre.regs[j]);
    assert(forall|j: int| n < j < 16 ==> loaded_regs[j] == fresh_regs[j]);
}

/// The opcode under the program counter: two consecutive bytes, big-endian.
pub open spec fn spec_opcode_at(pre: MachineView) -> u16 {
    ((pre.ram[pre.pc as int] as u16) << 8) | (pre.ram[pre.pc as int + 1] as u16)
}

/// What one call of `step` does. A pending wait consumes the
/// pressed-then-released event if one exists (the key's value goes into the
/// waiting register and the wait clears) and fetches nothing either way;
/// otherwise one instruction is fetched, decoded and executed. An error
/// commits nothing.
pub open spec fn spec_step(pre: MachineView, rand: u8) -> Result<MachineView, MachineError> {
    match pre.waiting {
        Some(reg) => match pre.released {
            Some(key) => Ok(
                MachineView {
                    regs: pre.regs.update(reg as int, key.spec_value()),
                    waiting: None,
                    released: None,
                    ..pre
                },
            ),
            None => Ok(pre),
        },
        None => {
            if pre.pc + 1 >= MEMORY_SIZE {
                Err(MachineError::MemoryOutOfRange)
            } else {
                match spec_decode(spec_opcode_at(pre), pre.mode) {
                    None => Err(MachineError::DecodeFailed),
                    Some(i) => spec_execute(MachineView { pc: (pre.pc + 2) as u16, ..pre }, i, rand),
                }
            }
        },
    }
}

impl Interpreter {
    /// Structural invariant; established by `new` and preserved by every
    /// operation.
    pub open spec fn wf(&self) -> bool {
        self@.wf()
    }

    /// Build a machine in the given quirk mode with `program` loaded at
    /// `PROGRAM_START` and the program counter there; fails with
    /// `ProgramTooLarge` exactly when the program does not fit in memory.
    pub fn new(program: &[u8], mode: QuirkMode) -> (r: Result<Interpreter, MachineError>)
        ensures
            program@.len() > MEMORY_SIZE - PROGRAM_START ==> r == Err::<Interpreter, MachineError>(
                MachineError::ProgramTooLarge,
            ),
            program@.len() <= MEMORY_SIZE - PROGRAM_START ==> (r matches Ok(m) && {
                &&& m.wf()
                &&& m@.pc == PROGRAM_START
                &&& m@.index == 0
                &&& m@.stack == Seq::<u16>::empty()
                &&& forall|i: int| 0 <= i < 16 ==> m@.regs[i] == 0
                &&& forall|i: int|
                    0 <= i < SCREEN_WIDTH * SCREEN_HEIGHT ==> !m@.screen[i]
                &&& forall|i: int| 0 <= i < 80 ==> m@.ram[i] == FONT_DATA@[i]
                &&& forall|i: int| 80 <= i < PROGRAM_START ==> m@.ram[i] == 0
                &&& forall|i: int|
                    0 <= i < program@.len() ==> m@.ram[PROGRAM_START + i] == program@[i]
                &&& forall|i: int|
                    PROGRAM_START + program@.len() <= i < MEMORY_SIZE ==> m@.ram[i] == 0
                &&& m@.delay == (Timer { value: 0, state: TimerState::AboveZero })
                &&& m@.sound == (Timer { value: 0, state: TimerState::AboveZero })
                &&& forall|i: int| 0 <= i < 16 ==> m@.keys[i] == KeyState::NotPressed
                &&& m@.waiting is None
                &&& m@.released is None
                &&& m@.mode == mode
            }),
    {
        if program.len() > MEMORY_SIZE - PROGRAM_START {
            return Err(MachineError::ProgramTooLarge);
        }
        let mut ram = Ram::new();
        ram.load_program(program);
        Ok(
            Interpreter {
                ram,
                screen: Screen::new(),
                variable_registers: VariableRegisters::new(),
                index_register: 0,
                program_counter: PROGRAM_START as u16,
                stack: Stack::new(),
                delay_timer: Timer::new(),
                sound_timer: Timer::new(),
                input_handler: InputHandler::new(),
                mode,
            },
        )
    }

    /// Record a key transition from the driver; a release of a key in the
    /// `Pressed` state produces the pressed-then-released event that the
    /// wait-for-key protocol consumes.
    pub fn set_key_state(&mut self, key: u8, pressed: bool)
        requires
            old(self).wf(),
            key < 16,
        ensures
            final(self).wf(),
            final(self)@ == spec_set_key_state(old(self)@, key, pressed),
    {
        let cur = self.input_handler.keys_state[key as usize];
        if pressed {
            if matches!(cur, KeyState::NotPressed) {
                self.input_handler.keys_state[key as usize] = KeyState::Pressed;
            } else {
                self.input_handler.keys_state[key as usize] = cur;
            }
        } else {
            self.input_handler.keys_state[key as usize] = KeyState::NotPressed;
            if matches!(cur, KeyState::Pressed) {
                self.input_handler.pressed_and_released = Some(Key::from_nibble(key));
            }
        }
        proof {
            assert(self@ =~= spec_set_key_state(old(self)@, key, pressed));
        }
    }

    /// Draw `n` sprite rows read from memory at the index register onto the
    /// screen at `(Vx mod 64, Vy mod 32)`, clipping at the right and bottom
    /// edges; `VF` reports whether any toggle turned a set pixel off.
    fn draw(&mut self, register_x: usize, register_y: usize, n: u8) -> (r: Result<
        (),
        MachineError,
    >)
        requires
            old(self).wf(),
            register_x < 16,
            register_y < 16,
            n < 16,
        ensures
            final(self).wf(),
            (match spec_execute(old(self)@, Instruction::Draw { register_x, register_y, n }, 0) {
                Ok(v) => r == Ok::<(), MachineError>(()) && final(self)@ == v,
                Err(e) => r == Err::<(), MachineError>(e) && final(self)@ == old(self)@,
            }),
    {
        let vx = self.variable_registers.get(register_x);
        let vy = self.variable_registers.get(register_y);
        let x0: u8 = vx % 64;
        let y0: u8 = vy % 32;
        let rows: u8 = if n <= 32 - y0 {
            n
        } else {
            32 - y0
        };
        let nbits: u8 = if 8 <= 64 - x0 {
            8
        } else {
            64 - x0
        };
        if self.index_register as usize + rows as usize > MEMORY_SIZE {
            return Err(MachineError::MemoryOutOfRange);
        }
        let mut collision: bool = false;
        let mut row: u8 = 0;
        while row < rows
            invariant
                old(self).wf(),
                x0 < 64,
                y0 < 32,
                rows == spec_draw_height(y0 as int, n as int),
                nbits == spec_row_bits(x0 as int),
                row <= rows,
                old(self)@.index + rows <= MEMORY_SIZE,
                self@ == (MachineView { screen: self@.screen, ..old(self)@ }),
                self@.screen.len() == SCREEN_WIDTH * SCREEN_HEIGHT,
                self@.screen == spec_draw_rows(
                    old(self)@.screen,
                    old(self)@.ram,
                    old(self)@.index as int,
                    x0 as int,
                    y0 as int,
                    row as int,
                ).0,
                collision == spec_draw_rows(
                    old(self)@.screen,
                    old(self)@.ram,
                    old(self)@.index as int,
                    x0 as int,
                    y0 as int,
                    row as int,
                ).1,
            decreases rows - row,
        {
            let sprite = self.ram.read(self.index_register + row as u16);
            let y: u8 = y0 + row;
            let ghost row_screen = self@.screen;
            let mut row_collision: bool = false;
            let mut bit: u8 = 0;
            while bit < nbits
                invariant
                    old(self).wf(),
                    x0 < 64,
                    y < 32,
                    nbits == spec_row_bits(x0 as int),
                    x0 + nbits <= 64,
                    bit <= nbits,
                    row_screen.len() == SCREEN_WIDTH * SCREEN_HEIGHT,
                    self@ == (MachineView { screen: self@.screen, ..old(self)@ }),
                    self@.screen.len() == SCREEN_WIDTH * SCREEN_HEIGHT,
                    self@.screen == spec_draw_row(
                        row_screen,
                        sprite,
                        x0 as int,
                        y as int,
                        bit as int,
                    ).0,
                    row_collision == spec_draw_row(
                        row_screen,
                        sprite,
                        x0 as int,
                        y as int,
                        bit as int,
                    ).1,
                decreases nbits - bit,
            {
                if (sprite >> (7 - bit)) & 1 == 1 {
                    let c = self.screen.set_pixel(x0 + bit, y);
                    if c {
                        row_collision = true;
                    }
                }
                bit = bit + 1;
            }
            collision = collision || row_collision;
            row = row + 1;
        }
        if collision {
            self.variable_registers.set_vf();
        } else {
            self.variable_registers.clear_vf();
        }
        proof {
            assert(self@ =~= (MachineView {
                screen: spec_draw_rows(
                    old(self)@.screen,
                    old(self)@.ram,
                    old(self)@.index as int,
                    x0 as int,
                    y0 as int,
                    rows as int,
                ).0,
                regs: old(self)@.regs.update(
                    15,
                    if spec_draw_rows(
                        old(self)@.screen,
                        old(self)@.ram,
                        old(self)@.index as int,
                        x0 as int,
                        y0 as int,
                        rows as int,
                    ).1 {
                        1u8
                    } else {
                        0u8
                    },
                ),
                ..old(self)@
            }));
        }
        Ok(())
    }

    /// Copy registers `V0..=Vn` to memory starting at the index register; in
    /// legacy mode the index register is left advanced past the copied bytes.
    fn op_store_registers(&mut self, up_to_register: usize) -> (r: Result<(), MachineError>)
        requires
            old(self).wf(),
            up_to_register < 16,
        ensures
            final(self).wf(),
            (match spec_execute(
                old(self)@,
                Instruction::StoreRegisters { up_to_register },
                0,
            ) {
                Ok(v) => r == Ok::<(), MachineError>(()) && final(self)@ == v,
                Err(e) => r == Err::<(), MachineError>(e) && final(self)@ == old(self)@,
            }),
    {
        let count: u16 = up_to_register as u16 + 1;
        if self.index_register as usize + count as usize > MEMORY_SIZE {
            return Err(MachineError::MemoryOutOfRange);
        }
        let start: u16 = self.index_register;
        let mut k: u16 = 0;
        while k < count
            invariant
                old(self).wf(),
                up_to_register < 16,
                count == up_to_register + 1,
                start == old(self)@.index,
                start + count <= MEMORY_SIZE,
                k <= count,
                self@ == (MachineView { ram: self@.ram, ..old(self)@ }),
                self@.ram.len() == MEMORY_SIZE,
                forall|j: int| 0 <= j < k ==> self@.ram[start as int + j] == old(self)@.regs[j],
                forall|j: int|
                    0 <= j < MEMORY_SIZE && !(start as int <= j < start as int + k)
                        ==> self@.ram[j] == old(self)@.ram[j],
            decreases count - k,
        {
            let v = self.variable_registers.get(k as usize);
            self.ram.write(start + k, v);
            k = k + 1;
        }
        if matches!(self.mode, QuirkMode::Legacy) {
            self.index_register = start + count;
        }
        proof {
            assert(self@.ram =~= spec_store_regs(
                old(self)@.ram,
                old(self)@.regs,
                old(self)@.index as int,
                up_to_register + 1,
            ));
            assert(self@ =~= (MachineView {
                ram: spec_store_regs(
                    old(self)@.ram,
                    old(self)@.regs,
                    old(self)@.index as int,
                    up_to_register + 1,
                ),
                index: if old(self)@.mode == QuirkMode::Legacy {
                    (old(self)@.index + up_to_register + 1) as u16
                } else {
                    old(self)@.index
                },
                ..old(self)@
            }));
        }
        Ok(())
    }

    /// Copy memory starting at the index register into registers `V0..=Vn`;
    /// in legacy mode the index register is left advanced past the copied
    /// bytes.
    fn op_load_into_registers(&mut self, up_to_register: usize) -> (r: Result<(), MachineError>)
        requires
            old(self).wf(),
            up_to_register < 16,
        ensures
            final(self).wf(),
            (match spec_execute(
                old(self)@,
                Instruction::LoadIntoRegisters { up_to_register },
                0,
            ) {
                Ok(v) => r == Ok::<(), MachineError>(()) && final(self)@ == v,
                Err(e) => r == Err::<(), MachineError>(e) && final(self)@ == old(self)@,
            }),
    {
        let count: u16 = up_to_register as u16 + 1;
        if self.index_register as usize + count as usize > MEMORY_SIZE {
            return Err(MachineError::MemoryOutOfRange);
        }
        let start: u16 = self.index_register;
        let mut k: u16 = 0;
        while k < count
            invariant
                old(self).wf(),
                up_to_register < 16,
                count == up_to_register + 1,
                start == old(self)@.index,
                start + count <= MEMORY_SIZE,
                k <= count,
                self@ == (MachineView { regs: self@.regs, ..old(self)@ }),
                self@.regs.len() == 16,
                forall|j: int| 0 <= j < k ==> self@.regs[j] == old(self)@.ram[start as int + j],
                forall|j: int| k <= j < 16 ==> self@.regs[j] == old(self)@.regs[j],
            decreases count - k,
        {
            let v = self.ram.read(start + k);
            self.variable_registers.set(k as usize, v);
            k = k + 1;
        }
        if matches!(self.mode, QuirkMode::Legacy) {
            self.index_register = start + count;
        }
        proof {
            assert(self@.regs =~= spec_load_regs(
                old(self)@.regs,
                old(self)@.ram,
                old(self)@.index as int,
                up_to_register + 1,
            ));
            assert(self@ =~= (MachineView {
                regs: spec_load_regs(
                    old(self)@.regs,
                    old(self)@.ram,
                    old(self)@.index as int,
                    up_to_register + 1,
                ),
                index: if old(self)@.mode == QuirkMode::Legacy {
                    (old(self)@.index + up_to_register + 1) as u16
                } else {
                    old(self)@.index
                },
                ..old(self)@
            }));
        }
        Ok(())
    }

    /// Begin a wait-for-key: snapshot every held key to `AlreadyPressed`,
    /// discard any stale pressed-then-released event, and record the register
    /// that will receive the key.
    fn op_wait_for_key(&mut self, register: usize)
        requires
            old(self).wf(),
            register < 16,
        ensures
            final(self).wf(),
            (match spec_execute(old(self)@, Instruction::WaitForKey { register }, 0) {
                Ok(v) => final(self)@ == v,
                Err(e) => false,
            }),
    {
        let mut k: usize = 0;
        while k < 16
            invariant
                old(self).wf(),
                k <= 16,
                self@ == (MachineView { keys: self@.keys, ..old(self)@ }),
                self@.keys.len() == 16,
                forall|j: int| 0 <= j < k ==> self@.keys[j] == spec_wait_snapshot(old(self)@.keys[j]),
                forall|j: int| k <= j < 16 ==> self@.keys[j] == old(self)@.keys[j],
            decreases 16 - k,
        {
            let cur = self.input_handler.keys_state[k];
            if matches!(cur, KeyState::Pressed) {
                self.input_handler.keys_state[k] = KeyState::AlreadyPressed;
            }
            k = k + 1;
        }
        self.input_handler.waiting = Some(register);
        self.input_handler.pressed_and_released = None;
        proof {
            assert(self@.keys =~= old(self)@.keys.map_values(
                |s: KeyState| spec_wait_snapshot(s),
            ));
            assert(self@ =~= (MachineView {
                keys: old(self)@.keys.map_values(|s: KeyState| spec_wait_snapshot(s)),
                waiting: Some(register),
                released: None,
                ..old(self)@
            }));
        }
    }

    /// Apply one decoded instruction to the machine, with the program counter
    /// already advanced past it; `random_byte` is the byte drawn for
    /// `RandomAnd`. On an error nothing is committed: the machine is exactly
    /// as it was.
    pub fn execute(&mut self, instruction: Instruction, random_byte: u8) -> (r: Result<
        (),
        MachineError,
    >)
        requires
            old(self).wf(),
            old(self)@.pc <= MEMORY_SIZE,
            instruction.wf(),
        ensures
            final(self).wf(),
            (match spec_execute(old(self)@, instruction, random_byte) {
                Ok(v) => r == Ok::<(), MachineError>(()) && final(self)@ == v,
                Err(e) => r == Err::<(), MachineError>(e) && final(self)@ == old(self)@,
            }),
    {
        match instruction {
            Instruction::Call { address } => {
                self.stack.push(self.program_counter);
                self.program_counter = address;
                Ok(())
            },
            Instruction::Return => {
                match self.stack.pop() {
                    Some(address) => {
                        self.program_counter = address;
                        Ok(())
                    },
                    None => Err(MachineError::StackUnderflow),
                }
            },
            Instruction::Jump { address } => {
                self.program_counter = address;
                Ok(())
            },
            Instruction::JumpOffset { base_address, register } => {
                let r = match register {
                    Some(r) => r,
                    None => 0,
                };
                let offset = self.variable_registers.get(r);
                self.program_counter = base_address + offset as u16;
                Ok(())
            },
            Instruction::SkipEqualByte { register, byte } => {
                if self.variable_registers.get(register) == byte {
                    self.program_counter = self.program_counter + 2;
                }
                Ok(())
            },
            Instruction::SkipNotEqualByte { register, byte } => {
                if self.variable_registers.get(register) != byte {
                    self.program_counter = self.program_counter + 2;
                }
                Ok(())
            },
            Instruction::SkipEqualVariable { register_x, register_y } => {
                if self.variable_registers.get(register_x) == self.variable_registers.get(
                    register_y,
                ) {
                    self.program_counter = self.program_counter + 2;
                }
                Ok(())
            },
            Instruction::SkipNotEqualVariable { register_x, register_y } => {
                if self.variable_registers.get(register_x) != self.variable_registers.get(
                    register_y,
                ) {
                    self.program_counter = self.program_counter + 2;
                }
                Ok(())
            },
            Instruction::SkipKey { register } => {
                let kv = self.variable_registers.get(register);
                if kv >= 16 {
                    return Err(MachineError::MemoryOutOfRange);
                }
                let held = matches!(self.input_handler.keys_state[kv as usize], KeyState::Pressed);
                if held {
                    self.program_counter = self.program_counter + 2;
                }
                Ok(())
            },
            Instruction::SkipNotKey { register } => {
                let kv = self.variable_registers.get(register);
                if kv >= 16 {
                    return Err(MachineError::MemoryOutOfRange);
                }
                let held = matches!(self.input_handler.keys_state[kv as usize], KeyState::Pressed);
                if !held {
                    self.program_counter = self.program_counter + 2;
                }
                Ok(())
            },
            Instruction::SetWithByte { register, byte } => {
                self.variable_registers.set(register, byte);
                Ok(())
            },
            Instruction::SetWithVariable { register_x, register_y } => {
                let v = self.variable_registers.get(register_y);
                self.variable_registers.set(register_x, v);
                Ok(())
            },
            Instruction::SetIndexWithAddress { address } => {
                self.index_register = address;
                Ok(())
            },
            Instruction::SetIndexWithSpriteAddress { register } => {
                self.index_register = self.variable_registers.get(register) as u16 * 5;
                Ok(())
            },
            Instruction::AddWithByte { register, byte } => {
                let sum: u16 = self.variable_registers.get(register) as u16 + byte as u16;
                self.variable_registers.set(register, (sum % 256) as u8);
                Ok(())
            },
            Instruction::AddWithVariable { register_x, register_y } => {
                let sum: u16 = self.variable_registers.get(register_x) as u16
                    + self.variable_registers.get(register_y) as u16;
                self.variable_registers.set(register_x, (sum % 256) as u8);
                self.variable_registers.set_vf_to(
                    if sum > 255 {
                        1
                    } else {
                        0
                    },
                );
                Ok(())
            },
            Instruction::AddIndexWithVariable { register } => {
                let ni: u16 = self.index_register + self.variable_registers.get(register) as u16;
                if ni as usize >= MEMORY_SIZE {
                    return Err(MachineError::MemoryOutOfRange);
                }
                self.index_register = ni;
                Ok(())
            },
            Instruction::SubWithVariable { register_x, register_y } => {
                let vx = self.variable_registers.get(register_x);
                let vy = self.variable_registers.get(register_y);
                let value: u8 = if vx >= vy {
                    vx - vy
                } else {
                    (vx as u16 + 256 - vy as u16) as u8
                };
                self.variable_registers.set(register_x, value);
                self.variable_registers.set_vf_to(
                    if vx >= vy {
                        1
                    } else {
                        0
                    },
                );
                Ok(())
            },
            Instruction::SubWithVariableNot { register_x, register_y } => {
                let vx = self.variable_registers.get(register_x);
                let vy = self.variable_registers.get(register_y);
                let value: u8 = if vy >= vx {
                    vy - vx
                } else {
                    (vy as u16 + 256 - vx as u16) as u8
                };
                self.variable_registers.set(register_x, value);
                self.variable_registers.set_vf_to(
                    if vy >= vx {
                        1
                    } else {
                        0
                    },
                );
                Ok(())
            },
            Instruction::ShiftRight { register_x, register_y } => {
                let src = match register_y {
                    Some(y) => self.variable_registers.get(y),
                    None => self.variable_registers.get(register_x),
                };
                self.variable_registers.set(register_x, src >> 1);
                self.variable_registers.set_vf_to(src & 1);
                Ok(())
            },
            Instruction::ShiftLeft { register_x, register_y } => {
                let src = match register_y {
                    Some(y) => self.variable_registers.get(y),
                    None => self.variable_registers.get(register_x),
                };
                self.variable_registers.set(register_x, src << 1);
                self.variable_registers.set_vf_to((src & 0x80) >> 7);
                Ok(())
            },
            Instruction::Or { register_x, register_y } => {
                let v = self.variable_registers.get(register_x) | self.variable_registers.get(
                    register_y,
                );
                self.variable_registers.set(register_x, v);
                Ok(())
            },
            Instruction::And { register_x, register_y } => {
                let v = self.variable_registers.get(register_x) & self.variable_registers.get(
                    register_y,
                );
                self.variable_registers.set(register_x, v);
                Ok(())
            },
            Instruction::Xor { register_x, register_y } => {
                let v = self.variable_registers.get(register_x) ^ self.variable_registers.get(
                    register_y,
                );
                self.variable_registers.set(register_x, v);
                Ok(())
            },
            Instruction::ClearScreen => {
                self.screen.clear();
                proof {
                    assert(self@.screen =~= Seq::new(old(self)@.screen.len(), |i: int| false));
                }
                Ok(())
            },
            Instruction::Draw { register_x, register_y, n } => {
                let r = self.draw(register_x, register_y, n);
                proof {
                    assert(spec_execute(old(self)@, instruction, random_byte) == spec_execute(
                        old(self)@,
                        instruction,
                        0,
                    ));
                }
                r
            },
            Instruction::SetVariableWithDelayTimer { register } => {
                let v = self.delay_timer.value;
                self.variable_registers.set(register, v);
                Ok(())
            },
            Instruction::SetDelayTimer { register } => {
                self.delay_timer.value = self.variable_registers.get(register);
                Ok(())
            },
            Instruction::SetSoundTimer { register } => {
                self.sound_timer.value = self.variable_registers.get(register);
                Ok(())
            },
            Instruction::StoreRegisters { up_to_register } => {
                let r = self.op_store_registers(up_to_register);
                proof {
                    assert(spec_execute(old(self)@, instruction, random_byte) == spec_execute(
                        old(self)@,
                        instruction,
                        0,
                    ));
                }
                r
            },
            Instruction::LoadIntoRegisters { up_to_register } => {
                let r = self.op_load_into_registers(up_to_register);
                proof {
                    assert(spec_execute(old(self)@, instruction, random_byte) == spec_execute(
                        old(self)@,
                        instruction,
                        0,
                    ));
                }
                r
            },
            Instruction::StoreDecimalConversion { register } => {
                if self.index_register as usize + 3 > MEMORY_SIZE {
                    return Err(MachineError::MemoryOutOfRange);
                }
                let value = self.variable_registers.get(register);
                let hundreds = value / 100;
                let tens = (value / 10) % 10;
                let ones = value % 10;
                let start = self.index_register;
                self.ram.write(start, hundreds);
                self.ram.write(start + 1, tens);
                self.ram.write(start + 2, ones);
                Ok(())
            },
            Instruction::WaitForKey { register } => {
                self.op_wait_for_key(register);
                proof {
                    assert(spec_execute(old(self)@, instruction, random_byte) == spec_execute(
                        old(self)@,
                        instruction,
                        0,
                    ));
                }
                Ok(())
            },
            Instruction::RandomAnd { register, byte } => {
                self.variable_registers.set(register, random_byte & byte);
                Ok(())
            },
            Instruction::MachineRoutine { address } => Ok(()),
        }
    }

    /// Read the two instruction bytes at the program counter (big-endian) and
    /// advance it past them.
    fn fetch_instruction(&mut self) -> (op: u16)
        requires
            old(self).wf(),
            old(self)@.pc + 1 < MEMORY_SIZE,
        ensures
            final(self).wf(),
            op == spec_opcode_at(old(self)@),
            final(self)@ == (MachineView { pc: (old(self)@.pc + 2) as u16, ..old(self)@ }),
    {
        let hi = self.ram.read(self.program_counter);
        let lo = self.ram.read(self.program_counter + 1);
        self.program_counter = self.program_counter + 2;
        ((hi as u16) << 8) | (lo as u16)
    }

    /// One step with the random byte supplied by the caller: deterministic,
    /// so that every instruction - `RandomAnd` included - can be driven and
    /// checked from outside. A pending wait fetches nothing; an error commits
    /// nothing.
    pub fn step_with_random(&mut self, random_byte: u8) -> (r: Result<(), MachineError>)
        requires
            old(self).wf(),
        ensures
            final(self).wf(),
            (match spec_step(old(self)@, random_byte) {
                Ok(v) => r == Ok::<(), MachineError>(()) && final(self)@ == v,
                Err(e) => r == Err::<(), MachineError>(e) && final(self)@ == old(self)@,
            }),
    {
        if let Some(register) = self.input_handler.waiting {
            match self.input_handler.pressed_and_released {
                Some(key) => {
                    let v = key.value();
                    self.variable_registers.set(register, v);
                    self.input_handler.waiting = None;
                    self.input_handler.pressed_and_released = None;
                    return Ok(());
                },
                None => {
                    return Ok(());
                },
            }
        }
        if self.program_counter as usize + 1 >= MEMORY_SIZE {
            return Err(MachineError::MemoryOutOfRange);
        }
        let saved_pc = self.program_counter;
        let opcode = self.fetch_instruction();
        let instruction = match decode(opcode, self.mode) {
            Ok(i) => i,
            Err(_) => {
                self.program_counter = saved_pc;
                proof {
                    assert(self@ =~= old(self)@);
                }
                return Err(MachineError::DecodeFailed);
            },
        };
        match self.execute(instruction, random_byte) {
            Ok(()) => Ok(()),
            Err(e) => {
                self.program_counter = saved_pc;
                proof {
                    assert(self@ =~= old(self)@);
                }
                Err(e)
            },
        }
    }

    /// One step of the machine, drawing the `RandomAnd` byte from the
    /// operating system: some byte exists for which the deterministic step
    /// relation holds of the outcome.
    pub fn step(&mut self) -> (r: Result<(), MachineError>)
        requires
            old(self).wf(),
        ensures
            final(self).wf(),
            exists|rand: u8| #[trigger] spec_step_outcome(old(self)@, final(self)@, rand, r),
    {
        let rand = os_random_byte();
        let r = self.step_with_random(rand);
        proof {
            assert(spec_step_outcome(old(self)@, self@, rand, r));
        }
        r
    }

    /// One tick of the external timer clock on the chosen timer.
    pub fn tick_timer(&mut self, which: TimerSelector)
        requires
            old(self).wf(),
        ensures
            final(self).wf(),
            which == TimerSelector::Delay ==> final(self)@ == (MachineView {
                delay: Timer::spec_decrement(old(self)@.delay),
                ..old(self)@
            }),
            which == TimerSelector::Sound ==> final(self)@ == (MachineView {
                sound: Timer::spec_decrement(old(self)@.sound),
                ..old(self)@
            }),
    {
        match which {
            TimerSelector::Delay => self.delay_timer.decrement(),
            TimerSelector::Sound => self.sound_timer.decrement(),
        }
    }
}

} // verus!
