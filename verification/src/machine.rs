use crate::fault::{Fault, Progress, Trap};
use crate::font::FONTSET;
use crate::instruction::{spec_decode, Instruction};
use vstd::prelude::*;

verus! {

/// Bytes of memory.
pub const MEMORY_SIZE: usize = 4096;

/// Where programs are loaded and where execution starts.
pub const PROGRAM_START: u16 = 0x200;

/// The longest program that fits between `PROGRAM_START` and the end of memory.
pub const MAX_ROM_LEN: usize = 3584;

/// Pixels in a row of the display.
pub const DISPLAY_WIDTH: usize = 64;

/// Rows of the display.
pub const DISPLAY_HEIGHT: usize = 32;

/// Calls that can be outstanding at once.
pub const STACK_DEPTH: usize = 16;

/// The state of a CHIP-8 machine.
#[verifier::ext_equal]
pub struct Machine {
    /// Address of the next instruction.
    pub pc: u16,
    /// The index register `I`.
    pub index: u16,
    /// `V0..VF`. `VF` doubles as the flag that several instructions set.
    pub registers: Seq<u8>,
    /// The addresses of the outstanding calls, oldest first.
    pub stack: Seq<u16>,
    /// The 4096 bytes of memory.
    pub memory: Seq<u8>,
    /// The display, row by row: pixel (`x`, `y`) is entry `64 * y + x`.
    pub framebuffer: Seq<bool>,
    /// Which of the 16 keys are down.
    pub keys: Seq<bool>,
    /// Cycles left on the delay timer.
    pub delay_timer: u8,
    /// Cycles left on the sound timer.
    pub sound_timer: u8,
    /// Set when the display has changed; the host clears it.
    pub needs_redraw: bool,
    /// Set when the sound timer runs out; the host clears it.
    pub beep_requested: bool,
}

/// The integer `i` reduced to a byte.
pub open spec fn wrap8(i: int) -> u8 {
    (i % 0x100) as u8
}

/// The integer `i` reduced to 16 bits.
pub open spec fn wrap16(i: int) -> u16 {
    (i % 0x10000) as u16
}

/// The highest key below `n` that is down.
pub open spec fn highest_key_below(keys: Seq<bool>, n: int) -> Option<u8>
    decreases n,
{
    if n <= 0 {
        None
    } else if keys[n - 1] {
        Some((n - 1) as u8)
    } else {
        highest_key_below(keys, n - 1)
    }
}

impl Machine {
    /// Every part has its size, and every call on the stack was made by an
    /// instruction that lay within memory.
    pub open spec fn wf(self) -> bool {
        &&& self.registers.len() == 16
        &&& self.stack.len() <= 16
        &&& forall|i: int| 0 <= i < self.stack.len() ==> self.stack[i] + 1 < 4096
        &&& self.memory.len() == 4096
        &&& self.framebuffer.len() == 2048
        &&& self.keys.len() == 16
    }

    /// The machine at power-on: everything zero but the font at the bottom
    /// of memory, the program counter at `PROGRAM_START`, and a pending
    /// redraw so that the host paints the blank display.
    pub open spec fn initial() -> Machine {
        Machine {
            pc: 0x200,
            index: 0,
            registers: Seq::new(16, |i: int| 0u8),
            stack: Seq::empty(),
            memory: Seq::new(
                4096,
                |a: int|
                    if a < 80 {
                        FONTSET[a]
                    } else {
                        0u8
                    },
            ),
            framebuffer: Seq::new(2048, |i: int| false),
            keys: Seq::new(16, |i: int| false),
            delay_timer: 0,
            sound_timer: 0,
            needs_redraw: true,
            beep_requested: false,
        }
    }

    /// The machine with `rom` copied to `PROGRAM_START` and nothing else touched.
    pub open spec fn load(self, rom: Seq<u8>) -> Machine {
        Machine {
            memory: Seq::new(
                4096,
                |a: int|
                    if 0x200 <= a < 0x200 + rom.len() {
                        rom[a - 0x200]
                    } else {
                        self.memory[a]
                    },
            ),
            ..self
        }
    }

    /// The 16-bit word whose high byte is at `addr` and whose low byte follows it.
    pub open spec fn word_at(self, addr: int) -> u16 {
        (self.memory[addr] * 0x100 + self.memory[addr + 1]) as u16
    }

    /// The instruction word at the program counter, if both of its bytes lie
    /// within memory.
    pub open spec fn fetch(self) -> Option<u16> {
        if self.pc + 1 < 4096 {
            Some(self.word_at(self.pc as int))
        } else {
            None
        }
    }

    /// The value of register `x`.
    pub open spec fn v(self, x: u8) -> u8 {
        self.registers[x as int]
    }

    /// The machine with register `x` set to `value`.
    pub open spec fn set(self, x: u8, value: u8) -> Machine {
        Machine { registers: self.registers.update(x as int, value), ..self }
    }

    /// The machine with `VF` set to 1 if `flag` holds and to 0 if not.
    pub open spec fn set_flag(self, flag: bool) -> Machine {
        self.set(
            0xF,
            if flag {
                1
            } else {
                0
            },
        )
    }

    /// The machine with the program counter moved past this instruction.
    pub open spec fn next(self) -> Machine {
        Machine { pc: (self.pc + 2) as u16, ..self }
    }

    /// The machine with the program counter moved past this instruction, and
    /// past the one after it if `cond` holds.
    pub open spec fn skip_if(self, cond: bool) -> Machine {
        if cond {
            Machine { pc: (self.pc + 4) as u16, ..self }
        } else {
            self.next()
        }
    }

    /// Whether the sprite of `rows` rows at `I`, drawn with its top left
    /// corner at (`left`, `top`), has a set bit on pixel (`px`, `py`). Row
    /// `r` of the sprite is the byte at `I + r`, its leftmost pixel the
    /// highest bit.
    pub open spec fn sprite_covers(self, left: u8, top: u8, rows: u8, px: int, py: int) -> bool {
        let col = px - left;
        let row = py - top;
        &&& 0 <= col < 8
        &&& 0 <= row < rows
        &&& self.memory[self.index + row] & (0x80u8 >> (col as u8)) != 0
    }

    /// Whether drawing the sprite at (`left`, `top`) toggles display cell `p`.
    pub open spec fn sprite_hits(self, left: u8, top: u8, rows: u8, p: int) -> bool {
        self.sprite_covers(left, top, rows, p % 64, p / 64)
    }

    /// Whether drawing the sprite at (`left`, `top`) turns a lit pixel off.
    pub open spec fn sprite_collides(self, left: u8, top: u8, rows: u8) -> bool {
        exists|p: int|
            0 <= p < 2048 && self.framebuffer[p] && #[trigger] self.sprite_hits(left, top, rows, p)
    }

    /// The display after the sprite is drawn at (`left`, `top`): each pixel
    /// under a set bit of the sprite is toggled. Sprite pixels that fall
    /// outside the 64x32 grid are lost.
    pub open spec fn sprite_drawn(self, left: u8, top: u8, rows: u8) -> Seq<bool> {
        Seq::new(2048, |p: int| self.framebuffer[p] != self.sprite_hits(left, top, rows, p))
    }

    /// The highest key that is down, if any is.
    pub open spec fn key_down(self) -> Option<u8> {
        highest_key_below(self.keys, 16)
    }

    /// Why `instr` cannot be carried out in this state, if it cannot.
    pub open spec fn trap(self, instr: Instruction) -> Option<Trap> {
        match instr {
            Instruction::Return => if self.stack.len() == 0 {
                Some(Trap::StackUnderflow)
            } else {
                None
            },
            Instruction::Call { addr } => if self.stack.len() >= 16 {
                Some(Trap::StackOverflow)
            } else {
                None
            },
            Instruction::Draw { x, y, rows } => if rows > 0 && self.index + rows > 4096 {
                Some(Trap::MemoryOutOfRange)
            } else {
                None
            },
            Instruction::SkipKeyDown { x } | Instruction::SkipKeyUp { x } => if self.v(x) >= 16 {
                Some(Trap::KeyOutOfRange)
            } else {
                None
            },
            Instruction::StoreBcd { x } => if self.index + 2 >= 4096 {
                Some(Trap::MemoryOutOfRange)
            } else {
                None
            },
            Instruction::StoreRegisters { x } | Instruction::LoadRegisters { x } => if self.index
                + x >= 4096 {
                Some(Trap::MemoryOutOfRange)
            } else {
                None
            },
            _ => None,
        }
    }

    /// The machine after `instr`, where `instr` does not trap. An
    /// instruction that sets the flag writes `VF` before it writes its
    /// result, and computes the result from the registers as they then are.
    pub open spec fn execute(self, instr: Instruction, random: u8) -> Machine {
        match instr {
            Instruction::ClearScreen => Machine {
                framebuffer: Seq::new(2048, |p: int| false),
                needs_redraw: true,
                ..self
            }.next(),
            Instruction::Return => Machine {
                pc: (self.stack.last() + 2) as u16,
                stack: self.stack.drop_last(),
                ..self
            },
            Instruction::Jump { addr } => Machine { pc: addr, ..self },
            Instruction::Call { addr } => Machine {
                pc: addr,
                stack: self.stack.push(self.pc),
                ..self
            },
            Instruction::SkipEqImm { x, nn } => self.skip_if(self.v(x) == nn),
            Instruction::SkipNeImm { x, nn } => self.skip_if(self.v(x) != nn),
            Instruction::SkipEqReg { x, y } => self.skip_if(self.v(x) == self.v(y)),
            Instruction::LoadImm { x, nn } => self.set(x, nn).next(),
            Instruction::AddImm { x, nn } => self.set(x, wrap8(self.v(x) + nn)).next(),
            Instruction::Move { x, y } => self.set(x, self.v(y)).next(),
            Instruction::Or { x, y } => self.set(x, self.v(x) | self.v(y)).next(),
            Instruction::And { x, y } => self.set(x, self.v(x) & self.v(y)).next(),
            Instruction::Xor { x, y } => self.set(x, self.v(x) ^ self.v(y)).next(),
            Instruction::Add { x, y } => {
                let flagged = self.set_flag(self.v(x) + self.v(y) > 0xFF);
                flagged.set(x, wrap8(flagged.v(x) + flagged.v(y))).next()
            },
            Instruction::Sub { x, y } => {
                let flagged = self.set_flag(self.v(x) >= self.v(y));
                flagged.set(x, wrap8(flagged.v(x) - flagged.v(y))).next()
            },
            Instruction::ShiftRight { x } => {
                let flagged = self.set_flag(self.v(x) % 2 == 1);
                flagged.set(x, flagged.v(x) / 2).next()
            },
            Instruction::SubFrom { x, y } => {
                let flagged = self.set_flag(self.v(y) >= self.v(x));
                flagged.set(x, wrap8(flagged.v(y) - flagged.v(x))).next()
            },
            Instruction::ShiftLeft { x } => {
                let flagged = self.set_flag(self.v(x) >= 0x80);
                flagged.set(x, wrap8(flagged.v(x) * 2)).next()
            },
            Instruction::SkipNeReg { x, y } => self.skip_if(self.v(x) != self.v(y)),
            Instruction::LoadIndex { addr } => Machine { index: addr, ..self }.next(),
            Instruction::JumpOffset { addr } => Machine { pc: wrap16(addr + self.v(0)), ..self },
            Instruction::Random { x, nn } => self.set(x, random & nn).next(),
            Instruction::Draw { x, y, rows } => Machine {
                framebuffer: self.sprite_drawn(self.v(x), self.v(y), rows),
                needs_redraw: true,
                ..self
            }.set_flag(self.sprite_collides(self.v(x), self.v(y), rows)).next(),
            Instruction::SkipKeyDown { x } => self.skip_if(self.keys[self.v(x) as int]),
            Instruction::SkipKeyUp { x } => self.skip_if(!self.keys[self.v(x) as int]),
            Instruction::LoadDelay { x } => self.set(x, self.delay_timer).next(),
            Instruction::WaitKey { x } => match self.key_down() {
                Some(key) => self.set(x, key).next(),
                None => self,
            },
            Instruction::SetDelay { x } => Machine { delay_timer: self.v(x), ..self }.next(),
            Instruction::SetSound { x } => Machine { sound_timer: self.v(x), ..self }.next(),
            Instruction::AddIndex { x } => {
                let sum = wrap16(self.index + self.v(x));
                Machine { index: sum, ..self }.set_flag(sum > 0xFFF).next()
            },
            Instruction::LoadGlyph { x } => Machine { index: (self.v(x) * 5) as u16, ..self }.next(),
            Instruction::StoreBcd { x } => Machine {
                memory: self.memory.update(self.index as int, self.v(x) / 100).update(
                    self.index + 1,
                    (self.v(x) / 10) % 10,
                ).update(self.index + 2, self.v(x) % 10),
                ..self
            }.next(),
            Instruction::StoreRegisters { x } => Machine {
                memory: Seq::new(
                    4096,
                    |a: int|
                        if self.index <= a <= self.index + x {
                            self.registers[a - self.index]
                        } else {
                            self.memory[a]
                        },
                ),
                index: wrap16(self.index + x + 1),
                ..self
            }.next(),
            Instruction::LoadRegisters { x } => Machine {
                registers: Seq::new(
                    16,
                    |i: int|
                        if i <= x {
                            self.memory[self.index + i]
                        } else {
                            self.registers[i]
                        },
                ),
                index: wrap16(self.index + x + 1),
                ..self
            }.next(),
        }
    }

    /// Whether `instr` leaves the program counter on itself to be tried again.
    pub open spec fn stalls(self, instr: Instruction) -> bool {
        instr is WaitKey && self.key_down() is None
    }

    /// The machine after the timers have counted down once. The beep is
    /// requested when the sound timer goes from 1 to 0.
    pub open spec fn tick(self) -> Machine {
        Machine {
            delay_timer: if self.delay_timer > 0 {
                (self.delay_timer - 1) as u8
            } else {
                0
            },
            sound_timer: if self.sound_timer > 0 {
                (self.sound_timer - 1) as u8
            } else {
                0
            },
            beep_requested: self.beep_requested || self.sound_timer == 1,
            ..self
        }
    }

    /// One cycle: fetch, decode, execute, tick. `random` is the byte that a
    /// random instruction uses.
    pub open spec fn cycle(self, random: u8) -> Result<Machine, Fault> {
        match self.fetch() {
            None => Err(Fault::FetchOutOfRange { address: self.pc }),
            Some(opcode) => match spec_decode(opcode) {
                None => Err(Fault::UnknownOpcode { opcode, address: self.pc }),
                Some(instr) => match self.trap(instr) {
                    Some(trap) => Err(Fault::Trapped { trap, opcode, address: self.pc }),
                    None => Ok(self.execute(instr, random).tick()),
                },
            },
        }
    }

    /// What a cycle that succeeds reports.
    pub open spec fn progress(self) -> Progress {
        if self.fetch() matches Some(opcode) && spec_decode(opcode) matches Some(instr)
            && self.stalls(instr) {
            Progress::AwaitingKey
        } else {
            Progress::Executed
        }
    }

    /// Whether a cycle that draws `random` may end with the result `res` and
    /// the machine `after`: on success the machine that `cycle` gives, on a
    /// fault the machine unchanged.
    pub open spec fn cycle_yields(
        self,
        random: u8,
        res: Result<Progress, Fault>,
        after: Machine,
    ) -> bool {
        match self.cycle(random) {
            Ok(next) => res == Ok::<Progress, Fault>(self.progress()) && after == next,
            Err(fault) => res == Err::<Progress, Fault>(fault) && after == self,
        }
    }

    /// Whether the instruction at the program counter asks for a random byte.
    pub open spec fn wants_random(self) -> bool {
        self.fetch() matches Some(opcode) && spec_decode(opcode) matches Some(instr)
            && instr is Random
    }
}

} // verus!
