use crate::entropy::random_byte;
use crate::fault::{Fault, Progress, Trap};
use crate::instruction::{decode, Instruction};
use crate::laws::cycle_keeps_well_formed;
use crate::machine::{highest_key_below, wrap16, Machine, MEMORY_SIZE, STACK_DEPTH};
use crate::vm::VM;
use vstd::prelude::*;

verus! {

impl VM {
    /// Reads the instruction word at the program counter.
    pub(crate) fn fetch(&self) -> (word: Option<u16>)
        ensures
            word == self@.fetch(),
            self@.wf(),
    {
        let pc = self.program_counter() as usize;
        if pc + 1 < MEMORY_SIZE {
            let high = self.read(pc);
            let low = self.read(pc + 1);
            assert((high as u16) << 8 | (low as u16) == (high as u16) * 0x100 + (low as u16))
                by (bit_vector);
            Some((high as u16) << 8 | (low as u16))
        } else {
            None
        }
    }

    /// Whether the instruction at the program counter asks for a random byte.
    fn wants_random(&self) -> (wanted: bool)
        ensures
            wanted == self@.wants_random(),
    {
        match self.fetch() {
            Some(opcode) => match decode(opcode) {
                Some(Instruction::Random { .. }) => true,
                _ => false,
            },
            None => false,
        }
    }

    /// Says why `instr` cannot be carried out, if it cannot.
    fn check(&self, instr: Instruction) -> (trap: Option<Trap>)
        requires
            self@.wf(),
            instr.wf(),
        ensures
            trap == self@.trap(instr),
    {
        let index = self.index_register() as usize;
        match instr {
            Instruction::Return => if self.stack_pointer() == 0 {
                Some(Trap::StackUnderflow)
            } else {
                None
            },
            Instruction::Call { .. } => if self.stack_pointer() >= STACK_DEPTH {
                Some(Trap::StackOverflow)
            } else {
                None
            },
            Instruction::Draw { rows, .. } => if rows > 0 && index + rows as usize > MEMORY_SIZE {
                Some(Trap::MemoryOutOfRange)
            } else {
                None
            },
            Instruction::SkipKeyDown { x } | Instruction::SkipKeyUp { x } => if self.reg(x) >= 16 {
                Some(Trap::KeyOutOfRange)
            } else {
                None
            },
            Instruction::StoreBcd { .. } => if index + 2 >= MEMORY_SIZE {
                Some(Trap::MemoryOutOfRange)
            } else {
                None
            },
            Instruction::StoreRegisters { x } | Instruction::LoadRegisters { x } => if index
                + x as usize >= MEMORY_SIZE {
                Some(Trap::MemoryOutOfRange)
            } else {
                None
            },
            _ => None,
        }
    }

    /// Moves the program counter to the next instruction.
    fn advance(&mut self)
        requires
            old(self)@.pc + 1 < 4096,
        ensures
            final(self)@ == old(self)@.next(),
    {
        let pc = self.program_counter();
        self.set_pc(pc + 2);
    }

    /// Moves the program counter to the next instruction, or to the one
    /// after it if `cond` holds.
    fn skip_if(&mut self, cond: bool)
        requires
            old(self)@.pc + 1 < 4096,
        ensures
            final(self)@ == old(self)@.skip_if(cond),
    {
        let pc = self.program_counter();
        if cond {
            self.set_pc(pc + 4);
        } else {
            self.set_pc(pc + 2);
        }
    }

    /// Scans the keypad from key 0 to key F and keeps the last key found down.
    fn key_down(&self) -> (found: Option<u8>)
        ensures
            found == self@.key_down(),
    {
        let mut found: Option<u8> = None;
        let mut key: u8 = 0;
        while key < 16
            invariant
                key <= 16,
                found == highest_key_below(self@.keys, key as int),
            decreases 16 - key,
        {
            if self.key_is_down(key) {
                found = Some(key);
            }
            key += 1;
        }
        found
    }

    /// Writes the hundreds, tens and ones of `VX` to `I`, `I+1`, `I+2`.
    fn store_bcd(&mut self, x: u8)
        requires
            x < 16,
            old(self)@.index + 2 < 4096,
        ensures
            final(self)@ == (Machine {
                memory: old(self)@.memory.update(
                    old(self)@.index as int,
                    old(self)@.v(x) / 100,
                ).update(old(self)@.index + 1, (old(self)@.v(x) / 10) % 10).update(
                    old(self)@.index + 2,
                    old(self)@.v(x) % 10,
                ),
                ..old(self)@
            }),
    {
        let index = self.index_register() as usize;
        let value = self.reg(x);
        self.write(index, value / 100);
        self.write(index + 1, (value / 10) % 10);
        self.write(index + 2, (value % 100) % 10);
    }

    /// Copies `V0..=VX` to memory from `I` on, then moves `I` past the copy.
    fn store_registers(&mut self, x: u8)
        requires
            old(self)@.wf(),
            x < 16,
            old(self)@.index + x < 4096,
        ensures
            final(self)@ == (Machine {
                memory: Seq::new(
                    4096,
                    |a: int|
                        if old(self)@.index <= a <= old(self)@.index + x {
                            old(self)@.registers[a - old(self)@.index]
                        } else {
                            old(self)@.memory[a]
                        },
                ),
                index: wrap16(old(self)@.index + x + 1),
                ..old(self)@
            }),
    {
        let index = self.index_register();
        let ghost before = self@;
        let mut i: u8 = 0;
        while i <= x
            invariant
                i <= x + 1,
                x < 16,
                before.wf(),
                index == before.index,
                index + x < 4096,
                self@ == (Machine { memory: self@.memory, ..before }),
                self@.memory.len() == 4096,
                forall|a: int|
                    0 <= a < 4096 ==> self@.memory[a] == if index <= a < index + i {
                        before.registers[a - index]
                    } else {
                        before.memory[a]
                    },
            decreases x + 1 - i,
        {
            let value = self.reg(i);
            self.write(index as usize + i as usize, value);
            i += 1;
        }
        self.set_index(index.wrapping_add(x as u16 + 1));
        assert(self@.memory =~= Seq::new(
            4096,
            |a: int|
                if before.index <= a <= before.index + x {
                    before.registers[a - before.index]
                } else {
                    before.memory[a]
                },
        ));
    }

    /// Fills `V0..=VX` from memory at `I` on, then moves `I` past what was read.
    fn load_registers(&mut self, x: u8)
        requires
            old(self)@.wf(),
            x < 16,
            old(self)@.index + x < 4096,
        ensures
            final(self)@ == (Machine {
                registers: Seq::new(
                    16,
                    |i: int|
                        if i <= x {
                            old(self)@.memory[old(self)@.index + i]
                        } else {
                            old(self)@.registers[i]
                        },
                ),
                index: wrap16(old(self)@.index + x + 1),
                ..old(self)@
            }),
    {
        let index = self.index_register();
        let ghost before = self@;
        let mut i: u8 = 0;
        while i <= x
            invariant
                i <= x + 1,
                x < 16,
                before.wf(),
                index == before.index,
                index + x < 4096,
                self@ == (Machine { registers: self@.registers, ..before }),
                self@.registers.len() == 16,
                forall|r: int|
                    0 <= r < 16 ==> self@.registers[r] == if r < i {
                        before.memory[index + r]
                    } else {
                        before.registers[r]
                    },
            decreases x + 1 - i,
        {
            let value = self.read(index as usize + i as usize);
            self.set_reg(i, value);
            i += 1;
        }
        self.set_index(index.wrapping_add(x as u16 + 1));
        assert(self@.registers =~= Seq::new(
            16,
            |i: int|
                if i <= x {
                    before.memory[before.index + i]
                } else {
                    before.registers[i]
                },
        ));
    }

    /// `VX += VY`, with the carry in `VF`.
    fn add_registers(&mut self, x: u8, y: u8)
        requires
            x < 16,
            y < 16,
            old(self)@.pc + 1 < 4096,
        ensures
            final(self)@ == old(self)@.execute(Instruction::Add { x, y }, 0),
    {
        let carry = self.reg(y) > 0xFF - self.reg(x);
        self.set_flag(carry);
        let value = self.reg(x).wrapping_add(self.reg(y));
        self.set_reg(x, value);
        self.advance();
    }

    /// `VX -= VY`, with `VF` clear on a borrow and set otherwise.
    fn sub_registers(&mut self, x: u8, y: u8)
        requires
            x < 16,
            y < 16,
            old(self)@.pc + 1 < 4096,
        ensures
            final(self)@ == old(self)@.execute(Instruction::Sub { x, y }, 0),
    {
        let borrow = self.reg(y) > self.reg(x);
        self.set_flag(!borrow);
        let value = self.reg(x).wrapping_sub(self.reg(y));
        self.set_reg(x, value);
        self.advance();
    }

    /// `VX = VY - VX`, with `VF` clear on a borrow and set otherwise.
    fn sub_from_register(&mut self, x: u8, y: u8)
        requires
            x < 16,
            y < 16,
            old(self)@.pc + 1 < 4096,
        ensures
            final(self)@ == old(self)@.execute(Instruction::SubFrom { x, y }, 0),
    {
        let borrow = self.reg(x) > self.reg(y);
        self.set_flag(!borrow);
        let value = self.reg(y).wrapping_sub(self.reg(x));
        self.set_reg(x, value);
        self.advance();
    }

    /// `VF` = lowest bit of `VX`, then `VX >>= 1`.
    fn shift_right(&mut self, x: u8)
        requires
            x < 16,
            old(self)@.pc + 1 < 4096,
        ensures
            final(self)@ == old(self)@.execute(Instruction::ShiftRight { x }, 0),
    {
        let value = self.reg(x);
        assert((value & 0x1 != 0) == (value % 2 == 1)) by (bit_vector);
        self.set_flag(value & 0x1 != 0);
        let value = self.reg(x);
        assert(value >> 1 == value / 2) by (bit_vector);
        self.set_reg(x, value >> 1);
        self.advance();
    }

    /// `VF` = highest bit of `VX`, then `VX <<= 1`.
    fn shift_left(&mut self, x: u8)
        requires
            x < 16,
            old(self)@.pc + 1 < 4096,
        ensures
            final(self)@ == old(self)@.execute(Instruction::ShiftLeft { x }, 0),
    {
        let value = self.reg(x);
        assert((value >> 7 != 0) == (value >= 0x80)) by (bit_vector);
        self.set_flag(value >> 7 != 0);
        let value = self.reg(x);
        assert(value << 1 == (value * 2) % 0x100) by (bit_vector);
        self.set_reg(x, value << 1);
        self.advance();
    }

    /// Carries out the instructions of family F.
    fn execute_misc(&mut self, instr: Instruction)
        requires
            old(self)@.wf(),
            instr.wf(),
            old(self)@.pc + 1 < 4096,
            old(self)@.trap(instr) is None,
            instr is LoadDelay || instr is WaitKey || instr is SetDelay || instr is SetSound
                || instr is AddIndex || instr is LoadGlyph || instr is StoreBcd
                || instr is StoreRegisters || instr is LoadRegisters,
        ensures
            final(self)@ == old(self)@.execute(instr, 0),
    {
        match instr {
            Instruction::LoadDelay { x } => {
                let ticks = self.delay_timer();
                self.set_reg(x, ticks);
                self.advance();
            },
            Instruction::WaitKey { x } => {
                if let Some(key) = self.key_down() {
                    self.set_reg(x, key);
                    self.advance();
                }
            },
            Instruction::SetDelay { x } => {
                let ticks = self.reg(x);
                self.set_delay_timer(ticks);
                self.advance();
            },
            Instruction::SetSound { x } => {
                let ticks = self.reg(x);
                self.set_sound_timer(ticks);
                self.advance();
            },
            Instruction::AddIndex { x } => {
                let sum = self.index_register().wrapping_add(self.reg(x) as u16);
                self.set_flag(sum > 0xFFF);
                self.set_index(sum);
                self.advance();
            },
            Instruction::LoadGlyph { x } => {
                let glyph = self.reg(x) as u16 * 5;
                self.set_index(glyph);
                self.advance();
            },
            Instruction::StoreBcd { x } => {
                self.store_bcd(x);
                self.advance();
            },
            Instruction::StoreRegisters { x } => {
                self.store_registers(x);
                self.advance();
            },
            Instruction::LoadRegisters { x } => {
                self.load_registers(x);
                self.advance();
            },
            _ => {},
        }
    }

    /// Carries out `instr`, with `random` as the byte that a random
    /// instruction uses.
    pub(crate) fn execute(&mut self, instr: Instruction, random: u8) -> (progress: Progress)
        requires
            old(self)@.wf(),
            instr.wf(),
            old(self)@.pc + 1 < 4096,
            old(self)@.trap(instr) is None,
        ensures
            final(self)@ == old(self)@.execute(instr, random),
            progress == if old(self)@.stalls(instr) {
                Progress::AwaitingKey
            } else {
                Progress::Executed
            },
    {
        match instr {
            Instruction::ClearScreen => {
                self.blank_display();
                self.request_redraw();
                self.advance();
            },
            Instruction::Return => {
                let addr = self.pop();
                self.set_pc(addr + 2);
            },
            Instruction::Jump { addr } => {
                self.set_pc(addr);
            },
            Instruction::Call { addr } => {
                let pc = self.program_counter();
                self.push(pc);
                self.set_pc(addr);
            },
            Instruction::SkipEqImm { x, nn } => {
                let cond = self.reg(x) == nn;
                self.skip_if(cond);
            },
            Instruction::SkipNeImm { x, nn } => {
                let cond = self.reg(x) != nn;
                self.skip_if(cond);
            },
            Instruction::SkipEqReg { x, y } => {
                let cond = self.reg(x) == self.reg(y);
                self.skip_if(cond);
            },
            Instruction::LoadImm { x, nn } => {
                self.set_reg(x, nn);
                self.advance();
            },
            Instruction::AddImm { x, nn } => {
                let value = self.reg(x).wrapping_add(nn);
                self.set_reg(x, value);
                self.advance();
            },
            Instruction::SkipNeReg { x, y } => {
                let cond = self.reg(x) != self.reg(y);
                self.skip_if(cond);
            },
            Instruction::LoadIndex { addr } => {
                self.set_index(addr);
                self.advance();
            },
            Instruction::JumpOffset { addr } => {
                let target = addr.wrapping_add(self.reg(0) as u16);
                self.set_pc(target);
            },
            Instruction::Random { x, nn } => {
                self.set_reg(x, random & nn);
                self.advance();
            },
            Instruction::Draw { x, y, rows } => {
                let left = self.reg(x);
                let top = self.reg(y);
                let collision = self.draw_sprite(left, top, rows);
                self.request_redraw();
                self.set_flag(collision);
                self.advance();
            },
            Instruction::SkipKeyDown { x } => {
                let down = self.key_is_down(self.reg(x));
                self.skip_if(down);
            },
            Instruction::SkipKeyUp { x } => {
                let down = self.key_is_down(self.reg(x));
                self.skip_if(!down);
            },
            Instruction::Move { x, y } => {
                let value = self.reg(y);
                self.set_reg(x, value);
                self.advance();
            },
            Instruction::Or { x, y } => {
                let value = self.reg(x) | self.reg(y);
                self.set_reg(x, value);
                self.advance();
            },
            Instruction::And { x, y } => {
                let value = self.reg(x) & self.reg(y);
                self.set_reg(x, value);
                self.advance();
            },
            Instruction::Xor { x, y } => {
                let value = self.reg(x) ^ self.reg(y);
                self.set_reg(x, value);
                self.advance();
            },
            Instruction::Add { x, y } => {
                self.add_registers(x, y);
            },
            Instruction::Sub { x, y } => {
                self.sub_registers(x, y);
            },
            Instruction::ShiftRight { x } => {
                self.shift_right(x);
            },
            Instruction::SubFrom { x, y } => {
                self.sub_from_register(x, y);
            },
            Instruction::ShiftLeft { x } => {
                self.shift_left(x);
            },
            Instruction::WaitKey { .. } => {
                let waiting = self.key_down().is_none();
                self.execute_misc(instr);
                if waiting {
                    return Progress::AwaitingKey;
                }
            },
            _ => {
                self.execute_misc(instr);
            },
        }
        Progress::Executed
    }

    /// Runs one cycle with `random` as the byte that a random instruction
    /// uses: fetches the instruction at the program counter, decodes it,
    /// carries it out and counts the timers down. On a fault the machine is
    /// left as it was.
    pub fn emulate_cycle_with(&mut self, random: u8) -> (res: Result<Progress, Fault>)
        ensures
            old(self)@.cycle_yields(random, res, final(self)@),
            final(self)@.wf(),
    {
        let address = self.program_counter();
        let opcode = match self.fetch() {
            Some(opcode) => opcode,
            None => {
                return Err(Fault::FetchOutOfRange { address });
            },
        };
        let instr = match decode(opcode) {
            Some(instr) => instr,
            None => {
                return Err(Fault::UnknownOpcode { opcode, address });
            },
        };
        if let Some(trap) = self.check(instr) {
            return Err(Fault::Trapped { trap, opcode, address });
        }
        let progress = self.execute(instr, random);
        self.tick_timers();
        proof {
            cycle_keeps_well_formed(old(self)@, random);
        }
        Ok(progress)
    }

    /// Runs one cycle. A random instruction draws its byte from `rand`'s
    /// generator; every other instruction does exactly what
    /// `emulate_cycle_with` does, whatever byte that is given.
    pub fn emulate_cycle(&mut self) -> (res: Result<Progress, Fault>)
        ensures
            exists|random: u8| #[trigger] old(self)@.cycle_yields(random, res, final(self)@),
            !old(self)@.wants_random() ==> forall|random: u8| #[trigger]
                old(self)@.cycle_yields(random, res, final(self)@),
            final(self)@.wf(),
    {
        let random = if self.wants_random() {
            random_byte()
        } else {
            0
        };
        self.emulate_cycle_with(random)
    }
}

} // verus!
