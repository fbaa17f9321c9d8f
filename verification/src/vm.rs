use crate::fault::Fault;
use crate::font::{FONTSET, FONT_LEN};
use crate::machine::{Machine, MAX_ROM_LEN, PROGRAM_START};
use vstd::prelude::*;

verus! {

/// An executable CHIP-8 machine. Its view is the [`Machine`] that it stands
/// for; the fields are private, so a `VM` is always in a state that `new`
/// and the operations below can reach.
pub struct VM {
    pc: u16,
    ir: u16,
    sp: usize,
    v: [u8; 16],
    stack: [u16; 16],
    memory: [u8; 4096],
    gfx: [bool; 2048],
    key: [bool; 16],
    delay_timer: u8,
    sound_timer: u8,
    draw_flag: bool,
    beep_flag: bool,
}

impl View for VM {
    type V = Machine;

    closed spec fn view(&self) -> Machine {
        Machine {
            pc: self.pc,
            index: self.ir,
            registers: self.v@,
            stack: self.stack@.take(self.sp as int),
            memory: self.memory@,
            framebuffer: self.gfx@,
            keys: self.key@,
            delay_timer: self.delay_timer,
            sound_timer: self.sound_timer,
            needs_redraw: self.draw_flag,
            beep_requested: self.beep_flag,
        }
    }
}

impl VM {
    /// The slots below the stack pointer hold the outstanding calls.
    #[verifier::type_invariant]
    spec fn inv(self) -> bool {
        &&& self.sp <= 16
        &&& forall|i: int| 0 <= i < self.sp ==> self.stack[i] + 1 < 4096
    }

    /// A machine at power-on.
    pub fn new() -> (vm: VM)
        ensures
            vm@ == Machine::initial(),
            vm@.wf(),
    {
        let mut vm = VM {
            pc: PROGRAM_START,
            ir: 0,
            sp: 0,
            v: [0; 16],
            stack: [0; 16],
            memory: [0; 4096],
            gfx: [false; 2048],
            key: [false; 16],
            delay_timer: 0,
            sound_timer: 0,
            draw_flag: true,
            beep_flag: false,
        };
        let ghost blank = vm;
        let mut i: usize = 0;
        while i < FONT_LEN
            invariant
                i <= 80,
                vm == (VM { memory: vm.memory, ..blank }),
                blank.sp == 0,
                forall|a: int| 0 <= a < i ==> vm.memory[a] == FONTSET[a],
                forall|a: int| i <= a < 4096 ==> vm.memory[a] == 0,
            decreases 80 - i,
        {
            vm.memory[i] = FONTSET[i];
            i += 1;
        }
        assert(vm@.memory =~= Machine::initial().memory);
        assert(vm@ =~= Machine::initial());
        vm
    }

    /// Copies `rom` into memory from `PROGRAM_START` on. A program of more
    /// than `MAX_ROM_LEN` bytes is refused, and nothing is copied.
    pub fn load_application(&mut self, rom: &[u8]) -> (res: Result<(), Fault>)
        ensures
            match res {
                Ok(()) => rom@.len() <= MAX_ROM_LEN && final(self)@ == old(self)@.load(rom@),
                Err(fault) => rom@.len() > MAX_ROM_LEN && fault == (Fault::RomTooLarge {
                    len: rom@.len() as usize,
                }) && final(self)@ == old(self)@,
            },
            final(self)@.wf(),
    {
        proof {
            use_type_invariant(&*self);
        }
        let len = rom.len();
        if len > MAX_ROM_LEN {
            return Err(Fault::RomTooLarge { len });
        }
        let ghost before = *self;
        let mut i: usize = 0;
        while i < len
            invariant
                i <= len,
                len == rom@.len(),
                len <= 3584,
                *self == (VM { memory: self.memory, ..before }),
                before.inv(),
                forall|a: int|
                    0 <= a < 4096 ==> self.memory[a] == if 0x200 <= a < 0x200 + i {
                        rom@[a - 0x200]
                    } else {
                        before.memory[a]
                    },
            decreases len - i,
        {
            self.memory[i + 0x200] = rom[i];
            i += 1;
        }
        assert(self@.memory =~= before@.load(rom@).memory);
        assert(self@ =~= before@.load(rom@));
        Ok(())
    }
}

/// What the host reads and sets between cycles.
impl VM {
    /// Address of the next instruction.
    pub fn program_counter(&self) -> (pc: u16)
        ensures
            pc == self@.pc,
            self@.wf(),
    {
        proof {
            use_type_invariant(self);
        }
        self.pc
    }

    /// The index register `I`.
    pub fn index_register(&self) -> (index: u16)
        ensures
            index == self@.index,
    {
        self.ir
    }

    /// The registers `V0..VF`.
    pub fn registers(&self) -> (registers: [u8; 16])
        ensures
            registers@ == self@.registers,
    {
        self.v
    }

    /// The number of outstanding calls.
    pub fn stack_pointer(&self) -> (depth: usize)
        ensures
            depth == self@.stack.len(),
            depth <= 16,
    {
        proof {
            use_type_invariant(self);
        }
        self.sp
    }

    /// The 4096 bytes of memory.
    pub fn memory(&self) -> (memory: &[u8; 4096])
        ensures
            memory@ == self@.memory,
    {
        &self.memory
    }

    /// The display, row by row: pixel (`x`, `y`) is entry `64 * y + x`.
    pub fn framebuffer(&self) -> (cells: &[bool; 2048])
        ensures
            cells@ == self@.framebuffer,
    {
        &self.gfx
    }

    /// Which keys are down.
    pub fn keys(&self) -> (keys: [bool; 16])
        ensures
            keys@ == self@.keys,
    {
        self.key
    }

    /// Replaces the state of all 16 keys at once.
    pub fn set_keys(&mut self, keys: [bool; 16])
        ensures
            final(self)@ == (Machine { keys: keys@, ..old(self)@ }),
            final(self)@.wf(),
    {
        proof {
            use_type_invariant(&*self);
        }
        self.key = keys;
    }

    /// Cycles left on the delay timer.
    pub fn delay_timer(&self) -> (ticks: u8)
        ensures
            ticks == self@.delay_timer,
    {
        self.delay_timer
    }

    /// Cycles left on the sound timer.
    pub fn sound_timer(&self) -> (ticks: u8)
        ensures
            ticks == self@.sound_timer,
    {
        self.sound_timer
    }

    /// Whether the display has changed since the host last cleared the flag.
    pub fn needs_redraw(&self) -> (flag: bool)
        ensures
            flag == self@.needs_redraw,
    {
        self.draw_flag
    }

    /// Tells the machine that the host has painted the display.
    pub fn clear_redraw(&mut self)
        ensures
            final(self)@ == (Machine { needs_redraw: false, ..old(self)@ }),
            final(self)@.wf(),
    {
        proof {
            use_type_invariant(&*self);
        }
        self.draw_flag = false;
    }

    /// Whether the sound timer has run out since the host last cleared the flag.
    pub fn beep_requested(&self) -> (flag: bool)
        ensures
            flag == self@.beep_requested,
    {
        self.beep_flag
    }

    /// Tells the machine that the host has sounded the beep.
    pub fn clear_beep(&mut self)
        ensures
            final(self)@ == (Machine { beep_requested: false, ..old(self)@ }),
            final(self)@.wf(),
    {
        proof {
            use_type_invariant(&*self);
        }
        self.beep_flag = false;
    }
}

/// The steps that instructions are made of.
impl VM {
    /// Moves the program counter to `pc`.
    pub(crate) fn set_pc(&mut self, pc: u16)
        ensures
            final(self)@ == (Machine { pc, ..old(self)@ }),
    {
        proof {
            use_type_invariant(&*self);
        }
        self.pc = pc;
    }

    /// Sets `I`.
    pub(crate) fn set_index(&mut self, index: u16)
        ensures
            final(self)@ == (Machine { index, ..old(self)@ }),
    {
        proof {
            use_type_invariant(&*self);
        }
        self.ir = index;
    }

    /// Reads `VX`.
    pub(crate) fn reg(&self, x: u8) -> (value: u8)
        requires
            x < 16,
        ensures
            value == self@.v(x),
    {
        self.v[x as usize]
    }

    /// Writes `VX`.
    pub(crate) fn set_reg(&mut self, x: u8, value: u8)
        requires
            x < 16,
        ensures
            final(self)@ == old(self)@.set(x, value),
    {
        proof {
            use_type_invariant(&*self);
        }
        self.v[x as usize] = value;
    }

    /// Writes 1 to `VF` if `flag` holds, and 0 if not.
    pub(crate) fn set_flag(&mut self, flag: bool)
        ensures
            final(self)@ == old(self)@.set_flag(flag),
    {
        self.set_reg(
            0xF,
            if flag {
                1
            } else {
                0
            },
        );
    }

    /// Puts the address of a call on the stack.
    pub(crate) fn push(&mut self, addr: u16)
        requires
            old(self)@.stack.len() < 16,
            addr + 1 < 4096,
        ensures
            final(self)@ == (Machine { stack: old(self)@.stack.push(addr), ..old(self)@ }),
    {
        proof {
            use_type_invariant(&*self);
        }
        self.stack[self.sp] = addr;
        self.sp = self.sp + 1;
        assert(self@.stack =~= old(self)@.stack.push(addr));
    }

    /// Takes the address of the latest call off the stack.
    pub(crate) fn pop(&mut self) -> (addr: u16)
        requires
            old(self)@.stack.len() > 0,
        ensures
            addr == old(self)@.stack.last(),
            addr + 1 < 4096,
            final(self)@ == (Machine { stack: old(self)@.stack.drop_last(), ..old(self)@ }),
    {
        proof {
            use_type_invariant(&*self);
        }
        self.sp = self.sp - 1;
        assert(self@.stack =~= old(self)@.stack.drop_last());
        self.stack[self.sp]
    }

    /// Reads a byte of memory.
    pub(crate) fn read(&self, addr: usize) -> (value: u8)
        requires
            addr < 4096,
        ensures
            value == self@.memory[addr as int],
    {
        self.memory[addr]
    }

    /// Writes a byte of memory.
    pub(crate) fn write(&mut self, addr: usize, value: u8)
        requires
            addr < 4096,
        ensures
            final(self)@ == (Machine {
                memory: old(self)@.memory.update(addr as int, value),
                ..old(self)@
            }),
    {
        proof {
            use_type_invariant(&*self);
        }
        self.memory[addr] = value;
    }

    /// Whether the key numbered `key` is down.
    pub(crate) fn key_is_down(&self, key: u8) -> (down: bool)
        requires
            key < 16,
        ensures
            down == self@.keys[key as int],
    {
        self.key[key as usize]
    }

    /// Whether display cell `cell` is lit.
    pub(crate) fn pixel(&self, cell: usize) -> (lit: bool)
        requires
            cell < 2048,
        ensures
            lit == self@.framebuffer[cell as int],
    {
        self.gfx[cell]
    }

    /// Turns display cell `cell` on if it is off, and off if it is on.
    pub(crate) fn toggle_pixel(&mut self, cell: usize)
        requires
            cell < 2048,
        ensures
            final(self)@ == (Machine {
                framebuffer: old(self)@.framebuffer.update(
                    cell as int,
                    !old(self)@.framebuffer[cell as int],
                ),
                ..old(self)@
            }),
    {
        proof {
            use_type_invariant(&*self);
        }
        self.gfx[cell] = !self.gfx[cell];
    }

    /// Turns every pixel off.
    pub(crate) fn blank_display(&mut self)
        ensures
            final(self)@ == (Machine {
                framebuffer: Seq::new(2048, |p: int| false),
                ..old(self)@
            }),
    {
        proof {
            use_type_invariant(&*self);
        }
        self.gfx = [false; 2048];
        assert(self@.framebuffer =~= Seq::new(2048, |p: int| false));
    }

    /// Tells the host that the display has changed.
    pub(crate) fn request_redraw(&mut self)
        ensures
            final(self)@ == (Machine { needs_redraw: true, ..old(self)@ }),
    {
        proof {
            use_type_invariant(&*self);
        }
        self.draw_flag = true;
    }

    /// Starts the delay timer at `ticks`.
    pub(crate) fn set_delay_timer(&mut self, ticks: u8)
        ensures
            final(self)@ == (Machine { delay_timer: ticks, ..old(self)@ }),
    {
        proof {
            use_type_invariant(&*self);
        }
        self.delay_timer = ticks;
    }

    /// Starts the sound timer at `ticks`.
    pub(crate) fn set_sound_timer(&mut self, ticks: u8)
        ensures
            final(self)@ == (Machine { sound_timer: ticks, ..old(self)@ }),
    {
        proof {
            use_type_invariant(&*self);
        }
        self.sound_timer = ticks;
    }

    /// Counts both timers down once, and asks for the beep when the sound
    /// timer reaches zero.
    pub(crate) fn tick_timers(&mut self)
        ensures
            final(self)@ == old(self)@.tick(),
    {
        proof {
            use_type_invariant(&*self);
        }
        if self.delay_timer > 0 {
            self.delay_timer -= 1;
        }
        if self.sound_timer > 0 {
            if self.sound_timer == 1 {
                self.beep_flag = true;
            }
            self.sound_timer -= 1;
        }
    }
}

} // verus!
