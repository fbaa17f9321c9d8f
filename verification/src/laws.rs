use crate::font::FONTSET;
use crate::instruction::{
    field_family, field_n, field_nn, field_nnn, field_x, field_y, spec_decode, Instruction,
};
use crate::machine::{highest_key_below, Machine};
use vstd::prelude::*;

verus! {

/// Every instruction that a word decodes to has its operands in range.
pub proof fn decoded_instruction_is_well_formed(word: u16)
    ensures
        spec_decode(word) matches Some(instr) ==> instr.wf(),
{
}

/// The machine at power-on is well formed.
pub proof fn initial_machine_is_well_formed()
    ensures
        Machine::initial().wf(),
{
}

/// An instruction that does not trap, read from within memory, takes a well
/// formed machine to a well formed machine.
pub proof fn execute_keeps_well_formed(m: Machine, instr: Instruction, random: u8)
    requires
        m.wf(),
        instr.wf(),
        m.pc + 1 < 4096,
        m.trap(instr) is None,
    ensures
        m.execute(instr, random).wf(),
{
}

/// A cycle takes a well formed machine to a well formed machine: the stack
/// never holds more than 16 calls, and no part changes its size.
pub proof fn cycle_keeps_well_formed(m: Machine, random: u8)
    requires
        m.wf(),
    ensures
        m.cycle(random) matches Ok(next) ==> next.wf(),
{
    if let Some(opcode) = m.fetch() {
        decoded_instruction_is_well_formed(opcode);
        if let Some(instr) = spec_decode(opcode) {
            if m.trap(instr) is None {
                execute_keeps_well_formed(m, instr, random);
            }
        }
    }
}

/// Only a random instruction looks at the random byte: any other cycle ends
/// the same way whatever byte it is given.
pub proof fn cycle_ignores_unwanted_random(m: Machine, first: u8, second: u8)
    requires
        !m.wants_random(),
    ensures
        m.cycle(first) == m.cycle(second),
{
}

/// Loading a program that fits changes the `rom.len()` bytes from 0x200 on
/// to the program's bytes and no other byte of memory.
pub proof fn load_places_rom(m: Machine, rom: Seq<u8>)
    requires
        m.wf(),
        rom.len() <= 3584,
    ensures
        m.load(rom).wf(),
        forall|i: int| 0 <= i < rom.len() ==> m.load(rom).memory[0x200 + i] == rom[i],
        forall|a: int|
            0 <= a < 0x200 || 0x200 + rom.len() <= a < 4096 ==> m.load(rom).memory[a]
                == m.memory[a],
{
}

/// A machine that is switched on and then loaded with a program that fits
/// holds the font, unchanged, in its first 80 bytes, the program, unchanged,
/// from 0x200 on, and zero everywhere else.
pub proof fn fresh_load_holds_font_and_rom(rom: Seq<u8>)
    requires
        rom.len() <= 3584,
    ensures
        forall|a: int| 0 <= a < 80 ==> Machine::initial().load(rom).memory[a] == FONTSET[a],
        forall|i: int|
            0 <= i < rom.len() ==> Machine::initial().load(rom).memory[0x200 + i] == rom[i],
        forall|a: int|
            80 <= a < 0x200 || 0x200 + rom.len() <= a < 4096 ==> Machine::initial().load(
                rom,
            ).memory[a] == 0,
{
}

/// The clear-screen instruction `00E0` leaves every pixel dark and asks for
/// a redraw, whatever the display showed.
pub proof fn clear_screen_blanks_display(m: Machine, random: u8)
    requires
        m.wf(),
        m.fetch() == Some(0x00E0u16),
    ensures
        ({
            &&& m.cycle(random) matches Ok(next)
            &&& next.needs_redraw
            &&& next.pc == m.pc + 2
            &&& forall|p: int| 0 <= p < 2048 ==> !next.framebuffer[p]
        }),
{
}

/// The fields of the word made of a family, a register and a byte.
proof fn lemma_word_of_register_and_byte(family: u16, x: u8, nn: u8)
    requires
        family < 16,
        x < 16,
    ensures
        ({
            let word = (0x1000 * family + 0x100 * x + nn) as u16;
            &&& word == 0x1000 * family + 0x100 * x + nn
            &&& field_family(word) == family
            &&& field_x(word) == x
            &&& field_nn(word) == nn
            &&& field_y(word) == nn / 16
            &&& field_n(word) == nn % 16
        }),
{
}

/// The fields of the word made of a family and an address.
proof fn lemma_word_of_address(family: u16, addr: u16)
    requires
        family < 16,
        addr < 0x1000,
    ensures
        ({
            let word = (0x1000 * family + addr) as u16;
            &&& word == 0x1000 * family + addr
            &&& field_family(word) == family
            &&& field_nnn(word) == addr
        }),
{
}

/// What a cycle does when the instruction at the program counter is known.
proof fn lemma_cycle_of(m: Machine, opcode: u16, instr: Instruction, random: u8)
    requires
        m.fetch() == Some(opcode),
        spec_decode(opcode) == Some(instr),
        m.trap(instr) is None,
    ensures
        m.cycle(random) == Ok::<Machine, crate::fault::Fault>(m.execute(instr, random).tick()),
{
}

/// `6XNN` followed by `7XMM` leaves `(NN + MM) mod 256` in `VX` and every
/// other register as it was; so `VF`, unless it is the register named, is
/// untouched by either.
pub proof fn load_then_add_immediate(m: Machine, x: u8, nn: u8, mm: u8, first: u8, second: u8)
    requires
        m.wf(),
        x < 16,
        m.pc + 3 < 4096,
        m.word_at(m.pc as int) == 0x6000 + 0x100 * x + nn,
        m.word_at(m.pc + 2) == 0x7000 + 0x100 * x + mm,
    ensures
        ({
            &&& m.cycle(first) matches Ok(loaded)
            &&& loaded.registers == m.registers.update(x as int, nn)
            &&& loaded.cycle(second) matches Ok(added)
            &&& added.registers == m.registers.update(x as int, ((nn + mm) % 256) as u8)
            &&& added.pc == m.pc + 4
            &&& x != 0xF ==> loaded.v(0xF) == m.v(0xF) && added.v(0xF) == m.v(0xF)
        }),
{
    let load = (0x6000 + 0x100 * x + nn) as u16;
    let add = (0x7000 + 0x100 * x + mm) as u16;
    lemma_word_of_register_and_byte(6, x, nn);
    lemma_word_of_register_and_byte(7, x, mm);
    lemma_cycle_of(m, load, Instruction::LoadImm { x, nn }, first);
    let loaded = m.execute(Instruction::LoadImm { x, nn }, first).tick();
    lemma_cycle_of(loaded, add, Instruction::AddImm { x, nn: mm }, second);
    let added = loaded.execute(Instruction::AddImm { x, nn: mm }, second).tick();
    assert(added.registers =~= m.registers.update(x as int, ((nn + mm) % 256) as u8));
}

/// A call `2NNN` made at address `P`, followed at once by a return `00EE`
/// at `NNN`, brings the program counter to `P + 2` and the stack back to
/// what it was.
pub proof fn call_then_return(m: Machine, addr: u16, first: u8, second: u8)
    requires
        m.wf(),
        m.stack.len() < 16,
        addr + 1 < 4096,
        m.fetch() == Some((0x2000 + addr) as u16),
        m.word_at(addr as int) == 0x00EE,
    ensures
        ({
            &&& m.cycle(first) matches Ok(called)
            &&& called.pc == addr
            &&& called.stack == m.stack.push(m.pc)
            &&& called.cycle(second) matches Ok(returned)
            &&& returned.pc == m.pc + 2
            &&& returned.stack == m.stack
        }),
{
    let call = (0x2000 + addr) as u16;
    lemma_word_of_address(2, addr);
    lemma_cycle_of(m, call, Instruction::Call { addr }, first);
    let called = m.execute(Instruction::Call { addr }, first).tick();
    assert(spec_decode(0x00EEu16) == Some(Instruction::Return));
    lemma_cycle_of(called, 0x00EEu16, Instruction::Return, second);
    assert(called.stack.drop_last() =~= m.stack);
}

/// A register dump `FX55` moves `I` on by `X + 1`. A register load `FX65`
/// with the same `X`, made later with `I` back where the dump began and the
/// dumped bytes still in memory, brings `V0..=VX` back to what they were at
/// the dump, whatever they have held since, and again moves `I` on by `X + 1`.
pub proof fn dump_then_load_registers(m: Machine, later: Machine, x: u8, first: u8, second: u8)
    requires
        m.wf(),
        later.wf(),
        x < 16,
        m.index + x < 4096,
        m.fetch() == Some((0xF055 + 0x100 * x) as u16),
        ({
            &&& m.cycle(first) matches Ok(dumped)
            &&& later.memory.subrange(m.index as int, m.index + x + 1) == dumped.memory.subrange(
                m.index as int,
                m.index + x + 1,
            )
        }),
        later.index == m.index,
        later.fetch() == Some((0xF065 + 0x100 * x) as u16),
    ensures
        ({
            &&& m.cycle(first) matches Ok(dumped)
            &&& dumped.index == m.index + x + 1
        }),
        ({
            &&& later.cycle(second) matches Ok(loaded)
            &&& loaded.index == m.index + x + 1
            &&& forall|i: int| 0 <= i <= x ==> loaded.registers[i] == m.registers[i]
        }),
{
    let dump = (0xF055 + 0x100 * x) as u16;
    let load = (0xF065 + 0x100 * x) as u16;
    lemma_word_of_register_and_byte(0xF, x, 0x55);
    lemma_word_of_register_and_byte(0xF, x, 0x65);
    lemma_cycle_of(m, dump, Instruction::StoreRegisters { x }, first);
    lemma_cycle_of(later, load, Instruction::LoadRegisters { x }, second);
    let dumped = m.execute(Instruction::StoreRegisters { x }, first).tick();
    let loaded = later.execute(Instruction::LoadRegisters { x }, second).tick();
    assert forall|i: int| 0 <= i <= x implies loaded.registers[i] == m.registers[i] by {
        assert(later.memory.subrange(m.index as int, m.index + x + 1)[i] == dumped.memory.subrange(
            m.index as int,
            m.index + x + 1,
        )[i]);
    }
}

/// A cycle whose instruction does not set the sound timer counts it down by
/// one if it is running, leaves it at zero if it is not, and asks for the
/// beep exactly when it goes from 1 to 0.
pub proof fn sound_timer_counts_down(m: Machine, random: u8)
    requires
        m.wf(),
        m.cycle(random) is Ok,
        !(m.fetch() matches Some(opcode) && spec_decode(opcode) matches Some(instr)
            && instr is SetSound),
    ensures
        ({
            &&& m.cycle(random) matches Ok(next)
            &&& next.sound_timer == if m.sound_timer > 0 {
                m.sound_timer - 1
            } else {
                0
            }
            &&& next.beep_requested == (m.beep_requested || m.sound_timer == 1)
        }),
{
}

/// Drawing a sprite a second time at the same place undoes the first
/// drawing, and reports a collision exactly when the first lit a pixel.
pub proof fn drawing_twice_restores_display(m: Machine, left: u8, top: u8, rows: u8)
    requires
        m.wf(),
    ensures
        ({
            let drawn = Machine { framebuffer: m.sprite_drawn(left, top, rows), ..m };
            &&& drawn.sprite_drawn(left, top, rows) == m.framebuffer
            &&& drawn.sprite_collides(left, top, rows) <==> exists|p: int|
                0 <= p < 2048 && !m.framebuffer[p] && #[trigger] m.sprite_hits(left, top, rows, p)
        }),
{
    let drawn = Machine { framebuffer: m.sprite_drawn(left, top, rows), ..m };
    assert forall|p: int| 0 <= p < 2048 implies drawn.sprite_hits(left, top, rows, p)
        == m.sprite_hits(left, top, rows, p) by {}
    assert(drawn.sprite_drawn(left, top, rows) =~= m.framebuffer);
    if drawn.sprite_collides(left, top, rows) {
        let p = choose|p: int|
            0 <= p < 2048 && drawn.framebuffer[p] && #[trigger] drawn.sprite_hits(
                left,
                top,
                rows,
                p,
            );
        assert(m.sprite_hits(left, top, rows, p));
    }
    if exists|p: int|
        0 <= p < 2048 && !m.framebuffer[p] && #[trigger] m.sprite_hits(left, top, rows, p) {
        let p = choose|p: int|
            0 <= p < 2048 && !m.framebuffer[p] && #[trigger] m.sprite_hits(left, top, rows, p);
        assert(drawn.sprite_hits(left, top, rows, p));
    }
}

/// The key that a wait reports is down, and no higher key is; it reports
/// none exactly when no key is down.
pub proof fn key_down_is_highest(keys: Seq<bool>, n: int)
    requires
        0 <= n <= keys.len(),
        n <= 256,
    ensures
        match highest_key_below(keys, n) {
            Some(key) => key < n && keys[key as int] && forall|j: int| key < j < n ==> !keys[j],
            None => forall|j: int| 0 <= j < n ==> !keys[j],
        },
    decreases n,
{
    if n > 0 && !keys[n - 1] {
        key_down_is_highest(keys, n - 1);
    }
}

} // verus!
