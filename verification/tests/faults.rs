use dale8::{Fault, Progress, Trap, VM};

fn boot(rom: &[u8]) -> VM {
    let mut vm = VM::new();
    assert_eq!(vm.load_application(rom), Ok(()));
    vm
}

fn run(vm: &mut VM, cycles: usize) {
    for _ in 0..cycles {
        assert_eq!(vm.emulate_cycle(), Ok(Progress::Executed));
    }
}

fn assert_same_state(vm: &VM, other: &VM) {
    assert_eq!(vm.program_counter(), other.program_counter());
    assert_eq!(vm.index_register(), other.index_register());
    assert_eq!(vm.registers(), other.registers());
    assert_eq!(vm.stack_pointer(), other.stack_pointer());
    assert_eq!(&vm.memory()[..], &other.memory()[..]);
    assert_eq!(&vm.framebuffer()[..], &other.framebuffer()[..]);
    assert_eq!(vm.delay_timer(), other.delay_timer());
    assert_eq!(vm.sound_timer(), other.sound_timer());
    assert_eq!(vm.needs_redraw(), other.needs_redraw());
    assert_eq!(vm.beep_requested(), other.beep_requested());
}

#[test]
fn unknown_word_in_family_zero() {
    let mut vm = boot(&[0x00, 0xE1]);
    assert_eq!(vm.emulate_cycle(), Err(Fault::UnknownOpcode { opcode: 0x00E1, address: 0x200 }));
}

#[test]
fn unknown_word_in_family_eight() {
    let mut vm = boot(&[0x60, 0x01, 0x80, 0x18]);
    run(&mut vm, 1);
    assert_eq!(vm.emulate_cycle(), Err(Fault::UnknownOpcode { opcode: 0x8018, address: 0x202 }));
}

#[test]
fn unknown_word_in_family_e() {
    let mut vm = boot(&[0xE0, 0x9F]);
    assert_eq!(vm.emulate_cycle(), Err(Fault::UnknownOpcode { opcode: 0xE09F, address: 0x200 }));
}

#[test]
fn unknown_word_in_family_f() {
    let mut vm = boot(&[0xF0, 0x1F]);
    assert_eq!(vm.emulate_cycle(), Err(Fault::UnknownOpcode { opcode: 0xF01F, address: 0x200 }));
}

#[test]
fn fault_leaves_machine_unchanged() {
    // Timers run, a sprite is on the display, and then an unknown word.
    let rom = [0x60, 0x09, 0xF0, 0x15, 0xF0, 0x18, 0xA0, 0x00, 0xD0, 0x05, 0xFF, 0xFF];
    let mut vm = boot(&rom);
    let mut twin = boot(&rom);
    run(&mut vm, 5);
    run(&mut twin, 5);
    assert_eq!(vm.emulate_cycle(), Err(Fault::UnknownOpcode { opcode: 0xFFFF, address: 0x20A }));
    assert_same_state(&vm, &twin);
    assert_eq!(vm.emulate_cycle(), Err(Fault::UnknownOpcode { opcode: 0xFFFF, address: 0x20A }));
    assert_same_state(&vm, &twin);
}

#[test]
fn fetch_at_last_byte_of_memory() {
    let mut vm = boot(&[0x1F, 0xFF]);
    run(&mut vm, 1);
    assert_eq!(vm.program_counter(), 0xFFF);
    assert_eq!(vm.emulate_cycle(), Err(Fault::FetchOutOfRange { address: 0xFFF }));
    assert_eq!(vm.program_counter(), 0xFFF);
}

#[test]
fn fetch_at_last_word_of_memory_succeeds() {
    let mut vm = boot(&[0x1F, 0xFE]);
    run(&mut vm, 2);
    assert_eq!(vm.program_counter(), 0x1000);
}

#[test]
fn fetch_after_jump_with_offset_past_memory() {
    let mut vm = boot(&[0x60, 0xFF, 0xBF, 0xFF]);
    run(&mut vm, 2);
    assert_eq!(vm.program_counter(), 0x10FE);
    assert_eq!(vm.emulate_cycle(), Err(Fault::FetchOutOfRange { address: 0x10FE }));
}

#[test]
fn return_with_empty_stack() {
    let mut vm = boot(&[0x00, 0xEE]);
    assert_eq!(
        vm.emulate_cycle(),
        Err(Fault::Trapped { trap: Trap::StackUnderflow, opcode: 0x00EE, address: 0x200 })
    );
    assert_eq!(vm.program_counter(), 0x200);
    assert_eq!(vm.stack_pointer(), 0);
}

#[test]
fn seventeenth_nested_call() {
    let mut vm = boot(&[0x22, 0x00]);
    run(&mut vm, 16);
    assert_eq!(vm.stack_pointer(), 16);
    assert_eq!(
        vm.emulate_cycle(),
        Err(Fault::Trapped { trap: Trap::StackOverflow, opcode: 0x2200, address: 0x200 })
    );
    assert_eq!(vm.stack_pointer(), 16);
    assert_eq!(vm.program_counter(), 0x200);
}

#[test]
fn sixteen_nested_calls_unwind_again() {
    // Sixteen subroutines, each calling the next and then returning, and a
    // seventeenth that only returns.
    let mut rom = Vec::new();
    for depth in 0..16u16 {
        let next = 0x200 + 4 * (depth + 1);
        rom.extend_from_slice(&[0x20 | (next >> 8) as u8, next as u8, 0x00, 0xEE]);
    }
    rom.extend_from_slice(&[0x00, 0xEE]);
    let mut vm = boot(&rom);
    run(&mut vm, 16);
    assert_eq!(vm.stack_pointer(), 16);
    assert_eq!(vm.program_counter(), 0x240);
    run(&mut vm, 16);
    assert_eq!(vm.stack_pointer(), 0);
    assert_eq!(vm.program_counter(), 0x202);
    assert_eq!(
        vm.emulate_cycle(),
        Err(Fault::Trapped { trap: Trap::StackUnderflow, opcode: 0x00EE, address: 0x202 })
    );
}

#[test]
fn bcd_past_end_of_memory() {
    let mut vm = boot(&[0xAF, 0xFE, 0xF0, 0x33]);
    run(&mut vm, 1);
    assert_eq!(
        vm.emulate_cycle(),
        Err(Fault::Trapped { trap: Trap::MemoryOutOfRange, opcode: 0xF033, address: 0x202 })
    );
    assert_eq!(vm.memory()[0xFFE], 0);
    assert_eq!(vm.memory()[0xFFF], 0);
}

#[test]
fn bcd_at_end_of_memory() {
    let mut vm = boot(&[0x60, 0x7B, 0xAF, 0xFD, 0xF0, 0x33]);
    run(&mut vm, 3);
    assert_eq!(&vm.memory()[0xFFD..], &[1, 2, 3]);
}

#[test]
fn register_dump_past_end_of_memory() {
    let mut vm = boot(&[0x60, 0x77, 0xAF, 0xFF, 0xF1, 0x55]);
    run(&mut vm, 2);
    assert_eq!(
        vm.emulate_cycle(),
        Err(Fault::Trapped { trap: Trap::MemoryOutOfRange, opcode: 0xF155, address: 0x204 })
    );
    assert_eq!(vm.memory()[0xFFF], 0);
    assert_eq!(vm.index_register(), 0xFFF);
}

#[test]
fn register_dump_at_end_of_memory() {
    let mut vm = boot(&[0x60, 0x77, 0xAF, 0xFF, 0xF0, 0x55]);
    run(&mut vm, 3);
    assert_eq!(vm.memory()[0xFFF], 0x77);
    assert_eq!(vm.index_register(), 0x1000);
}

#[test]
fn register_load_past_end_of_memory() {
    let mut vm = boot(&[0xAF, 0xF1, 0xFF, 0x65]);
    run(&mut vm, 1);
    assert_eq!(
        vm.emulate_cycle(),
        Err(Fault::Trapped { trap: Trap::MemoryOutOfRange, opcode: 0xFF65, address: 0x202 })
    );
    assert_eq!(vm.registers(), [0u8; 16]);
}

#[test]
fn draw_past_end_of_memory() {
    let mut vm = boot(&[0xAF, 0xFF, 0xD0, 0x02]);
    run(&mut vm, 1);
    vm.clear_redraw();
    assert_eq!(
        vm.emulate_cycle(),
        Err(Fault::Trapped { trap: Trap::MemoryOutOfRange, opcode: 0xD002, address: 0x202 })
    );
    assert!(!vm.needs_redraw());
    assert!(vm.framebuffer().iter().all(|lit| !lit));
}

#[test]
fn draw_at_end_of_memory() {
    let mut vm = boot(&[0xAF, 0xFF, 0xD0, 0x01]);
    run(&mut vm, 2);
    assert_eq!(vm.registers()[0xF], 0);
}

#[test]
fn key_number_above_fifteen() {
    let mut vm = boot(&[0x60, 0x10, 0xE0, 0x9E]);
    run(&mut vm, 1);
    assert_eq!(
        vm.emulate_cycle(),
        Err(Fault::Trapped { trap: Trap::KeyOutOfRange, opcode: 0xE09E, address: 0x202 })
    );
    let mut vm = boot(&[0x60, 0xFF, 0xE0, 0xA1]);
    run(&mut vm, 1);
    assert_eq!(
        vm.emulate_cycle(),
        Err(Fault::Trapped { trap: Trap::KeyOutOfRange, opcode: 0xE0A1, address: 0x202 })
    );
}
