use vstd::prelude::*;

verus! {

/// Why an instruction that was fetched and decoded could not be carried out.
#[derive(Clone, Copy, Debug, PartialEq, Eq, Structural)]
pub enum Trap {
    /// A call was made with all 16 stack slots in use.
    StackOverflow,
    /// A return was made with no call outstanding.
    StackUnderflow,
    /// The instruction reads or writes memory beyond address 0xFFF.
    MemoryOutOfRange,
    /// The register that selects a key holds a value above 0xF.
    KeyOutOfRange,
}

/// A fatal condition. The machine is left as it was before the operation that
/// reported it.
#[derive(Clone, Copy, Debug, PartialEq, Eq, Structural)]
pub enum Fault {
    /// The program of `len` bytes does not fit between 0x200 and the end of memory.
    RomTooLarge { len: usize },
    /// No two-byte instruction can be read at `address`.
    FetchOutOfRange { address: u16 },
    /// The word `opcode`, read at `address`, is not an instruction.
    UnknownOpcode { opcode: u16, address: u16 },
    /// The instruction `opcode`, read at `address`, could not be carried out.
    Trapped { trap: Trap, opcode: u16, address: u16 },
}

/// What a completed cycle did with the program counter's instruction.
#[derive(Clone, Copy, Debug, PartialEq, Eq, Structural)]
pub enum Progress {
    /// The instruction was carried out.
    Executed,
    /// The instruction waits for a key and none is down: the program counter
    /// stays on it, and the next cycle tries again.
    AwaitingKey,
}

} // verus!
