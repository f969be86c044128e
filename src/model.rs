//! The abstract machine state, its constants and its error types.

use vstd::prelude::*;

verus! {

/// Bytes of addressable memory.
pub const MEMORY_SIZE: usize = 4096;

/// Width of the screen in pixels.
pub const SCREEN_WIDTH: usize = 64;

/// Height of the screen in pixels.
pub const SCREEN_HEIGHT: usize = 32;

/// Number of pixels on the screen.
pub const SCREEN_SIZE: usize = 2048;

/// Number of general-purpose registers, and of keys on the keypad.
pub const REGISTER_COUNT: usize = 16;

/// Where the program image is loaded, and where execution starts.
pub const PROGRAM_START: u16 = 0x200;

/// Where the hexadecimal font is stored.
pub const FONT_START: u16 = 0x50;

/// The largest program image that fits between `PROGRAM_START` and the end of memory.
pub const MAX_PROGRAM_SIZE: usize = 3584;

/// A fault raised while executing one instruction.
#[derive(Clone, Copy, Debug, PartialEq, Eq)]
pub enum Fault {
    /// `00EE` with an empty call stack. The machine is left as it was.
    StackUnderflow,
    /// The word matches no instruction. The machine is left as it was, and
    /// execution may go on with the next instruction.
    Unimplemented { word: u16 },
}

/// Why a program image could not be loaded.
#[derive(Clone, Copy, Debug, PartialEq, Eq)]
pub enum LoadError {
    /// The image is longer than `MAX_PROGRAM_SIZE` bytes.
    TooLarge { len: usize },
}

/// The abstract state of the machine.
pub struct Machine {
    /// The index register `I`.
    pub i: u16,
    /// The program counter.
    pub pc: u16,
    /// Memory, `MEMORY_SIZE` bytes.
    pub mem: Seq<u8>,
    /// The registers `V0..VF`.
    pub v: Seq<u8>,
    /// Return addresses, the most recent last.
    pub stack: Seq<u16>,
    /// The screen, row-major, one byte per pixel.
    pub vmem: Seq<u8>,
    /// Which keys are down.
    pub keypad: Seq<bool>,
    /// The delay timer.
    pub dt: u8,
}

impl Machine {
    pub open spec fn wf(self) -> bool {
        &&& self.mem.len() == MEMORY_SIZE
        &&& self.v.len() == REGISTER_COUNT
        &&& self.vmem.len() == SCREEN_SIZE
        &&& self.keypad.len() == REGISTER_COUNT
    }
}

/// `pc` moved by `d` bytes; the program counter wraps at 16 bits.
pub open spec fn advance(pc: u16, d: int) -> u16 {
    ((pc + d) % 0x10000) as u16
}

/// The memory address `k` bytes past `base`; addresses wrap at the end of memory.
pub open spec fn addr_at(base: u16, k: int) -> int {
    (base + k) % (MEMORY_SIZE as int)
}

/// The big-endian word at `addr`, whose second byte wraps to the start of memory.
pub open spec fn word_at(mem: Seq<u8>, addr: u16) -> u16 {
    (mem[addr_at(addr, 0)] * 0x100 + mem[addr_at(addr, 1)]) as u16
}

/// Key `k` exists and is down.
pub open spec fn key_down(keypad: Seq<bool>, k: u8) -> bool {
    k < REGISTER_COUNT && keypad[k as int]
}

/// The lowest key at or above `k` that is down, or `REGISTER_COUNT` if none is.
pub open spec fn first_key_from(keypad: Seq<bool>, k: nat) -> nat
    decreases REGISTER_COUNT - k,
{
    if k >= REGISTER_COUNT {
        REGISTER_COUNT as nat
    } else if keypad[k as int] {
        k
    } else {
        first_key_from(keypad, k + 1)
    }
}

/// The lowest key that is down, or `REGISTER_COUNT` if none is.
pub open spec fn first_key(keypad: Seq<bool>) -> nat {
    first_key_from(keypad, 0)
}

/// The state of a newly built machine.
pub open spec fn initial_machine() -> Machine {
    Machine {
        i: 0,
        pc: PROGRAM_START,
        mem: Seq::new(
            MEMORY_SIZE as nat,
            |a: int|
                if FONT_START <= a < FONT_START + 80 {
                    crate::font::font_glyphs()[a - FONT_START]
                } else {
                    0u8
                },
        ),
        v: Seq::new(REGISTER_COUNT as nat, |k: int| 0u8),
        stack: Seq::empty(),
        vmem: Seq::new(SCREEN_SIZE as nat, |p: int| 0u8),
        keypad: Seq::new(REGISTER_COUNT as nat, |k: int| false),
        dt: 0,
    }
}

/// `mem` with `image` written at `PROGRAM_START`.
pub open spec fn with_program(mem: Seq<u8>, image: Seq<u8>) -> Seq<u8> {
    Seq::new(
        mem.len(),
        |a: int|
            if PROGRAM_START <= a < PROGRAM_START + image.len() {
                image[a - PROGRAM_START]
            } else {
                mem[a]
            },
    )
}

/// The delay timer one tick later: it counts down to zero and stays there.
pub open spec fn ticked(dt: u8) -> u8 {
    if dt > 0 {
        (dt - 1) as u8
    } else {
        0
    }
}

} // verus!
