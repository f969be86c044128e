//! The machine state and its operations other than executing instructions.

use vstd::prelude::*;

use crate::font::{font_glyphs, FONT};
use crate::model::{
    initial_machine, ticked, with_program, word_at, FONT_START, LoadError, Machine, MAX_PROGRAM_SIZE,
    MEMORY_SIZE, PROGRAM_START, REGISTER_COUNT, SCREEN_SIZE,
};

verus! {

/// The whole state of one CHIP-8 machine.
///
/// Every field may be read and written freely: any value of each field is a
/// state the machine can run from. Memory addresses (the program counter's and
/// those from `I` on) wrap at the end of memory, and the program counter itself
/// wraps at 16 bits, so no instruction can fault on an address.
pub struct Emulator {
    /// The index register `I`.
    pub i: u16,
    /// The program counter.
    pub pc: u16,
    /// Memory.
    pub mem: [u8; MEMORY_SIZE],
    /// The registers `V0..VF`.
    pub v: [u8; REGISTER_COUNT],
    /// Return addresses of the subroutines that are running, the most recent last.
    pub stack: Vec<u16>,
    /// The screen, row-major: pixel `(x, y)` is at `x + y * SCREEN_WIDTH`.
    pub vmem: [u8; SCREEN_SIZE],
    /// Which keys are down.
    pub keypad: [bool; REGISTER_COUNT],
    /// The delay timer.
    pub dt: u8,
}

impl View for Emulator {
    type V = Machine;

    open spec fn view(&self) -> Machine {
        Machine {
            i: self.i,
            pc: self.pc,
            mem: self.mem@,
            v: self.v@,
            stack: self.stack@,
            vmem: self.vmem@,
            keypad: self.keypad@,
            dt: self.dt,
        }
    }
}

/// The byte at `b` of an RGBA frame showing `vmem`: white for a pixel that is
/// set, opaque black for one that is clear.
pub open spec fn frame_byte(vmem: Seq<u8>, b: int) -> u8 {
    if b % 4 == 3 || vmem[b / 4] == 1 {
        0xff
    } else {
        0x00
    }
}

impl Emulator {
    /// A machine with the font loaded, all registers, the screen and the keypad
    /// clear, and the program counter at `PROGRAM_START`.
    pub fn new() -> (e: Emulator)
        ensures
            e@ == initial_machine(),
    {
        let mut e = Emulator {
            i: 0,
            pc: PROGRAM_START,
            mem: [0u8; MEMORY_SIZE],
            v: [0u8; REGISTER_COUNT],
            stack: Vec::new(),
            vmem: [0u8; SCREEN_SIZE],
            keypad: [false; REGISTER_COUNT],
            dt: 0,
        };
        let font = FONT;
        for k in 0..80
            invariant
                font@ == font_glyphs(),
                e.i == 0,
                e.pc == PROGRAM_START,
                e.stack@ == Seq::<u16>::empty(),
                e.dt == 0,
                e.v@ == Seq::new(REGISTER_COUNT as nat, |r: int| 0u8),
                e.vmem@ == Seq::new(SCREEN_SIZE as nat, |p: int| 0u8),
                e.keypad@ == Seq::new(REGISTER_COUNT as nat, |r: int| false),
                forall|a: int|
                    0 <= a < MEMORY_SIZE ==> #[trigger] e.mem@[a] == if FONT_START <= a < FONT_START
                        + k {
                        font_glyphs()[a - FONT_START]
                    } else {
                        0u8
                    },
        {
            e.mem[FONT_START as usize + k] = font[k];
        }
        assert(e.mem@ =~= initial_machine().mem);
        e
    }

    /// Copies a program image into memory at `PROGRAM_START`. An image longer than
    /// `MAX_PROGRAM_SIZE` bytes is refused and nothing changes.
    pub fn load_rom(&mut self, rom: &[u8]) -> (r: Result<(), LoadError>)
        ensures
            r is Err <==> rom@.len() > MAX_PROGRAM_SIZE,
            r is Err ==> r == Err::<(), LoadError>(LoadError::TooLarge { len: rom@.len() as usize })
                && final(self)@ == old(self)@,
            r is Ok ==> final(self)@ == (Machine {
                mem: with_program(old(self).mem@, rom@),
                ..old(self)@
            }),
    {
        if rom.len() > MAX_PROGRAM_SIZE {
            return Err(LoadError::TooLarge { len: rom.len() });
        }
        let ghost before = self.mem@;
        for k in 0..rom.len()
            invariant
                rom@.len() <= MAX_PROGRAM_SIZE,
                self.i == old(self).i,
                self.pc == old(self).pc,
                self.v == old(self).v,
                self.stack == old(self).stack,
                self.vmem == old(self).vmem,
                self.keypad == old(self).keypad,
                self.dt == old(self).dt,
                before == old(self).mem@,
                forall|a: int|
                    0 <= a < MEMORY_SIZE ==> #[trigger] self.mem@[a] == if PROGRAM_START <= a
                        < PROGRAM_START + k {
                        rom@[a - PROGRAM_START]
                    } else {
                        before[a]
                    },
        {
            self.mem[PROGRAM_START as usize + k] = rom[k];
        }
        assert(self.mem@ =~= with_program(before, rom@));
        Ok(())
    }

    /// Writes the screen into an RGBA frame, four bytes per pixel in row-major
    /// order: white for a pixel that is set, opaque black for one that is clear.
    /// Bytes past the last whole pixel of the frame are left alone.
    pub fn draw(&self, frame: &mut [u8])
        requires
            old(frame)@.len() <= 4 * SCREEN_SIZE,
        ensures
            final(frame)@.len() == old(frame)@.len(),
            forall|b: int|
                0 <= b < old(frame)@.len() ==> #[trigger] final(frame)@[b] == if b < old(
                    frame,
                )@.len() / 4 * 4 {
                    frame_byte(self.vmem@, b)
                } else {
                    old(frame)@[b]
                },
    {
        let ghost before = frame@;
        let pixels = frame.len() / 4;
        for p in 0..pixels
            invariant
                pixels == before.len() / 4,
                pixels <= SCREEN_SIZE,
                frame@.len() == before.len(),
                forall|b: int|
                    0 <= b < before.len() ==> #[trigger] frame@[b] == if b < 4 * p {
                        frame_byte(self.vmem@, b)
                    } else {
                        before[b]
                    },
        {
            let level: u8 = if self.vmem[p] == 1 {
                0xff
            } else {
                0x00
            };
            frame[4 * p] = level;
            frame[4 * p + 1] = level;
            frame[4 * p + 2] = level;
            frame[4 * p + 3] = 0xff;
        }
    }

    /// Records whether key `key` is down.
    pub fn set_key_state(&mut self, key: u8, state: bool)
        requires
            key < REGISTER_COUNT,
        ensures
            final(self)@ == (Machine { keypad: old(self).keypad@.update(key as int, state), ..old(self)@ }),
    {
        self.keypad[key as usize] = state;
    }

    /// One tick of the delay timer: it counts down to zero and stays there.
    pub fn tick_timer(&mut self)
        ensures
            final(self)@ == (Machine { dt: ticked(old(self).dt), ..old(self)@ }),
    {
        if self.dt > 0 {
            self.dt = self.dt - 1;
        }
    }

    /// The big-endian word at `addr`; its second byte wraps to the start of memory.
    pub fn read_word(mem: [u8; MEMORY_SIZE], addr: u16) -> (w: u16)
        ensures
            w == word_at(mem@, addr),
    {
        let hi = mem[addr as usize % MEMORY_SIZE];
        let lo = mem[(addr as usize + 1) % MEMORY_SIZE];
        hi as u16 * 0x100 + lo as u16
    }
}

} // verus!
