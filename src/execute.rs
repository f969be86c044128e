//! Executing instructions on an `Emulator`.

use vstd::prelude::*;

use crate::decode::{decode, decode_spec, Instruction};
use crate::emulator::Emulator;
use crate::model::{
    addr_at, advance, first_key, first_key_from, word_at, Fault, Machine, FONT_START, MEMORY_SIZE,
    REGISTER_COUNT, SCREEN_SIZE,
};
use crate::semantics::{
    cycle_spec, draw_spec, effect, execute_spec, loaded_regs, skip_if, stored_regs, FLAG,
};
use crate::sprite::{
    col_offset, collision, drawn_upto, lemma_pixel_at, lit, pixel_at, row_offset, scan_index,
    sprite_bit,
};

verus! {

/// The bit operations the instructions use, as arithmetic.
proof fn lemma_byte_ops(a: u8)
    by (bit_vector)
    ensures
        a & 1u8 == a % 2,
        a >> 1u8 == a / 2,
        (a & 0x80u8) >> 7u8 == a / 128,
        a << 1u8 == ((a * 2) % 256) as u8,
        a & 0x0fu8 == a % 16,
{
}

impl Emulator {
    /// Skips the next instruction when `cond` holds.
    fn skip_next_if(&mut self, cond: bool)
        ensures
            final(self)@ == skip_if(old(self)@, cond),
    {
        if cond {
            self.pc = self.pc.wrapping_add(2);
        }
    }

    /// The lowest key that is down, or `REGISTER_COUNT` if none is.
    fn first_key_down(&self) -> (k: usize)
        ensures
            k == first_key(self.keypad@),
    {
        let mut k: usize = 0;
        while k < REGISTER_COUNT && !self.keypad[k]
            invariant
                k <= REGISTER_COUNT,
                first_key(self.keypad@) == first_key_from(self.keypad@, k as nat),
            decreases REGISTER_COUNT - k,
        {
            k += 1;
        }
        k
    }

    /// `Fx55`: stores `V0..=Vx` in memory from `I` on.
    fn store_regs(&mut self, x: u8)
        requires
            x < 16,
        ensures
            final(self)@ == (Machine { mem: stored_regs(old(self)@, x + 1), ..old(self)@ }),
    {
        let ghost s = self@;
        assert(self.mem@ =~= stored_regs(s, 0));
        let mut k: usize = 0;
        while k <= x as usize
            invariant
                k <= x + 1,
                x < 16,
                s.wf(),
                self@ == (Machine { mem: stored_regs(s, k as int), ..s }),
            decreases x + 1 - k,
        {
            let a = (self.i as usize + k) % MEMORY_SIZE;
            self.mem[a] = self.v[k];
            proof {
                assert(self.mem@ =~= stored_regs(s, k + 1));
            }
            k += 1;
        }
    }

    /// `Fx65`: loads `V0..=Vx` from memory from `I` on.
    fn load_regs(&mut self, x: u8)
        requires
            x < 16,
        ensures
            final(self)@ == (Machine { v: loaded_regs(old(self)@, x + 1), ..old(self)@ }),
    {
        let ghost s = self@;
        assert(self.v@ =~= loaded_regs(s, 0));
        let mut k: usize = 0;
        while k <= x as usize
            invariant
                k <= x + 1,
                x < 16,
                s.wf(),
                self@ == (Machine { v: loaded_regs(s, k as int), ..s }),
            decreases x + 1 - k,
        {
            self.v[k] = self.mem[(self.i as usize + k) % MEMORY_SIZE];
            assert(self.v@ =~= loaded_regs(s, k + 1));
            k += 1;
        }
    }

    /// Executes an instruction that works on the screen, the program counter and the keypad.
    fn execute_control(&mut self, ins: Instruction, random: u8)
        requires
            ins.wf(),
            ins is ClearScreen || ins is Jump || ins is Call || ins is SkipEqImm
                || ins is SkipNeImm || ins is SkipEqReg || ins is SkipNeReg || ins is SetIndex
                || ins is JumpOffset || ins is SkipKeyDown || ins is SkipKeyUp || ins is WaitKey,
        ensures
            final(self)@ == effect(old(self)@, ins, random),
    {
        match ins {
            Instruction::ClearScreen => {
                self.vmem = [0u8; SCREEN_SIZE];
                assert(self.vmem@ =~= Seq::new(SCREEN_SIZE as nat, |p: int| 0u8));
            },
            Instruction::Jump { addr } => self.pc = addr,
            Instruction::Call { addr } => {
                self.stack.push(self.pc);
                self.pc = addr;
            },
            Instruction::SkipEqImm { x, nn } => self.skip_next_if(self.v[x as usize] == nn),
            Instruction::SkipNeImm { x, nn } => self.skip_next_if(self.v[x as usize] != nn),
            Instruction::SkipEqReg { x, y } => self.skip_next_if(
                self.v[x as usize] == self.v[y as usize],
            ),
            Instruction::SkipNeReg { x, y } => self.skip_next_if(
                self.v[x as usize] != self.v[y as usize],
            ),
            Instruction::SetIndex { addr } => self.i = addr,
            Instruction::JumpOffset { addr } => self.pc = self.v[0] as u16 + addr,
            Instruction::SkipKeyDown { x } => {
                let k = self.v[x as usize];
                let down = (k as usize) < REGISTER_COUNT && self.keypad[k as usize];
                self.skip_next_if(down);
            },
            Instruction::SkipKeyUp { x } => {
                let k = self.v[x as usize];
                let down = (k as usize) < REGISTER_COUNT && self.keypad[k as usize];
                self.skip_next_if(!down);
            },
            Instruction::WaitKey { x } => {
                let k = self.first_key_down();
                if k < REGISTER_COUNT {
                    self.v[x as usize] = k as u8;
                } else {
                    self.pc = self.pc.wrapping_sub(2);
                }
            },
            _ => {},
        }
    }

    /// Executes an instruction that works on the registers and the delay timer.
    fn execute_registers(&mut self, ins: Instruction, random: u8)
        requires
            ins.wf(),
            ins is SetImm || ins is AddImm || ins is Assign || ins is Or || ins is And
                || ins is Xor || ins is AddReg || ins is Sub || ins is SubRev
                || ins is ShiftRight || ins is ShiftLeft || ins is Random || ins is GetDelay
                || ins is SetDelay,
        ensures
            final(self)@ == effect(old(self)@, ins, random),
    {
        match ins {
            Instruction::SetImm { x, nn } => self.v[x as usize] = nn,
            Instruction::AddImm { x, nn } => self.v[x as usize] = self.v[x as usize].wrapping_add(nn),
            Instruction::Assign { x, y } => self.v[x as usize] = self.v[y as usize],
            Instruction::Or { x, y } => self.v[x as usize] = self.v[x as usize] | self.v[y as usize],
            Instruction::And { x, y } => self.v[x as usize] = self.v[x as usize] & self.v[y as usize],
            Instruction::Xor { x, y } => self.v[x as usize] = self.v[x as usize] ^ self.v[y as usize],
            Instruction::AddReg { x, y } => {
                let vx = self.v[x as usize];
                let vy = self.v[y as usize];
                self.v[x as usize] = vx.wrapping_add(vy);
                self.v[FLAG] = if vx as u16 + vy as u16 > 255 {
                    1
                } else {
                    0
                };
            },
            Instruction::Sub { x, y } => {
                let vx = self.v[x as usize];
                let vy = self.v[y as usize];
                self.v[x as usize] = vx.wrapping_sub(vy);
                self.v[FLAG] = if vx >= vy {
                    1
                } else {
                    0
                };
            },
            Instruction::SubRev { x, y } => {
                let vx = self.v[x as usize];
                let vy = self.v[y as usize];
                self.v[x as usize] = vy.wrapping_sub(vx);
                self.v[FLAG] = if vy >= vx {
                    1
                } else {
                    0
                };
            },
            Instruction::ShiftRight { x, y } => {
                let vx = self.v[x as usize];
                let vy = self.v[y as usize];
                proof {
                    lemma_byte_ops(vx);
                    lemma_byte_ops(vy);
                }
                self.v[FLAG] = vx & 1;
                self.v[x as usize] = vy >> 1;
            },
            Instruction::ShiftLeft { x, y } => {
                let vx = self.v[x as usize];
                let vy = self.v[y as usize];
                proof {
                    lemma_byte_ops(vx);
                    lemma_byte_ops(vy);
                }
                self.v[FLAG] = (vx & 0x80) >> 7;
                self.v[x as usize] = vy << 1;
            },
            Instruction::Random { x, nn } => self.v[x as usize] = random & nn,
            Instruction::GetDelay { x } => self.v[x as usize] = self.dt,
            Instruction::SetDelay { x } => self.dt = self.v[x as usize],
            _ => {},
        }
    }

    /// Executes an instruction that works on memory, the index register and the screen.
    fn execute_memory(&mut self, ins: Instruction, random: u8)
        requires
            ins.wf(),
            ins is Draw || ins is AddIndex || ins is FontChar || ins is Bcd || ins is StoreRegs
                || ins is LoadRegs,
        ensures
            final(self)@ == effect(old(self)@, ins, random),
    {
        match ins {
            Instruction::Draw { x, y, n } => self.draw_sprite(x, y, n),
            Instruction::AddIndex { x } => {
                let vx = self.v[x as usize];
                let sum = self.i as u32 + vx as u32;
                self.i = self.i.wrapping_add(vx as u16);
                if sum > 0x0FFF {
                    self.v[FLAG] = 1;
                }
            },
            Instruction::FontChar { x } => {
                let vx = self.v[x as usize];
                proof {
                    lemma_byte_ops(vx);
                }
                self.i = FONT_START + (vx & 0x0f) as u16;
            },
            Instruction::Bcd { x } => {
                let vx = self.v[x as usize];
                let base = self.i as usize;
                self.mem[base % MEMORY_SIZE] = vx / 100;
                self.mem[(base + 1) % MEMORY_SIZE] = (vx / 10) % 10;
                self.mem[(base + 2) % MEMORY_SIZE] = vx % 10;
            },
            Instruction::StoreRegs { x } => self.store_regs(x),
            Instruction::LoadRegs { x } => self.load_regs(x),
            _ => {},
        }
    }

    /// Executes one decoded instruction, with `random` as the byte that `Cxnn`
    /// masks. The program counter is taken to be already past the instruction.
    /// A fault leaves the machine as it was.
    pub fn execute(&mut self, ins: Instruction, random: u8) -> (r: Result<(), Fault>)
        requires
            ins.wf(),
        ensures
            (final(self)@, r) == execute_spec(old(self)@, ins, random),
    {
        match ins {
            Instruction::Return => {
                match self.stack.pop() {
                    Some(a) => self.pc = a,
                    None => return Err(Fault::StackUnderflow),
                }
            },
            Instruction::Unknown { word } => return Err(Fault::Unimplemented { word }),
            Instruction::ClearScreen | Instruction::Jump { .. } | Instruction::Call { .. }
            | Instruction::SkipEqImm { .. } | Instruction::SkipNeImm { .. }
            | Instruction::SkipEqReg { .. } | Instruction::SkipNeReg { .. }
            | Instruction::SetIndex { .. } | Instruction::JumpOffset { .. }
            | Instruction::SkipKeyDown { .. } | Instruction::SkipKeyUp { .. }
            | Instruction::WaitKey { .. } => self.execute_control(ins, random),
            Instruction::Draw { .. } | Instruction::AddIndex { .. } | Instruction::FontChar { .. }
            | Instruction::Bcd { .. } | Instruction::StoreRegs { .. }
            | Instruction::LoadRegs { .. } => self.execute_memory(ins, random),
            _ => self.execute_registers(ins, random),
        }
        Ok(())
    }

    /// Decodes and executes one instruction word. The program counter is taken
    /// to be already past it. A `Cxnn` instruction masks a byte drawn from the
    /// random number generator; every other instruction is deterministic.
    pub fn run_instr(&mut self, instr: u16) -> (r: Result<(), Fault>)
        ensures
            exists|rnd: u8| (final(self)@, r) == execute_spec(old(self)@, decode_spec(instr), rnd),
            !(decode_spec(instr) is Random) ==> (final(self)@, r) == execute_spec(
                old(self)@,
                decode_spec(instr),
                0,
            ),
    {
        let ins = decode(instr);
        let random: u8 = if matches!(ins, Instruction::Random { .. }) {
            rand::random::<u8>()
        } else {
            0
        };
        self.execute(ins, random)
    }

    /// One machine cycle: fetches the word at the program counter, moves the
    /// program counter past it, and executes it.
    pub fn process(&mut self) -> (r: Result<(), Fault>)
        ensures
            exists|rnd: u8| (final(self)@, r) == cycle_spec(old(self)@, rnd),
            !(decode_spec(word_at(old(self).mem@, old(self).pc)) is Random) ==> (final(self)@, r)
                == cycle_spec(old(self)@, 0),
    {
        let instr = Emulator::read_word(self.mem, self.pc);
        self.pc = self.pc.wrapping_add(2);
        let ghost fetched = self@;
        assert(fetched == (Machine { pc: advance(old(self).pc, 2), ..old(self)@ }));
        let r = self.run_instr(instr);
        proof {
            let rnd = choose|rnd: u8| (self@, r) == execute_spec(fetched, decode_spec(instr), rnd);
            assert((self@, r) == cycle_spec(old(self)@, rnd));
        }
        r
    }

    /// `Dxyn`: draws the `n`-row sprite stored at `I` with its top-left corner at
    /// `(Vx mod 64, Vy mod 32)`, flipping the pixel under each set bit.
    fn draw_sprite(&mut self, x: u8, y: u8, n: u8)
        requires
            x < 16,
            y < 16,
            n < 16,
        ensures
            final(self)@ == draw_spec(old(self)@, x as int, y as int, n as int),
    {
        let ghost s = self@;
        let dx = self.v[x as usize] % 64;
        let dy = self.v[y as usize] % 32;
        self.v[FLAG] = 0;
        assert(self.vmem@ =~= drawn_upto(s.vmem, s.mem, s.i, dx as int, dy as int, n as int, 0));
        let mut j: u8 = 0;
        while j < n
            invariant
                j <= n < 16,
                dx < 64,
                dy < 32,
                dx == s.v[x as int] as int % 64,
                dy == s.v[y as int] as int % 32,
                s.wf(),
                self.i == s.i,
                self.pc == s.pc,
                self.mem@ == s.mem,
                self.stack@ == s.stack,
                self.keypad@ == s.keypad,
                self.dt == s.dt,
                self.v@ == s.v.update(
                    FLAG as int,
                    collision(s.vmem, s.mem, s.i, dx as int, dy as int, (8 * j) as nat),
                ),
                self.vmem@ == drawn_upto(s.vmem, s.mem, s.i, dx as int, dy as int, n as int, 8 * j),
            decreases n - j,
        {
            let row = self.mem[(self.i as usize + j as usize) % MEMORY_SIZE];
            let mut k: u8 = 0;
            while k < 8
                invariant
                    k <= 8,
                    j < n < 16,
                    dx < 64,
                    dy < 32,
                    s.wf(),
                    row == s.mem[addr_at(s.i, j as int)],
                    self.i == s.i,
                    self.pc == s.pc,
                    self.mem@ == s.mem,
                    self.stack@ == s.stack,
                    self.keypad@ == s.keypad,
                    self.dt == s.dt,
                    self.v@ == s.v.update(
                        FLAG as int,
                        collision(s.vmem, s.mem, s.i, dx as int, dy as int, (8 * j + k) as nat),
                    ),
                    self.vmem@ == drawn_upto(
                        s.vmem,
                        s.mem,
                        s.i,
                        dx as int,
                        dy as int,
                        n as int,
                        8 * j + k,
                    ),
                decreases 8 - k,
            {
                let ghost t = 8 * j + k;
                let ghost before = self.vmem@;
                proof {
                    lemma_pixel_at(dx as int, dy as int, j as int, k as int);
                    assert(t / 8 == j && t % 8 == k);
                }
                let idx = ((dx + k) % 64) as usize + ((dy + j) % 32) as usize * 64;
                assert(idx == pixel_at(dx as int, dy as int, j as int, k as int));
                let bit = (row >> (7 - k)) & 1 == 1;
                assert(bit == sprite_bit(row, k as int));
                if bit {
                    let old_pixel = self.vmem[idx];
                    assert(old_pixel == s.vmem[idx as int]);
                    self.v[FLAG] = old_pixel;
                    self.vmem[idx] = old_pixel ^ 1;
                } 
                proof {
                    assert forall|p: int|
                        0 <= p < 2048 && lit(s.mem, s.i, dx as int, dy as int, n as int, p)
                            && scan_index(p, dx as int, dy as int) == t implies p == idx by {
                        assert(row_offset(p, dy as int) == j && col_offset(p, dx as int) == k);
                    }
                    assert(self.vmem@ =~= drawn_upto(
                        s.vmem,
                        s.mem,
                        s.i,
                        dx as int,
                        dy as int,
                        n as int,
                        t + 1,
                    ));
                    assert(self.v@ =~= s.v.update(
                        FLAG as int,
                        collision(s.vmem, s.mem, s.i, dx as int, dy as int, (t + 1) as nat),
                    ));
                }
                k += 1;
            }
            j += 1;
        }
    }
}

} // verus!
