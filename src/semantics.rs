//! What each instruction does to the abstract machine state.

use vstd::prelude::*;

use crate::decode::{decode_spec, Instruction};
use crate::model::{
    addr_at, advance, first_key, key_down, word_at, Fault, Machine, FONT_START, MEMORY_SIZE,
    REGISTER_COUNT, SCREEN_SIZE,
};
use crate::sprite::{collision, drawn};

verus! {

/// Index of the flag register `VF`.
pub const FLAG: usize = 15;

/// `s` with register `x` set to `val`.
pub open spec fn set_v(s: Machine, x: int, val: u8) -> Machine {
    Machine { v: s.v.update(x, val), ..s }
}

/// `s` with the flag register set to `f`.
pub open spec fn set_flag(s: Machine, f: u8) -> Machine {
    set_v(s, FLAG as int, f)
}

/// `s` with the next instruction skipped when `cond` holds.
pub open spec fn skip_if(s: Machine, cond: bool) -> Machine {
    if cond {
        Machine { pc: advance(s.pc, 2), ..s }
    } else {
        s
    }
}

/// `vx + vy` modulo 256, then the carry in the flag register.
pub open spec fn add_with_carry(s: Machine, x: int, y: int) -> Machine {
    let sum = s.v[x] + s.v[y];
    set_flag(
        set_v(s, x, (sum % 256) as u8),
        if sum > 255 {
            1
        } else {
            0
        },
    )
}

/// Register `x` set to `a - b` modulo 256, then the flag register to 1 when
/// there was no borrow (`a >= b`) and to 0 when there was.
pub open spec fn sub_with_borrow(s: Machine, x: int, a: u8, b: u8) -> Machine {
    set_flag(
        set_v(s, x, ((a - b) % 256) as u8),
        if a >= b {
            1
        } else {
            0
        },
    )
}

/// The sprite drawn: the origin wraps onto the screen, `VF` reports collision.
pub open spec fn draw_spec(s: Machine, x: int, y: int, n: int) -> Machine {
    let dx = s.v[x] as int % 64;
    let dy = s.v[y] as int % 32;
    Machine {
        v: s.v.update(FLAG as int, collision(s.vmem, s.mem, s.i, dx, dy, (8 * n) as nat)),
        vmem: drawn(s.vmem, s.mem, s.i, dx, dy, n),
        ..s
    }
}

/// Memory with the first `count` registers stored from `I` on.
pub open spec fn stored_regs(s: Machine, count: int) -> Seq<u8> {
    Seq::new(
        MEMORY_SIZE as nat,
        |a: int|
            {
                let k = (a - s.i) % (MEMORY_SIZE as int);
                if k < count {
                    s.v[k]
                } else {
                    s.mem[a]
                }
            },
    )
}

/// Registers with the first `count` of them loaded from `I` on.
pub open spec fn loaded_regs(s: Machine, count: int) -> Seq<u8> {
    Seq::new(
        REGISTER_COUNT as nat,
        |k: int|
            if k < count {
                s.mem[addr_at(s.i, k)]
            } else {
                s.v[k]
            },
    )
}

/// The state after an instruction that always succeeds, with `rnd` as the
/// random byte drawn by `Cxnn`.
pub open spec fn effect(s: Machine, ins: Instruction, rnd: u8) -> Machine {
    match ins {
        Instruction::ClearScreen => Machine { vmem: Seq::new(SCREEN_SIZE as nat, |p: int| 0u8), ..s },
        Instruction::Jump { addr } => Machine { pc: addr, ..s },
        Instruction::Call { addr } => Machine { stack: s.stack.push(s.pc), pc: addr, ..s },
        Instruction::SkipEqImm { x, nn } => skip_if(s, s.v[x as int] == nn),
        Instruction::SkipNeImm { x, nn } => skip_if(s, s.v[x as int] != nn),
        Instruction::SkipEqReg { x, y } => skip_if(s, s.v[x as int] == s.v[y as int]),
        Instruction::SkipNeReg { x, y } => skip_if(s, s.v[x as int] != s.v[y as int]),
        Instruction::SetImm { x, nn } => set_v(s, x as int, nn),
        Instruction::AddImm { x, nn } => set_v(s, x as int, ((s.v[x as int] + nn) % 256) as u8),
        Instruction::Assign { x, y } => set_v(s, x as int, s.v[y as int]),
        Instruction::Or { x, y } => set_v(s, x as int, s.v[x as int] | s.v[y as int]),
        Instruction::And { x, y } => set_v(s, x as int, s.v[x as int] & s.v[y as int]),
        Instruction::Xor { x, y } => set_v(s, x as int, s.v[x as int] ^ s.v[y as int]),
        Instruction::AddReg { x, y } => add_with_carry(s, x as int, y as int),
        Instruction::Sub { x, y } => sub_with_borrow(s, x as int, s.v[x as int], s.v[y as int]),
        Instruction::SubRev { x, y } => sub_with_borrow(s, x as int, s.v[y as int], s.v[x as int]),
        Instruction::ShiftRight { x, y } => set_v(
            set_flag(s, s.v[x as int] % 2),
            x as int,
            s.v[y as int] / 2,
        ),
        Instruction::ShiftLeft { x, y } => set_v(
            set_flag(s, s.v[x as int] / 128),
            x as int,
            ((s.v[y as int] * 2) % 256) as u8,
        ),
        Instruction::SetIndex { addr } => Machine { i: addr, ..s },
        Instruction::JumpOffset { addr } => Machine { pc: (s.v[0] + addr) as u16, ..s },
        Instruction::Random { x, nn } => set_v(s, x as int, rnd & nn),
        Instruction::Draw { x, y, n } => draw_spec(s, x as int, y as int, n as int),
        Instruction::SkipKeyDown { x } => skip_if(s, key_down(s.keypad, s.v[x as int])),
        Instruction::SkipKeyUp { x } => skip_if(s, !key_down(s.keypad, s.v[x as int])),
        Instruction::GetDelay { x } => set_v(s, x as int, s.dt),
        Instruction::SetDelay { x } => Machine { dt: s.v[x as int], ..s },
        Instruction::WaitKey { x } => if first_key(s.keypad) < REGISTER_COUNT {
            set_v(s, x as int, first_key(s.keypad) as u8)
        } else {
            Machine { pc: advance(s.pc, -2), ..s }
        },
        Instruction::AddIndex { x } => {
            let sum = s.i + s.v[x as int];
            let t = Machine { i: (sum % 0x10000) as u16, ..s };
            if sum > 0x0FFF {
                set_flag(t, 1)
            } else {
                t
            }
        },
        Instruction::FontChar { x } => Machine { i: (FONT_START + s.v[x as int] % 16) as u16, ..s },
        Instruction::Bcd { x } => {
            let vx = s.v[x as int];
            Machine {
                mem: s.mem.update(addr_at(s.i, 0), vx / 100).update(addr_at(s.i, 1), (vx / 10) % 10).update(
                    addr_at(s.i, 2),
                    vx % 10,
                ),
                ..s
            }
        },
        Instruction::StoreRegs { x } => Machine { mem: stored_regs(s, x + 1), ..s },
        Instruction::LoadRegs { x } => Machine { v: loaded_regs(s, x + 1), ..s },
        Instruction::Return => s,
        Instruction::Unknown { .. } => s,
    }
}

/// The state and outcome of executing `ins` in state `s`, with `rnd` as the
/// random byte drawn by `Cxnn`. A fault leaves the state as it was.
pub open spec fn execute_spec(s: Machine, ins: Instruction, rnd: u8) -> (Machine, Result<(), Fault>) {
    match ins {
        Instruction::Return => if s.stack.len() == 0 {
            (s, Err(Fault::StackUnderflow))
        } else {
            (Machine { pc: s.stack.last(), stack: s.stack.drop_last(), ..s }, Ok(()))
        },
        Instruction::Unknown { word } => (s, Err(Fault::Unimplemented { word })),
        _ => (effect(s, ins, rnd), Ok(())),
    }
}

/// One machine cycle: fetch the word at the program counter, move the program
/// counter past it, then execute it.
pub open spec fn cycle_spec(s: Machine, rnd: u8) -> (Machine, Result<(), Fault>) {
    execute_spec(
        Machine { pc: advance(s.pc, 2), ..s },
        decode_spec(word_at(s.mem, s.pc)),
        rnd,
    )
}

} // verus!
