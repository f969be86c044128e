//! Properties that relate several operations of the machine.

use vstd::prelude::*;

use crate::decode::{decode_spec, Instruction};
use crate::font::font_glyphs;
use crate::model::{
    advance, first_key, first_key_from, initial_machine, with_program, word_at, Fault, Machine,
    FONT_START, PROGRAM_START, REGISTER_COUNT,
};
use crate::model::addr_at;
use crate::semantics::{cycle_spec, draw_spec, execute_spec, set_v, FLAG};
use crate::sprite::{collision, drawn, lemma_pixel_at, lit, pixel_at, sprite_bit};

verus! {

/// A new machine holds the hexadecimal font, byte for byte, at
/// `FONT_START..FONT_START + 80`.
pub proof fn lemma_font_table()
    ensures
        initial_machine().mem.subrange(FONT_START as int, FONT_START + 80) == font_glyphs(),
{
    assert(initial_machine().mem.subrange(FONT_START as int, FONT_START + 80) =~= font_glyphs());
}

/// Loading an image that fits puts exactly its bytes at `PROGRAM_START` on,
/// and leaves every other byte of memory as it was.
pub proof fn lemma_load_places_image(mem: Seq<u8>, image: Seq<u8>)
    requires
        mem.len() == 4096,
        image.len() <= 3584,
    ensures
        with_program(mem, image).len() == mem.len(),
        with_program(mem, image).subrange(
            PROGRAM_START as int,
            PROGRAM_START + image.len(),
        ) == image,
        forall|a: int|
            0 <= a < mem.len() && !(PROGRAM_START <= a < PROGRAM_START + image.len()) ==> (
            #[trigger] with_program(mem, image)[a]) == mem[a],
{
    assert(with_program(mem, image).subrange(PROGRAM_START as int, PROGRAM_START + image.len())
        =~= image);
}

/// A call pushes the address after it and jumps; the return that follows pops
/// that address back into the program counter and leaves the stack as it was.
pub proof fn lemma_call_then_return(s: Machine, addr: u16, r1: u8, r2: u8)
    requires
        s.wf(),
        addr < 0x1000,
    ensures
        ({
            let (s1, o1) = execute_spec(s, decode_spec((0x2000 + addr) as u16), r1);
            let (s2, o2) = execute_spec(s1, decode_spec(0x00EE), r2);
            &&& o1 is Ok
            &&& s1.pc == addr
            &&& s1.stack == s.stack.push(s.pc)
            &&& s1.stack.len() == s.stack.len() + 1
            &&& o2 is Ok
            &&& s2.pc == s.pc
            &&& s2.stack == s.stack
            &&& s2 == (Machine { pc: s.pc, ..s })
        }),
{
    let w = (0x2000 + addr) as u16;
    assert(w / 0x1000 == 2);
    assert(w % 0x1000 == addr);
    let s1 = execute_spec(s, decode_spec(w), r1).0;
    assert(s1.stack.drop_last() =~= s.stack);
}

/// `Fx0A` with no key down leaves the whole machine unchanged, program counter
/// included, so every later cycle waits again; with a key down it stores the
/// lowest such key in `Vx` and moves on.
pub proof fn lemma_wait_key(s: Machine, x: u8, rnd: u8)
    requires
        s.wf(),
        x < 16,
        word_at(s.mem, s.pc) == 0xF00A + 0x100 * x,
    ensures
        (forall|k: int| 0 <= k < REGISTER_COUNT ==> !s.keypad[k]) ==> cycle_spec(s, rnd) == (
        s, Ok::<(), Fault>(())),
        (exists|k: int| 0 <= k < REGISTER_COUNT && s.keypad[k]) ==> ({
            let key = first_key(s.keypad);
            &&& key < REGISTER_COUNT
            &&& s.keypad[key as int]
            &&& forall|k: int| 0 <= k < key ==> !s.keypad[k]
            &&& cycle_spec(s, rnd) == (set_v(
                Machine { pc: advance(s.pc, 2), ..s },
                x as int,
                key as u8,
            ), Ok::<(), Fault>(()))
        }),
{
    let w = word_at(s.mem, s.pc);
    assert(w / 0x1000 == 0xF && (w / 0x100) % 16 == x && w % 0x100 == 0x0A);
    lemma_first_key(s.keypad, 0);
}

/// What `first_key_from` finds: the lowest key at or above `k` that is down,
/// or `REGISTER_COUNT` when there is none.
proof fn lemma_first_key(keypad: Seq<bool>, k: nat)
    requires
        keypad.len() == REGISTER_COUNT,
        k <= REGISTER_COUNT,
    ensures
        ({
            let f = first_key_from(keypad, k);
            &&& k <= f <= REGISTER_COUNT
            &&& forall|j: int| k <= j < f ==> !keypad[j]
            &&& f < REGISTER_COUNT ==> keypad[f as int]
        }),
    decreases REGISTER_COUNT - k,
{
    if k < REGISTER_COUNT && !keypad[k as int] {
        lemma_first_key(keypad, k + 1);
    }
}

/// A word that matches no instruction is reported and skipped: the program
/// counter ends two bytes on and nothing else changes. The all-zero word is such
/// a word.
pub proof fn lemma_unimplemented(s: Machine, rnd: u8)
    requires
        decode_spec(word_at(s.mem, s.pc)) is Unknown,
    ensures
        cycle_spec(s, rnd) == (Machine { pc: advance(s.pc, 2), ..s }, Err::<(), Fault>(
            Fault::Unimplemented { word: word_at(s.mem, s.pc) },
        )),
        decode_spec(0) == (Instruction::Unknown { word: 0 }),
{
}

/// Only `Cxnn` depends on the random byte.
pub proof fn lemma_only_random_draws(s: Machine, ins: Instruction, a: u8, b: u8)
    requires
        !(ins is Random),
    ensures
        execute_spec(s, ins, a) == execute_spec(s, ins, b),
{
}

/// A sprite drawn on a clear screen reports no collision. Drawn again at the
/// same place, it clears the screen again, and reports a collision exactly when
/// it has a set bit.
pub proof fn lemma_draw_twice(s: Machine, x: int, y: int, n: int)
    requires
        s.wf(),
        0 <= x < FLAG,
        0 <= y < FLAG,
        0 <= n < 16,
        forall|p: int| 0 <= p < s.vmem.len() ==> s.vmem[p] == 0,
    ensures
        ({
            let s1 = draw_spec(s, x, y, n);
            let s2 = draw_spec(s1, x, y, n);
            &&& s1.v[FLAG as int] == 0
            &&& s2.vmem == s.vmem
            &&& s2.v[FLAG as int] == if exists|j: int, k: int|
                0 <= j < n && 0 <= k < 8 && #[trigger] sprite_bit(s.mem[addr_at(s.i, j)], k) {
                1u8
            } else {
                0u8
            }
        }),
{
    let dx = s.v[x] as int % 64;
    let dy = s.v[y] as int % 32;
    let s1 = draw_spec(s, x, y, n);
    let s2 = draw_spec(s1, x, y, n);
    lemma_collision_on_clear(s.vmem, s.mem, s.i, dx, dy, (8 * n) as nat);
    assert(s1.v[x] == s.v[x] && s1.v[y] == s.v[y]);
    assert((0u8 ^ 1u8) ^ 1u8 == 0u8) by (bit_vector);
    assert(s2.vmem =~= s.vmem);
    lemma_collision_after_draw(s.vmem, s.mem, s.i, dx, dy, n, (8 * n) as nat);
    if exists|j: int, k: int|
        0 <= j < n && 0 <= k < 8 && #[trigger] sprite_bit(s.mem[addr_at(s.i, j)], k) {
        let (j, k) = choose|j: int, k: int|
            0 <= j < n && 0 <= k < 8 && #[trigger] sprite_bit(s.mem[addr_at(s.i, j)], k);
        assert((8 * j + k) / 8 == j && (8 * j + k) % 8 == k);
        assert(nth_bit(s.mem, s.i, 8 * j + k));
        lemma_first_bits_grow(s.mem, s.i, 8 * j + k + 1, 8 * n);
    } else {
        if first_bits(s.mem, s.i, 8 * n) {
            let u = choose|u: int| 0 <= u < 8 * n && #[trigger] nth_bit(s.mem, s.i, u);
            assert(0 <= u / 8 < n && 0 <= u % 8 < 8);
        }
    }
}

/// Sprite bit `u` in drawing order, for a sprite stored at `i`.
spec fn nth_bit(mem: Seq<u8>, i: u16, u: int) -> bool {
    sprite_bit(mem[addr_at(i, u / 8)], u % 8)
}

/// Some sprite bit among the first `t`, in drawing order, is set.
spec fn first_bits(mem: Seq<u8>, i: u16, t: int) -> bool {
    exists|u: int| 0 <= u < t && #[trigger] nth_bit(mem, i, u)
}

proof fn lemma_first_bits_grow(mem: Seq<u8>, i: u16, t: int, t2: int)
    requires
        first_bits(mem, i, t),
        t <= t2,
    ensures
        first_bits(mem, i, t2),
{
    let u = choose|u: int| 0 <= u < t && #[trigger] nth_bit(mem, i, u);
    assert(0 <= u < t2 && nth_bit(mem, i, u));
}

/// On a clear screen no pixel under the sprite was set.
proof fn lemma_collision_on_clear(vmem: Seq<u8>, mem: Seq<u8>, i: u16, dx: int, dy: int, t: nat)
    requires
        0 <= dx < 64,
        0 <= dy < 32,
        t <= 8 * 32,
        vmem.len() == 2048,
        forall|p: int| 0 <= p < vmem.len() ==> vmem[p] == 0,
    ensures
        collision(vmem, mem, i, dx, dy, t) == 0,
    decreases t,
{
    if t > 0 {
        let j = (t - 1) / 8;
        let k = (t - 1) % 8;
        lemma_pixel_at(dx, dy, j, k);
        lemma_collision_on_clear(vmem, mem, i, dx, dy, (t - 1) as nat);
    }
}

/// Drawn over a sprite just drawn on a clear screen, each set bit finds its
/// pixel set.
proof fn lemma_collision_after_draw(
    vmem: Seq<u8>,
    mem: Seq<u8>,
    i: u16,
    dx: int,
    dy: int,
    n: int,
    t: nat,
)
    requires
        0 <= dx < 64,
        0 <= dy < 32,
        0 <= n < 16,
        t <= 8 * n,
        vmem.len() == 2048,
        forall|p: int| 0 <= p < vmem.len() ==> vmem[p] == 0,
    ensures
        collision(drawn(vmem, mem, i, dx, dy, n), mem, i, dx, dy, t) == if first_bits(mem, i, t as int) {
            1u8
        } else {
            0u8
        },
    decreases t,
{
    if t > 0 {
        let j = (t - 1) / 8;
        let k = (t - 1) % 8;
        lemma_pixel_at(dx, dy, j, k);
        lemma_collision_after_draw(vmem, mem, i, dx, dy, n, (t - 1) as nat);
        let p = pixel_at(dx, dy, j, k);
        assert((0u8 ^ 1u8) == 1u8) by (bit_vector);
        if sprite_bit(mem[addr_at(i, j)], k) {
            assert(lit(mem, i, dx, dy, n, p));
            assert(nth_bit(mem, i, t - 1));
        } else {
            if first_bits(mem, i, t as int) {
                let u = choose|u: int| 0 <= u < t && #[trigger] nth_bit(mem, i, u);
                assert(u != t - 1);
                assert(first_bits(mem, i, t - 1));
            }
            if first_bits(mem, i, t - 1) {
                lemma_first_bits_grow(mem, i, t - 1, t as int);
            }
        }
    }
}

} // verus!
