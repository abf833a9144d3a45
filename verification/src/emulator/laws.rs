//! Laws of the display and of the instruction set, proved of the model that
//! the machine's contracts are stated over.

use crate::emulator::bits::lemma_shift_by_one;
use crate::emulator::decode::{decode_spec, Opcode};
use crate::emulator::keyboard::host_key;
use crate::emulator::screen::{cell, collides, lit_cells, pixel_index, toggled};
use crate::emulator::state::{lowest_key, lowest_key_from, sprite_bit, wrap16, wrap8, State};
use macroquad::input::KeyCode;
use vstd::prelude::*;

verus! {

/// Whatever an instruction word decodes to has its operands within the
/// width of their fields.
pub proof fn lemma_decoded_is_wf(ins: u16)
    ensures
        decode_spec(ins) matches Some(op) ==> op.wf(),
{
}

/// No two pad keys share a host key, and no pad key is mapped to the key
/// that stands for "not a pad key".
pub proof fn lemma_host_keys_distinct(x: u8, y: u8)
    requires
        x < 16,
        y < 16,
    ensures
        host_key(x) == host_key(y) ==> x == y,
        host_key(x) != KeyCode::Z,
{
}

/// Drawing wraps around: coordinates outside the grid address the pixel at
/// `row % 32`, `col % 64`, which lies inside it, so that drawing there has
/// the same effect and reports the same collision.
pub proof fn lemma_set_wraps(pixels: Seq<bool>, row: int, col: int, val: bool)
    ensures
        0 <= row % 32 < 32,
        0 <= col % 64 < 64,
        0 <= pixel_index(row, col) < 2048,
        pixel_index(row, col) == pixel_index(row % 32, col % 64),
        pixel_index(row, col) == (row % 32) * 64 + col % 64,
        toggled(pixels, row, col, val) == toggled(pixels, row % 32, col % 64, val),
        collides(pixels, row, col, val) == collides(pixels, row % 32, col % 64, val),
{
}

/// Drawing the same value twice at the same place restores the grid.
pub proof fn lemma_set_twice_restores(pixels: Seq<bool>, row: int, col: int, val: bool)
    requires
        pixels.len() == 2048,
    ensures
        toggled(toggled(pixels, row, col, val), row, col, val) == pixels,
{
}

/// What is painted shows the display: every square stands for a lit pixel,
/// and every lit pixel has its square, `PIXEL_SIZE` wide and high, at
/// `PIXEL_SIZE` times its column and row.
pub proof fn lemma_lit_cells_are_the_lit_pixels(pixels: Seq<bool>, k: int)
    requires
        0 <= k <= pixels.len(),
    ensures
        forall|i: int| 0 <= i < k && pixels[i] ==> lit_cells(pixels, k).contains(cell(i)),
        forall|j: int|
            0 <= j < lit_cells(pixels, k).len() ==> exists|i: int|
                0 <= i < k && pixels[i] && #[trigger] cell(i) == #[trigger] lit_cells(pixels, k)[j],
        forall|i: int|
            0 <= i < 2048 ==> (#[trigger] cell(i)).x == i % 64 * 24 && cell(i).y == i / 64 * 24
                && cell(i).w == 24 && cell(i).h == 24,
    decreases k,
{
    if k > 0 {
        lemma_lit_cells_are_the_lit_pixels(pixels, k - 1);
        let before = lit_cells(pixels, k - 1);
        let now = lit_cells(pixels, k);
        if pixels[k - 1] {
            assert(now[before.len() as int] == cell(k - 1));
        }
        assert forall|i: int| 0 <= i < k && pixels[i] implies now.contains(cell(i)) by {
            if i < k - 1 {
                let j = choose|j: int| 0 <= j < before.len() && before[j] == cell(i);
                assert(now[j] == cell(i));
            }
        }
        assert forall|j: int| 0 <= j < now.len() implies exists|i: int|
            0 <= i < k && pixels[i] && #[trigger] cell(i) == #[trigger] now[j] by {
            if j < before.len() {
                assert(now[j] == before[j]);
                let i = choose|i: int|
                    0 <= i < k - 1 && pixels[i] && #[trigger] cell(i) == before[j];
                assert(0 <= i < k && pixels[i] && cell(i) == now[j]);
            } else {
                assert(0 <= k - 1 < k && pixels[k - 1] && cell(k - 1) == now[j]);
            }
        }
    }
}

/// The grid after the first `k` pixels of the sprite at `i` have been drawn
/// with its top-left corner held at `row`, `col`.
spec fn stamped(
    pixels: Seq<bool>,
    memory: Seq<u8>,
    i: int,
    row: int,
    col: int,
    k: nat,
) -> Seq<bool>
    decreases k,
{
    if k == 0 {
        pixels
    } else {
        toggled(
            stamped(pixels, memory, i, row, col, (k - 1) as nat),
            row + (k - 1) / 8,
            col + (k - 1) % 8,
            sprite_bit(memory[i + (k - 1) / 8], (k - 1) % 8),
        )
    }
}

/// Whether the first `k` pixels of the sprite flip the pixel stored at `at`
/// an odd number of times.
spec fn flips(memory: Seq<u8>, i: int, row: int, col: int, at: int, k: nat) -> bool
    decreases k,
{
    if k == 0 {
        false
    } else {
        flips(memory, i, row, col, at, (k - 1) as nat) != (pixel_index(
            row + (k - 1) / 8,
            col + (k - 1) % 8,
        ) == at && sprite_bit(memory[i + (k - 1) / 8], (k - 1) % 8))
    }
}

/// A sprite changes exactly the pixels that it flips an odd number of times.
proof fn lemma_stamped_by_flips(
    pixels: Seq<bool>,
    memory: Seq<u8>,
    i: int,
    row: int,
    col: int,
    k: nat,
)
    requires
        pixels.len() == 2048,
    ensures
        stamped(pixels, memory, i, row, col, k).len() == 2048,
        forall|at: int|
            0 <= at < 2048 ==> stamped(pixels, memory, i, row, col, k)[at] == (pixels[at] != flips(
                memory,
                i,
                row,
                col,
                at,
                k,
            )),
    decreases k,
{
    if k > 0 {
        lemma_stamped_by_flips(pixels, memory, i, row, col, (k - 1) as nat);
    }
}

/// While neither coordinate register is the flag register, a sprite is drawn
/// with its corner held in place.
proof fn lemma_draw_steps_stamp(s: State, x: int, y: int, k: nat)
    requires
        s.wf(),
        0 <= x < 15,
        0 <= y < 15,
    ensures
        s.draw_steps(x, y, k).0 == stamped(
            s.pixels,
            s.memory,
            s.i as int,
            s.v[y] as int,
            s.v[x] as int,
            k,
        ),
    decreases k,
{
    if k > 0 {
        lemma_draw_steps_stamp(s, x, y, (k - 1) as nat);
    }
}

/// Drawing a sprite twice at the same place restores the display, as long as
/// neither coordinate is read from the flag register (which the first
/// drawing may change).
pub proof fn lemma_draw_twice_restores(s: State, x: usize, y: usize, n: u8, r1: u8, r2: u8)
    requires
        s.wf(),
        x < 15,
        y < 15,
    ensures
        s.step((Opcode::Draw { x, y, n }), r1).step((Opcode::Draw { x, y, n }), r2).pixels
            == s.pixels,
{
    let k = (8 * n) as nat;
    let once = s.step((Opcode::Draw { x, y, n }), r1);
    let twice = once.step((Opcode::Draw { x, y, n }), r2);
    let row = s.v[y as int] as int;
    let col = s.v[x as int] as int;
    lemma_draw_steps_stamp(s, x as int, y as int, k);
    lemma_stamped_by_flips(s.pixels, s.memory, s.i as int, row, col, k);
    assert(once.wf());
    lemma_draw_steps_stamp(once, x as int, y as int, k);
    lemma_stamped_by_flips(once.pixels, s.memory, s.i as int, row, col, k);
    assert(twice.pixels =~= s.pixels);
}

/// Register addition: the flag register ends as 1 if the sum exceeds 255 and
/// as 0 otherwise, and the target register, unless it is the flag register
/// itself, holds the sum modulo 256.
pub proof fn lemma_add_sets_carry(s: State, x: usize, y: usize, random: u8)
    requires
        s.wf(),
        x < 16,
        y < 16,
    ensures
        s.step((Opcode::Add { x, y }), random).v[15] == if s.v[x as int] + s.v[y as int] > 255 {
            1u8
        } else {
            0u8
        },
        x != 15 ==> s.step((Opcode::Add { x, y }), random).v[x as int] == (s.v[x as int]
            + s.v[y as int]) % 256,
{
}

/// Register subtraction, in both directions: the flag register ends as 1
/// exactly if nothing had to be borrowed and as 0 otherwise, and the target
/// register, unless it is the flag register itself, holds the difference
/// modulo 256.
pub proof fn lemma_subtract_sets_no_borrow(s: State, x: usize, y: usize, random: u8)
    requires
        s.wf(),
        x < 16,
        y < 16,
    ensures
        s.step((Opcode::Subtract { x, y }), random).v[15] == if s.v[x as int] >= s.v[y as int] {
            1u8
        } else {
            0u8
        },
        x != 15 ==> s.step((Opcode::Subtract { x, y }), random).v[x as int] == (s.v[x as int]
            - s.v[y as int]) % 256,
        s.step((Opcode::SubtractFrom { x, y }), random).v[15] == if s.v[y as int]
            >= s.v[x as int] {
            1u8
        } else {
            0u8
        },
        x != 15 ==> s.step((Opcode::SubtractFrom { x, y }), random).v[x as int] == (s.v[y as int]
            - s.v[x as int]) % 256,
{
}

/// Shifts: the flag register ends as the bit that was shifted out, the
/// lowest bit for a shift to the right and the highest for a shift to the
/// left; the target register, unless it is the flag register itself, holds
/// the shifted byte.
pub proof fn lemma_shift_sets_lost_bit(s: State, x: usize, random: u8)
    requires
        s.wf(),
        x < 16,
    ensures
        s.step((Opcode::ShiftRight { x }), random).v[15] == s.v[x as int] & 1,
        s.step((Opcode::ShiftRight { x }), random).v[15] == s.v[x as int] % 2,
        x != 15 ==> s.step((Opcode::ShiftRight { x }), random).v[x as int] == s.v[x as int] >> 1,
        s.step((Opcode::ShiftLeft { x }), random).v[15] == (s.v[x as int] & 0x80) >> 7,
        s.step((Opcode::ShiftLeft { x }), random).v[15] == s.v[x as int] / 128,
        x != 15 ==> s.step((Opcode::ShiftLeft { x }), random).v[x as int] == s.v[x as int] << 1,
{
    lemma_shift_by_one(s.v[x as int]);
}

/// What the lowest key is: it is down, no key below it is, and if no key is
/// down at all it is the number of keys.
pub proof fn lemma_lowest_key(keys: Seq<bool>)
    ensures
        0 <= lowest_key(keys) <= keys.len(),
        lowest_key(keys) < keys.len() ==> keys[lowest_key(keys)],
        forall|j: int| 0 <= j < lowest_key(keys) ==> !keys[j],
{
    lemma_lowest_key_from(keys, 0);
}

proof fn lemma_lowest_key_from(keys: Seq<bool>, from: int)
    requires
        0 <= from,
    ensures
        from <= lowest_key_from(keys, from) || lowest_key_from(keys, from) == keys.len(),
        0 <= lowest_key_from(keys, from) <= keys.len(),
        lowest_key_from(keys, from) < keys.len() ==> keys[lowest_key_from(keys, from)],
        forall|j: int| from <= j < lowest_key_from(keys, from) ==> !keys[j],
    decreases keys.len() - from,
{
    if from < keys.len() && !keys[from] {
        lemma_lowest_key_from(keys, from + 1);
    }
}

/// The state after `op` has been carried out `n` times in a row.
pub open spec fn repeated(s: State, op: Opcode, random: u8, n: nat) -> State
    decreases n,
{
    if n == 0 {
        s
    } else {
        repeated(s, op, random, (n - 1) as nat).step(op, random)
    }
}

/// Waiting for a key while none is down changes nothing, however often the
/// instruction is carried out: the program counter stays on it.
pub proof fn lemma_wait_key_blocks(s: State, x: usize, random: u8, n: nat)
    requires
        forall|k: int| 0 <= k < s.keys.len() ==> !s.keys[k],
    ensures
        repeated(s, (Opcode::WaitKey { x }), random, n) == s,
    decreases n,
{
    lemma_lowest_key(s.keys);
    if n > 0 {
        lemma_wait_key_blocks(s, x, random, (n - 1) as nat);
    }
}

/// Waiting for a key while some key is down moves the program counter on by
/// one instruction and stores in `Vx` the number of the lowest key that is
/// down; nothing else changes.
pub proof fn lemma_wait_key_takes_lowest(s: State, x: usize, key: int, random: u8)
    requires
        s.wf(),
        x < 16,
        0 <= key < 16,
        s.keys[key],
        forall|j: int| 0 <= j < key ==> !s.keys[j],
    ensures
        s.step((Opcode::WaitKey { x }), random) == (State {
            pc: wrap16(s.pc + 2),
            v: s.v.update(x as int, key as u8),
            ..s
        }),
{
    lemma_lowest_key(s.keys);
}

/// Adding a byte to a register wraps around and leaves the flag register
/// alone, unless that is the register added to.
pub proof fn lemma_add_byte_keeps_flag(s: State, x: usize, kk: u8, random: u8)
    requires
        s.wf(),
        x < 16,
    ensures
        s.step((Opcode::AddByte { x, kk }), random).v[x as int] == wrap8(s.v[x as int] + kk),
        x != 15 ==> s.step((Opcode::AddByte { x, kk }), random).v[15] == s.v[15],
{
}

/// Only the random-number instruction looks at the random byte.
pub proof fn lemma_random_only_for_random(s: State, op: Opcode, r1: u8, r2: u8)
    requires
        !(op is Random),
    ensures
        s.step(op, r1) == s.step(op, r2),
{
}

} // verus!
