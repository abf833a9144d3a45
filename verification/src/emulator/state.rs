//! The mathematical model of the machine: its state as plain values and the
//! effect of every instruction on it.

use crate::emulator::decode::{decode_spec, Opcode};
use crate::emulator::screen::{blank, collides, toggled};
use vstd::prelude::*;

verus! {

/// The built-in glyphs for the hexadecimal digits `0` to `F`, five bytes
/// each, one byte per row with the glyph in the high four bits.
pub const FONT: [u8; 80] = [
    0xF0, 0x90, 0x90, 0x90, 0xF0, 0x20, 0x60, 0x20, 0x20, 0x70, 0xF0, 0x10, 0xF0, 0x80, 0xF0, 0xF0,
    0x10, 0xF0, 0x10, 0xF0, 0x90, 0x90, 0xF0, 0x10, 0x10, 0xF0, 0x80, 0xF0, 0x10, 0xF0, 0xF0, 0x80,
    0xF0, 0x90, 0xF0, 0xF0, 0x10, 0x20, 0x40, 0x40, 0xF0, 0x90, 0xF0, 0x90, 0xF0, 0xF0, 0x90, 0xF0,
    0x10, 0xF0, 0xF0, 0x90, 0xF0, 0x90, 0x90, 0xE0, 0x90, 0xE0, 0x90, 0xE0, 0xF0, 0x80, 0x80, 0x80,
    0xF0, 0xE0, 0x90, 0x90, 0x90, 0xE0, 0xF0, 0x80, 0xF0, 0x80, 0xF0, 0xF0, 0x80, 0xF0, 0x80, 0x80,
];

/// Why an instruction cannot be carried out in a given state.
///
/// The machine's own operations do not handle these: they require that the
/// caller has ruled them out, and [`crate::emulator::Chip8::fault`] is the
/// test for it.
#[derive(Clone, Copy, Debug, PartialEq, Eq, Structural)]
pub enum Fault {
    /// The word encodes no instruction.
    InvalidOpcode,
    /// A return with nothing on the call stack.
    StackUnderflow,
    /// The instruction reads or writes past the end of memory.
    BadAddress,
    /// The register that should name a key holds sixteen or more.
    NoSuchKey,
}

/// `n` reduced to a byte.
pub open spec fn wrap8(n: int) -> u8 {
    (n % 0x100) as u8
}

/// `n` reduced to sixteen bits.
pub open spec fn wrap16(n: int) -> u16 {
    (n % 0x1_0000) as u16
}

/// Column `col` of a sprite row, counted from the left: bit `7 - col` of the
/// byte.
pub open spec fn sprite_bit(row: u8, col: int) -> bool {
    (row >> ((7 - col) as u8)) & 1 == 1
}

/// Memory address of the glyph for `digit`.
pub open spec fn glyph_address(digit: u8) -> u16 {
    (digit * 5) as u16
}

/// The least index at or after `from` of a key that is down, or the number of
/// keys if there is none.
pub open spec fn lowest_key_from(keys: Seq<bool>, from: int) -> int
    decreases keys.len() - from,
{
    if from < 0 || from >= keys.len() {
        keys.len() as int
    } else if keys[from] {
        from
    } else {
        lowest_key_from(keys, from + 1)
    }
}

/// The lowest-numbered key that is down, or the number of keys if none is.
pub open spec fn lowest_key(keys: Seq<bool>) -> int {
    lowest_key_from(keys, 0)
}

/// Whether `ins` encodes the instruction that draws a random byte.
pub open spec fn uses_random(ins: u16) -> bool {
    decode_spec(ins) matches Some(Opcode::Random { .. })
}

/// Everything an instruction can read or change.
#[verifier::ext_equal]
pub struct State {
    /// The sixteen general registers `V0` to `VF`.
    pub v: Seq<u8>,
    /// The index register `I`.
    pub i: u16,
    /// The 4096 bytes of memory.
    pub memory: Seq<u8>,
    /// Return addresses, the most recent call last.
    pub stack: Seq<u16>,
    /// Address of the next instruction.
    pub pc: u16,
    /// The delay timer.
    pub delay: u8,
    /// The sound timer.
    pub sound: u8,
    /// The display, row after row.
    pub pixels: Seq<bool>,
    /// Which of the sixteen keys are down.
    pub keys: Seq<bool>,
}

impl State {
    /// The fixed-size parts have their sizes.
    pub open spec fn wf(self) -> bool {
        &&& self.v.len() == 16
        &&& self.memory.len() == 4096
        &&& self.pixels.len() == 2048
        &&& self.keys.len() == 16
    }

    /// The machine as it is switched on: the font at the bottom of memory,
    /// the program counter at the start of program space, all else zero.
    pub open spec fn power_on() -> State {
        State {
            v: Seq::new(16, |k: int| 0u8),
            i: 0,
            memory: Seq::new(4096, |a: int| if 0 <= a < 80 { FONT@[a] } else { 0u8 }),
            stack: Seq::empty(),
            pc: 0x200,
            delay: 0,
            sound: 0,
            pixels: blank(),
            keys: Seq::new(16, |k: int| false),
        }
    }

    /// The state after `program` has been copied to the start of program
    /// space and the font written afresh.
    pub open spec fn load(self, program: Seq<u8>) -> State {
        State {
            memory: Seq::new(
                4096,
                |a: int|
                    if 0 <= a < 80 {
                        FONT@[a]
                    } else if 0x200 <= a < 0x200 + program.len() {
                        program[a - 0x200]
                    } else {
                        self.memory[a]
                    },
            ),
            ..self
        }
    }

    /// The program counter moved on by one instruction.
    pub open spec fn next(self) -> State {
        State { pc: wrap16(self.pc + 2), ..self }
    }

    /// The program counter moved on by one instruction, or by two if `cond`.
    pub open spec fn skip_if(self, cond: bool) -> State {
        State { pc: wrap16(self.pc + if cond { 4int } else { 2int }), ..self }
    }

    /// Register `x` set to `value`.
    pub open spec fn set_v(self, x: int, value: u8) -> State {
        State { v: self.v.update(x, value), ..self }
    }

    /// Register `x` set to `value`, and after that the flag register to
    /// `flag`: where `x` is the flag register itself, the flag stays.
    pub open spec fn set_v_and_flag(self, x: int, value: u8, flag: u8) -> State {
        self.set_v(x, value).set_v(15, flag)
    }

    /// The display and the collision flag after the first `k` pixels of a
    /// sprite have been drawn, row by row and left to right.
    ///
    /// The sprite's rows are the bytes of memory from `I` on. Pixel `k` is
    /// column `k % 8` of row `k / 8` and goes to display column `Vx + k % 8`,
    /// row `Vy + k / 8`, wrapped. The registers are read anew for each pixel,
    /// with the flag as it stands by then.
    pub open spec fn draw_steps(self, x: int, y: int, k: nat) -> (Seq<bool>, u8)
        decreases k,
    {
        if k == 0 {
            (self.pixels, 0u8)
        } else {
            let (pixels, flag) = self.draw_steps(x, y, (k - 1) as nat);
            let v = self.v.update(15, flag);
            let line = (k - 1) / 8;
            let col = (k - 1) % 8;
            let on = sprite_bit(self.memory[self.i + line], col);
            (
                toggled(pixels, v[y] + line, v[x] + col, on),
                if collides(pixels, v[y] + line, v[x] + col, on) {
                    1u8
                } else {
                    flag
                },
            )
        }
    }

    /// The state after `op` has been carried out; `random` is the byte that
    /// the random-number instruction uses.
    pub open spec fn step(self, op: Opcode, random: u8) -> State {
        let v = self.v;
        match op {
            Opcode::ClearScreen => State { pixels: blank(), ..self }.next(),
            Opcode::Return => State {
                pc: wrap16(self.stack.last() + 2),
                stack: self.stack.drop_last(),
                ..self
            },
            Opcode::Jump { nnn } => State { pc: nnn, ..self },
            Opcode::Call { nnn } => State { pc: nnn, stack: self.stack.push(self.pc), ..self },
            Opcode::SkipIfEqual { x, kk } => self.skip_if(v[x as int] == kk),
            Opcode::SkipIfNotEqual { x, kk } => self.skip_if(v[x as int] != kk),
            Opcode::SkipIfSame { x, y } => self.skip_if(v[x as int] == v[y as int]),
            Opcode::SkipIfDifferent { x, y } => self.skip_if(v[x as int] != v[y as int]),
            Opcode::Load { x, kk } => self.set_v(x as int, kk).next(),
            Opcode::AddByte { x, kk } => self.set_v(x as int, wrap8(v[x as int] + kk)).next(),
            Opcode::Move { x, y } => self.set_v(x as int, v[y as int]).next(),
            Opcode::Or { x, y } => self.set_v_and_flag(
                x as int,
                v[x as int] | v[y as int],
                0,
            ).next(),
            Opcode::And { x, y } => self.set_v_and_flag(
                x as int,
                v[x as int] & v[y as int],
                0,
            ).next(),
            Opcode::Xor { x, y } => self.set_v_and_flag(
                x as int,
                v[x as int] ^ v[y as int],
                0,
            ).next(),
            Opcode::Add { x, y } => self.set_v_and_flag(
                x as int,
                wrap8(v[x as int] + v[y as int]),
                if v[x as int] + v[y as int] > 255 { 1 } else { 0 },
            ).next(),
            Opcode::Subtract { x, y } => self.set_v_and_flag(
                x as int,
                wrap8(v[x as int] - v[y as int]),
                if v[x as int] >= v[y as int] { 1 } else { 0 },
            ).next(),
            Opcode::SubtractFrom { x, y } => self.set_v_and_flag(
                x as int,
                wrap8(v[y as int] - v[x as int]),
                if v[y as int] >= v[x as int] { 1 } else { 0 },
            ).next(),
            Opcode::ShiftRight { x } => self.set_v_and_flag(
                x as int,
                v[x as int] / 2,
                v[x as int] % 2,
            ).next(),
            Opcode::ShiftLeft { x } => self.set_v_and_flag(
                x as int,
                wrap8(v[x as int] * 2),
                v[x as int] / 128,
            ).next(),
            Opcode::SetIndex { nnn } => State { i: nnn, ..self }.next(),
            Opcode::JumpOffset { nnn } => State { pc: wrap16(nnn + v[0]), ..self },
            Opcode::Random { x, kk } => self.set_v(x as int, random & kk).next(),
            Opcode::Draw { x, y, n } => {
                let (pixels, flag) = self.draw_steps(x as int, y as int, (8 * n) as nat);
                State { pixels, v: v.update(15, flag), ..self }.next()
            },
            Opcode::SkipIfKey { x } => self.skip_if(self.keys[v[x as int] as int]),
            Opcode::SkipIfNoKey { x } => self.skip_if(!self.keys[v[x as int] as int]),
            Opcode::GetDelay { x } => self.set_v(x as int, self.delay).next(),
            Opcode::WaitKey { x } => if lowest_key(self.keys) < self.keys.len() {
                self.set_v(x as int, lowest_key(self.keys) as u8).next()
            } else {
                self
            },
            Opcode::SetDelay { x } => State { delay: v[x as int], ..self }.next(),
            Opcode::SetSound { x } => State { sound: v[x as int], ..self }.next(),
            Opcode::AddIndex { x } => State { i: wrap16(self.i + v[x as int]), ..self }.next(),
            Opcode::Glyph { x } => State { i: glyph_address(v[x as int]), ..self }.next(),
            Opcode::Decimal { x } => State {
                memory: self.memory.update(self.i as int, v[x as int] / 100).update(
                    self.i + 1,
                    v[x as int] / 10 % 10,
                ).update(self.i + 2, v[x as int] % 10),
                ..self
            }.next(),
            Opcode::Store { x } => State {
                memory: Seq::new(
                    4096,
                    |a: int|
                        if self.i <= a <= self.i + x {
                            v[a - self.i]
                        } else {
                            self.memory[a]
                        },
                ),
                i: wrap16(self.i + x + 1),
                ..self
            }.next(),
            Opcode::Fill { x } => State {
                v: Seq::new(
                    16,
                    |k: int|
                        if 0 <= k <= x {
                            self.memory[self.i + k]
                        } else {
                            v[k]
                        },
                ),
                i: wrap16(self.i + x + 1),
                ..self
            }.next(),
        }
    }

    /// Why `op` cannot be carried out in this state, or `None` if it can.
    pub open spec fn fault(self, op: Opcode) -> Option<Fault> {
        match op {
            Opcode::Return => if self.stack.len() == 0 {
                Some(Fault::StackUnderflow)
            } else {
                None
            },
            Opcode::Draw { n, .. } => if n > 0 && self.i + n > 4096 {
                Some(Fault::BadAddress)
            } else {
                None
            },
            Opcode::SkipIfKey { x } | Opcode::SkipIfNoKey { x } => if self.v[x as int] >= 16 {
                Some(Fault::NoSuchKey)
            } else {
                None
            },
            Opcode::Decimal { .. } => if self.i + 2 >= 4096 {
                Some(Fault::BadAddress)
            } else {
                None
            },
            Opcode::Store { x } | Opcode::Fill { x } => if self.i + x >= 4096 {
                Some(Fault::BadAddress)
            } else {
                None
            },
            _ => None,
        }
    }

    /// Why the instruction word `ins` cannot be carried out in this state,
    /// or `None` if it can.
    pub open spec fn fault_of(self, ins: u16) -> Option<Fault> {
        match decode_spec(ins) {
            None => Some(Fault::InvalidOpcode),
            Some(op) => self.fault(op),
        }
    }

    /// The state after the instruction word `ins` has been carried out. A
    /// word that encodes no instruction changes nothing.
    pub open spec fn execute(self, ins: u16, random: u8) -> State {
        match decode_spec(ins) {
            None => self,
            Some(op) => self.step(op, random),
        }
    }

    /// The instruction word at the program counter, high byte first.
    pub open spec fn fetch(self) -> u16 {
        (self.memory[self.pc as int] * 0x100 + self.memory[self.pc + 1]) as u16
    }

    /// Both timers moved one step towards zero.
    pub open spec fn count_down(self) -> State {
        State {
            delay: if self.delay > 0 { (self.delay - 1) as u8 } else { 0 },
            sound: if self.sound > 0 { (self.sound - 1) as u8 } else { 0 },
            ..self
        }
    }

    /// Why the machine cannot run its next frame, or `None` if it can.
    pub open spec fn frame_fault(self) -> Option<Fault> {
        if self.pc + 1 >= 4096 {
            Some(Fault::BadAddress)
        } else {
            self.fault_of(self.fetch())
        }
    }

    /// One frame: the keys are latched, the instruction at the program
    /// counter is carried out, and the timers count down.
    pub open spec fn frame(self, keys: Seq<bool>, random: u8) -> State {
        let latched = State { keys, ..self };
        latched.execute(latched.fetch(), random).count_down()
    }
}

} // verus!
