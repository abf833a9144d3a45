//! The machine itself: its storage, one handler per instruction, and the
//! frame that fetches and carries out one instruction.

use crate::emulator::bits::{lemma_join_bytes, lemma_or_flag, lemma_shift_by_one};
use crate::emulator::decode::{decode, Opcode};
use crate::emulator::keyboard::Keyboard;
use crate::emulator::random::random_byte;
use crate::emulator::screen::Screen;
use crate::emulator::state::{lowest_key_from, uses_random, Fault, State, FONT};
use vstd::prelude::*;

verus! {

struct Timer {
    sound: u8,
    delay: u8,
}

struct Register {
    v: [u8; 16],
    i: u16,
}

/// A CHIP-8 machine.
pub struct Chip8 {
    registers: Register,
    timers: Timer,
    screen: Screen,
    memory: [u8; 4096],
    stack: Vec<u16>,
    pc: u16,
    /// The key pad. The host overwrites it before each frame; instructions
    /// only read it.
    pub keyboard: Keyboard,
}

impl View for Chip8 {
    type V = State;

    closed spec fn view(&self) -> State {
        State {
            v: self.registers.v@,
            i: self.registers.i,
            memory: self.memory@,
            stack: self.stack@,
            pc: self.pc,
            delay: self.timers.delay,
            sound: self.timers.sound,
            pixels: self.screen@,
            keys: self.keyboard.keymap@,
        }
    }
}

/// Copies `bytes` into `memory` from address `at` on.
fn copy_into(memory: &mut [u8; 4096], at: usize, bytes: &[u8])
    requires
        at + bytes@.len() <= 4096,
    ensures
        final(memory)@ == Seq::new(
            4096,
            |a: int|
                if at <= a < at + bytes@.len() {
                    bytes@[a - at]
                } else {
                    old(memory)@[a]
                },
        ),
{
    let mut k: usize = 0;
    while k < bytes.len()
        invariant
            k <= bytes@.len(),
            at + bytes@.len() <= 4096,
            memory@ == Seq::new(
                4096,
                |a: int|
                    if at <= a < at + k {
                        bytes@[a - at]
                    } else {
                        old(memory)@[a]
                    },
            ),
        decreases bytes@.len() - k,
    {
        memory[at + k] = bytes[k];
        k += 1;
    }
}

impl Chip8 {
    /// The model of a machine always has its fixed sizes.
    pub proof fn lemma_view_wf(&self)
        ensures
            self@.wf(),
    {
        self.screen.lemma_view_len();
    }

    /// A machine as it is switched on.
    pub fn new() -> (machine: Self)
        ensures
            machine@ == State::power_on(),
    {
        let mut memory: [u8; 4096] = [0; 4096];
        copy_into(&mut memory, 0, FONT.as_slice());
        Chip8 {
            registers: Register { v: [0; 16], i: 0 },
            timers: Timer { sound: 0, delay: 0 },
            screen: Screen::new(),
            memory,
            stack: Vec::new(),
            pc: 0x200,
            keyboard: Keyboard::new(),
        }
    }

    /// Copies a program into memory from address `0x200` on, and writes the
    /// font to the bottom of memory. The program must fit between `0x200`
    /// and the end of memory.
    pub fn load(&mut self, program: &[u8])
        requires
            program@.len() <= 4096 - 0x200,
        ensures
            final(self)@ == old(self)@.load(program@),
    {
        copy_into(&mut self.memory, 0x200, program);
        copy_into(&mut self.memory, 0, FONT.as_slice());
    }

    /// The instruction word at the program counter, or `None` if its two
    /// bytes do not both lie in memory.
    pub fn fetch(&self) -> (word: Option<u16>)
        ensures
            word == if self@.pc + 1 < 4096 {
                Some(self@.fetch())
            } else {
                None
            },
    {
        if self.pc as usize + 1 < 4096 {
            let hi: u8 = self.memory[self.pc as usize];
            let lo: u8 = self.memory[self.pc as usize + 1];
            proof {
                lemma_join_bytes(hi, lo);
            }
            Some(((hi as u16) << 8) | (lo as u16))
        } else {
            None
        }
    }

    /// Why the instruction word `ins` cannot be carried out now, or `None`
    /// if it can.
    pub fn fault(&self, ins: u16) -> (fault: Option<Fault>)
        ensures
            fault == self@.fault_of(ins),
    {
        let i: usize = self.registers.i as usize;
        match decode(ins) {
            None => Some(Fault::InvalidOpcode),
            Some(Opcode::Return) => {
                if self.stack.len() == 0 {
                    Some(Fault::StackUnderflow)
                } else {
                    None
                }
            },
            Some(Opcode::Draw { n, .. }) => {
                if n > 0 && i + n as usize > 4096 {
                    Some(Fault::BadAddress)
                } else {
                    None
                }
            },
            Some(Opcode::SkipIfKey { x }) | Some(Opcode::SkipIfNoKey { x }) => {
                if self.registers.v[x] >= 16 {
                    Some(Fault::NoSuchKey)
                } else {
                    None
                }
            },
            Some(Opcode::Decimal { .. }) => {
                if i + 2 >= 4096 {
                    Some(Fault::BadAddress)
                } else {
                    None
                }
            },
            Some(Opcode::Store { x }) | Some(Opcode::Fill { x }) => {
                if i + x >= 4096 {
                    Some(Fault::BadAddress)
                } else {
                    None
                }
            },
            Some(_) => None,
        }
    }

    /// Why the machine cannot run its next frame, or `None` if it can.
    pub fn frame_fault(&self) -> (fault: Option<Fault>)
        ensures
            fault == self@.frame_fault(),
    {
        match self.fetch() {
            None => Some(Fault::BadAddress),
            Some(ins) => self.fault(ins),
        }
    }

    /// Carries out one decoded instruction; `random` is the byte that the
    /// random-number instruction uses.
    ///
    /// The caller rules out a fault beforehand: a return with an empty call
    /// stack, a memory access past the end of memory, a key number above
    /// fifteen.
    pub fn step(&mut self, op: Opcode, random: u8)
        requires
            op.wf(),
            old(self)@.fault(op) is None,
        ensures
            final(self)@ == old(self)@.step(op, random),
    {
        match op {
            Opcode::ClearScreen => self.op00E0(),
            Opcode::Return => self.op00EE(),
            Opcode::Jump { nnn } => self.op1nnn(nnn),
            Opcode::Call { nnn } => self.op2nnn(nnn),
            Opcode::SkipIfEqual { x, kk } => self.op3xkk(x, kk),
            Opcode::SkipIfNotEqual { x, kk } => self.op4xkk(x, kk),
            Opcode::SkipIfSame { x, y } => self.op5xy0(x, y),
            Opcode::Load { x, kk } => self.op6xkk(x, kk),
            Opcode::AddByte { x, kk } => self.op7xkk(x, kk),
            Opcode::Move { x, y } => self.op8xy0(x, y),
            Opcode::Or { x, y } => self.op8xy1(x, y),
            Opcode::And { x, y } => self.op8xy2(x, y),
            Opcode::Xor { x, y } => self.op8xy3(x, y),
            Opcode::Add { x, y } => self.op8xy4(x, y),
            Opcode::Subtract { x, y } => self.op8xy5(x, y),
            Opcode::ShiftRight { x } => self.op8xy6(x, 0),
            Opcode::SubtractFrom { x, y } => self.op8xy7(x, y),
            Opcode::ShiftLeft { x } => self.op8xyE(x, 0),
            Opcode::SkipIfDifferent { x, y } => self.op9xy0(x, y),
            Opcode::SetIndex { nnn } => self.opAnnn(nnn),
            Opcode::JumpOffset { nnn } => self.opBnnn(nnn),
            Opcode::Random { x, kk } => self.opCxkk(x, kk, random),
            Opcode::Draw { x, y, n } => self.opDxyn(x, y, n),
            Opcode::SkipIfKey { x } => self.opEx9E(x),
            Opcode::SkipIfNoKey { x } => self.opExA1(x),
            Opcode::GetDelay { x } => self.opFx07(x),
            Opcode::WaitKey { x } => self.opFx0A(x),
            Opcode::SetDelay { x } => self.opFx15(x),
            Opcode::SetSound { x } => self.opFx18(x),
            Opcode::AddIndex { x } => self.opFx1E(x),
            Opcode::Glyph { x } => self.opFx29(x),
            Opcode::Decimal { x } => self.opFx33(x),
            Opcode::Store { x } => self.opFx55(x),
            Opcode::Fill { x } => self.opFx65(x),
        }
    }

    /// Carries out the instruction word `ins`, with `random` as the byte
    /// that the random-number instruction uses.
    ///
    /// The caller rules out a fault beforehand, see [`Chip8::fault`].
    pub fn execute_with(&mut self, ins: u16, random: u8)
        requires
            old(self)@.fault_of(ins) is None,
        ensures
            final(self)@ == old(self)@.execute(ins, random),
    {
        match decode(ins) {
            Some(op) => self.step(op, random),
            None => {},
        }
    }

    /// Carries out the instruction word `ins`. The random-number
    /// instruction draws a fresh byte; every other instruction has one
    /// outcome.
    ///
    /// The caller rules out a fault beforehand, see [`Chip8::fault`]: a word
    /// outside the instruction set, a return with an empty call stack, a
    /// memory access past the end of memory, a key number above fifteen.
    /// The call stack itself has no depth limit.
    pub fn execute_instruction(&mut self, ins: u16)
        requires
            old(self)@.fault_of(ins) is None,
        ensures
            exists|random: u8| final(self)@ == #[trigger] old(self)@.execute(ins, random),
            !uses_random(ins) ==> final(self)@ == old(self)@.execute(ins, 0),
    {
        match decode(ins) {
            Some(Opcode::Random { x, kk }) => {
                let random: u8 = random_byte();
                self.step((Opcode::Random { x, kk }), random);
                assert(self@ == old(self)@.execute(ins, random));
            },
            Some(op) => {
                self.step(op, 0);
                assert(self@ == old(self)@.execute(ins, 0));
            },
            None => {},
        }
    }

    /// Runs one frame with `keys` as the state of the pad: latches the keys,
    /// carries out the instruction at the program counter, and lets both
    /// timers count down, neither below zero.
    ///
    /// The caller rules out a fault beforehand, see [`Chip8::frame_fault`].
    pub fn run(&mut self, keys: [bool; 16])
        requires
            old(self)@.frame_fault() is None,
        ensures
            exists|random: u8| final(self)@ == #[trigger] old(self)@.frame(keys@, random),
            !uses_random(old(self)@.fetch()) ==> final(self)@ == old(self)@.frame(keys@, 0),
    {
        self.keyboard.keymap = keys;
        let hi: u8 = self.memory[self.pc as usize];
        let lo: u8 = self.memory[self.pc as usize + 1];
        proof {
            lemma_join_bytes(hi, lo);
        }
        let ins: u16 = ((hi as u16) << 8) | (lo as u16);
        let ghost latched = self@;
        self.execute_instruction(ins);
        let ghost random = choose|random: u8| self@ == #[trigger] latched.execute(ins, random);

        if self.timers.delay > 0 {
            self.timers.delay -= 1;
        }
        if self.timers.sound > 0 {
            self.timers.sound -= 1;
        }
        assert(self@ == old(self)@.frame(keys@, random));
    }

    /// The program counter.
    pub fn pc(&self) -> (pc: u16)
        ensures
            pc == self@.pc,
    {
        self.pc
    }

    /// The index register `I`.
    pub fn index(&self) -> (i: u16)
        ensures
            i == self@.i,
    {
        self.registers.i
    }

    /// The general registers `V0` to `VF`.
    pub fn registers(&self) -> (v: &[u8; 16])
        ensures
            v@ == self@.v,
    {
        &self.registers.v
    }

    /// The whole of memory.
    pub fn memory(&self) -> (memory: &[u8; 4096])
        ensures
            memory@ == self@.memory,
    {
        &self.memory
    }

    /// The call stack, the most recent return address last.
    pub fn stack(&self) -> (stack: &Vec<u16>)
        ensures
            stack@ == self@.stack,
    {
        &self.stack
    }

    /// The delay timer.
    pub fn delay_timer(&self) -> (t: u8)
        ensures
            t == self@.delay,
    {
        self.timers.delay
    }

    /// The sound timer.
    pub fn sound_timer(&self) -> (t: u8)
        ensures
            t == self@.sound,
    {
        self.timers.sound
    }

    /// The display.
    pub fn screen(&self) -> (screen: &Screen)
        ensures
            screen@ == self@.pixels,
    {
        &self.screen
    }
}

#[allow(non_snake_case)]
impl Chip8 {
    fn op00E0(&mut self)
        ensures
            final(self)@ == old(self)@.step(Opcode::ClearScreen, 0),
    {
        self.screen.clear();
        self.pc = self.pc.wrapping_add(2);
    }

    fn op00EE(&mut self)
        requires
            old(self)@.stack.len() > 0,
        ensures
            final(self)@ == old(self)@.step(Opcode::Return, 0),
    {
        self.pc = self.stack.pop().unwrap().wrapping_add(2);
    }

    fn op1nnn(&mut self, nnn: u16)
        ensures
            final(self)@ == old(self)@.step((Opcode::Jump { nnn }), 0),
    {
        self.pc = nnn;
    }

    fn op2nnn(&mut self, nnn: u16)
        ensures
            final(self)@ == old(self)@.step((Opcode::Call { nnn }), 0),
    {
        self.stack.push(self.pc);
        self.pc = nnn;
    }

    fn op3xkk(&mut self, x: usize, kk: u8)
        requires
            x < 16,
        ensures
            final(self)@ == old(self)@.step((Opcode::SkipIfEqual { x, kk }), 0),
    {
        self.pc = self.pc.wrapping_add(2);
        if self.registers.v[x] == kk {
            self.pc = self.pc.wrapping_add(2);
        }
    }

    fn op4xkk(&mut self, x: usize, kk: u8)
        requires
            x < 16,
        ensures
            final(self)@ == old(self)@.step((Opcode::SkipIfNotEqual { x, kk }), 0),
    {
        self.pc = self.pc.wrapping_add(2);
        if self.registers.v[x] != kk {
            self.pc = self.pc.wrapping_add(2);
        }
    }

    fn op5xy0(&mut self, x: usize, y: usize)
        requires
            x < 16,
            y < 16,
        ensures
            final(self)@ == old(self)@.step((Opcode::SkipIfSame { x, y }), 0),
    {
        self.pc = self.pc.wrapping_add(2);
        if self.registers.v[x] == self.registers.v[y] {
            self.pc = self.pc.wrapping_add(2);
        }
    }

    fn op6xkk(&mut self, x: usize, kk: u8)
        requires
            x < 16,
        ensures
            final(self)@ == old(self)@.step((Opcode::Load { x, kk }), 0),
    {
        self.registers.v[x] = kk;
        self.pc = self.pc.wrapping_add(2);
    }

    fn op7xkk(&mut self, x: usize, kk: u8)
        requires
            x < 16,
        ensures
            final(self)@ == old(self)@.step((Opcode::AddByte { x, kk }), 0),
    {
        self.registers.v[x] = self.registers.v[x].wrapping_add(kk);
        self.pc = self.pc.wrapping_add(2);
    }

    fn op8xy0(&mut self, x: usize, y: usize)
        requires
            x < 16,
            y < 16,
        ensures
            final(self)@ == old(self)@.step((Opcode::Move { x, y }), 0),
    {
        self.registers.v[x] = self.registers.v[y];
        self.pc = self.pc.wrapping_add(2);
    }

    fn op8xy1(&mut self, x: usize, y: usize)
        requires
            x < 16,
            y < 16,
        ensures
            final(self)@ == old(self)@.step((Opcode::Or { x, y }), 0),
    {
        self.registers.v[x] = self.registers.v[x] | self.registers.v[y];
        self.registers.v[0xf] = 0;
        self.pc = self.pc.wrapping_add(2);
    }

    fn op8xy2(&mut self, x: usize, y: usize)
        requires
            x < 16,
            y < 16,
        ensures
            final(self)@ == old(self)@.step((Opcode::And { x, y }), 0),
    {
        self.registers.v[x] = self.registers.v[x] & self.registers.v[y];
        self.registers.v[0xf] = 0;
        self.pc = self.pc.wrapping_add(2);
    }

    fn op8xy3(&mut self, x: usize, y: usize)
        requires
            x < 16,
            y < 16,
        ensures
            final(self)@ == old(self)@.step((Opcode::Xor { x, y }), 0),
    {
        self.registers.v[x] = self.registers.v[x] ^ self.registers.v[y];
        self.registers.v[0xf] = 0;
        self.pc = self.pc.wrapping_add(2);
    }

    fn op8xy4(&mut self, x: usize, y: usize)
        requires
            x < 16,
            y < 16,
        ensures
            final(self)@ == old(self)@.step((Opcode::Add { x, y }), 0),
    {
        let val: u16 = (self.registers.v[x] as u16) + (self.registers.v[y] as u16);
        self.registers.v[x] = self.registers.v[x].wrapping_add(self.registers.v[y]);

        if val > 255 {
            self.registers.v[0xf] = 1;
        } else {
            self.registers.v[0xf] = 0;
        }
        self.pc = self.pc.wrapping_add(2);
    }

    fn op8xy5(&mut self, x: usize, y: usize)
        requires
            x < 16,
            y < 16,
        ensures
            final(self)@ == old(self)@.step((Opcode::Subtract { x, y }), 0),
    {
        let xx: u8 = self.registers.v[x];
        let yy: u8 = self.registers.v[y];

        self.registers.v[x] = xx.wrapping_sub(yy);

        if xx < yy {
            self.registers.v[0xf] = 0;
        } else {
            self.registers.v[0xf] = 1;
        }
        self.pc = self.pc.wrapping_add(2);
    }

    fn op8xy6(&mut self, x: usize, _y: usize)
        requires
            x < 16,
        ensures
            final(self)@ == old(self)@.step((Opcode::ShiftRight { x }), 0),
    {
        let xx: u8 = self.registers.v[x];
        proof {
            lemma_shift_by_one(xx);
        }
        self.registers.v[x] = xx >> 1;
        self.registers.v[0xf] = xx & 1;
        self.pc = self.pc.wrapping_add(2);
    }

    fn op8xy7(&mut self, x: usize, y: usize)
        requires
            x < 16,
            y < 16,
        ensures
            final(self)@ == old(self)@.step((Opcode::SubtractFrom { x, y }), 0),
    {
        let xx: u8 = self.registers.v[x];
        let yy: u8 = self.registers.v[y];

        self.registers.v[x] = yy.wrapping_sub(xx);

        if yy < xx {
            self.registers.v[15] = 0;
        } else {
            self.registers.v[15] = 1;
        }
        self.pc = self.pc.wrapping_add(2);
    }

    fn op8xyE(&mut self, x: usize, _y: usize)
        requires
            x < 16,
        ensures
            final(self)@ == old(self)@.step((Opcode::ShiftLeft { x }), 0),
    {
        let xx: u8 = self.registers.v[x];
        proof {
            lemma_shift_by_one(xx);
        }
        self.registers.v[x] = xx << 1;
        self.registers.v[15] = (xx & 0b10000000) >> 7;
        self.pc = self.pc.wrapping_add(2);
    }

    fn op9xy0(&mut self, x: usize, y: usize)
        requires
            x < 16,
            y < 16,
        ensures
            final(self)@ == old(self)@.step((Opcode::SkipIfDifferent { x, y }), 0),
    {
        self.pc = self.pc.wrapping_add(2);
        if self.registers.v[x] != self.registers.v[y] {
            self.pc = self.pc.wrapping_add(2);
        }
    }

    fn opAnnn(&mut self, nnn: u16)
        ensures
            final(self)@ == old(self)@.step((Opcode::SetIndex { nnn }), 0),
    {
        self.registers.i = nnn;
        self.pc = self.pc.wrapping_add(2);
    }

    fn opBnnn(&mut self, nnn: u16)
        requires
            nnn < 0x1000,
        ensures
            final(self)@ == old(self)@.step((Opcode::JumpOffset { nnn }), 0),
    {
        self.pc = nnn + (self.registers.v[0] as u16);
    }

    fn opCxkk(&mut self, x: usize, kk: u8, random: u8)
        requires
            x < 16,
        ensures
            final(self)@ == old(self)@.step((Opcode::Random { x, kk }), random),
    {
        self.registers.v[x] = random & kk;
        self.pc = self.pc.wrapping_add(2);
    }

    fn opDxyn(&mut self, x: usize, y: usize, n: u8)
        requires
            x < 16,
            y < 16,
            n < 16,
            n > 0 ==> old(self)@.i + n <= 4096,
        ensures
            final(self)@ == old(self)@.step((Opcode::Draw { x, y, n }), 0),
    {
        self.registers.v[15] = 0;

        let mut byte: u8 = 0;
        while byte < n
            invariant
                x < 16,
                y < 16,
                byte <= n < 16,
                n > 0 ==> old(self)@.i + n <= 4096,
                old(self)@.draw_steps(x as int, y as int, (8 * byte) as nat).1 <= 1,
                self@ == (State {
                    pixels: old(self)@.draw_steps(x as int, y as int, (8 * byte) as nat).0,
                    v: old(self)@.v.update(
                        15,
                        old(self)@.draw_steps(x as int, y as int, (8 * byte) as nat).1,
                    ),
                    ..old(self)@
                }),
            decreases n - byte,
        {
            let mut bit: u8 = 0;
            while bit < 8
                invariant
                    x < 16,
                    y < 16,
                    byte < n < 16,
                    bit <= 8,
                    old(self)@.i + n <= 4096,
                    old(self)@.draw_steps(x as int, y as int, (8 * byte + bit) as nat).1 <= 1,
                    self@ == (State {
                        pixels: old(self)@.draw_steps(
                            x as int,
                            y as int,
                            (8 * byte + bit) as nat,
                        ).0,
                        v: old(self)@.v.update(
                            15,
                            old(self)@.draw_steps(x as int, y as int, (8 * byte + bit) as nat).1,
                        ),
                        ..old(self)@
                    }),
                decreases 8 - bit,
            {
                let pixel: u8 = (self.memory[self.registers.i as usize + byte as usize] >> (7
                    - bit)) & 1;
                let hit: u8 = self.screen.set(
                    ((self.registers.v[y] as u16) + byte as u16) as usize,
                    ((self.registers.v[x] as u16) + (bit as u16)) as usize,
                    pixel == 1,
                );
                proof {
                    lemma_or_flag(self.registers.v[15], hit);
                }
                self.registers.v[0xf] = self.registers.v[0xf] | hit;
                bit += 1;
            }
            byte += 1;
        }

        self.pc = self.pc.wrapping_add(2);
    }

    fn opEx9E(&mut self, x: usize)
        requires
            x < 16,
            old(self)@.v[x as int] < 16,
        ensures
            final(self)@ == old(self)@.step((Opcode::SkipIfKey { x }), 0),
    {
        self.pc = self.pc.wrapping_add(2);

        if self.keyboard.keymap[self.registers.v[x] as usize] {
            self.pc = self.pc.wrapping_add(2);
        }
    }

    fn opExA1(&mut self, x: usize)
        requires
            x < 16,
            old(self)@.v[x as int] < 16,
        ensures
            final(self)@ == old(self)@.step((Opcode::SkipIfNoKey { x }), 0),
    {
        self.pc = self.pc.wrapping_add(2);
        if !self.keyboard.keymap[self.registers.v[x] as usize] {
            self.pc = self.pc.wrapping_add(2);
        }
    }

    fn opFx07(&mut self, x: usize)
        requires
            x < 16,
        ensures
            final(self)@ == old(self)@.step((Opcode::GetDelay { x }), 0),
    {
        self.registers.v[x] = self.timers.delay;
        self.pc = self.pc.wrapping_add(2);
    }

    fn opFx0A(&mut self, x: usize)
        requires
            x < 16,
        ensures
            final(self)@ == old(self)@.step((Opcode::WaitKey { x }), 0),
    {
        let mut i: u8 = 0;
        while i < 16
            invariant
                x < 16,
                i <= 16,
                *self == *old(self),
                lowest_key_from(self@.keys, 0) == lowest_key_from(self@.keys, i as int),
            decreases 16 - i,
        {
            if self.keyboard.keymap[i as usize] {
                self.registers.v[x] = i;
                self.pc = self.pc.wrapping_add(2);
                return ;
            }
            i += 1;
        }
    }

    fn opFx15(&mut self, x: usize)
        requires
            x < 16,
        ensures
            final(self)@ == old(self)@.step((Opcode::SetDelay { x }), 0),
    {
        self.timers.delay = self.registers.v[x];
        self.pc = self.pc.wrapping_add(2);
    }

    fn opFx18(&mut self, x: usize)
        requires
            x < 16,
        ensures
            final(self)@ == old(self)@.step((Opcode::SetSound { x }), 0),
    {
        self.timers.sound = self.registers.v[x];
        self.pc = self.pc.wrapping_add(2);
    }

    fn opFx1E(&mut self, x: usize)
        requires
            x < 16,
        ensures
            final(self)@ == old(self)@.step((Opcode::AddIndex { x }), 0),
    {
        self.registers.i = self.registers.i.wrapping_add(self.registers.v[x] as u16);
        self.pc = self.pc.wrapping_add(2);
    }

    fn opFx29(&mut self, x: usize)
        requires
            x < 16,
        ensures
            final(self)@ == old(self)@.step((Opcode::Glyph { x }), 0),
    {
        self.registers.i = (self.registers.v[x] as u16) * 5;
        self.pc = self.pc.wrapping_add(2);
    }

    fn opFx33(&mut self, x: usize)
        requires
            x < 16,
            old(self)@.i + 2 < 4096,
        ensures
            final(self)@ == old(self)@.step((Opcode::Decimal { x }), 0),
    {
        let xx: u8 = self.registers.v[x];
        self.memory[self.registers.i as usize] = xx / 100;
        self.memory[self.registers.i as usize + 1] = (xx / 10) % 10;
        self.memory[self.registers.i as usize + 2] = xx % 10;
        self.pc = self.pc.wrapping_add(2);
    }

    fn opFx55(&mut self, x: usize)
        requires
            x < 16,
            old(self)@.i + x < 4096,
        ensures
            final(self)@ == old(self)@.step((Opcode::Store { x }), 0),
    {
        let mut i: usize = 0;
        while i < x + 1
            invariant
                x < 16,
                i <= x + 1,
                old(self)@.i + x < 4096,
                self@ == (State {
                    memory: Seq::new(
                        4096,
                        |a: int|
                            if old(self)@.i <= a < old(self)@.i + i {
                                old(self)@.v[a - old(self)@.i]
                            } else {
                                old(self)@.memory[a]
                            },
                    ),
                    ..old(self)@
                }),
            decreases x + 1 - i,
        {
            self.memory[self.registers.i as usize + i] = self.registers.v[i];
            i += 1;
        }
        self.registers.i = self.registers.i + (x as u16 + 1);
        self.pc = self.pc.wrapping_add(2);
    }

    fn opFx65(&mut self, x: usize)
        requires
            x < 16,
            old(self)@.i + x < 4096,
        ensures
            final(self)@ == old(self)@.step((Opcode::Fill { x }), 0),
    {
        let mut i: usize = 0;
        while i < x + 1
            invariant
                x < 16,
                i <= x + 1,
                old(self)@.i + x < 4096,
                self@ == (State {
                    v: Seq::new(
                        16,
                        |k: int|
                            if 0 <= k < i {
                                old(self)@.memory[old(self)@.i + k]
                            } else {
                                old(self)@.v[k]
                            },
                    ),
                    ..old(self)@
                }),
            decreases x + 1 - i,
        {
            self.registers.v[i] = self.memory[self.registers.i as usize + i];
            i += 1;
        }
        self.registers.i = self.registers.i + (x as u16 + 1);
        self.pc = self.pc.wrapping_add(2);
    }
}

} // verus!
