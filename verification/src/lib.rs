//! An interpreter for the CHIP-8 virtual machine: 4 KiB of memory, sixteen
//! 8-bit registers, a sixteen-entry call stack, two countdown timers and a
//! monochrome framebuffer, driven one instruction at a time.
//!
//! The host owns the loop. It calls [`Chip8::evolve`] once per instruction
//! and [`Chip8::timer_step`] once per timer tick, supplies the two key
//! handlers, and reads the screen through [`Chip8::display`].

pub mod cpu;
pub mod display;
pub mod error;
pub mod instruction;
pub mod laws;
pub mod semantics;
pub mod state;

use crate::display::{Display, Screen, DEFAULT_FONT};
use crate::error::Error;
use crate::instruction::{Instruction, Need};
use crate::semantics::Machine;
use crate::state::{State, StateView};
use rand::Rng;
use vstd::prelude::*;

verus! {

/// The font that a machine is built with: the one given, else the built-in
/// one.
pub open spec fn font_or_default(font: Option<[[u8; 5]; 16]>) -> [[u8; 5]; 16] {
    match font {
        Some(font) => font,
        None => DEFAULT_FONT,
    }
}

/// A byte from the thread-local generator of the `rand` crate
/// (`rand::thread_rng` and `Rng::gen`). Nothing is claimed of the byte: any
/// value may come back, and two calls may differ. The generator is seeded
/// from the operating system and gives up where that source fails.
#[verifier::external_body]
fn random_byte() -> (byte: u8) {
    rand::thread_rng().gen::<u8>()
}

/// The machine: its state, its screen and the two handlers through which it
/// asks the host for keys.
pub struct Chip8<'a, F: Fn(u8) -> bool, G: Fn() -> u8> {
    state: State,
    /// The screen. The host reads it out to render.
    pub display: Display,
    key_state_handler: &'a F,
    key_wait_handler: &'a G,
}

impl<'a, F: Fn(u8) -> bool, G: Fn() -> u8> View for Chip8<'a, F, G> {
    type V = Machine;

    closed spec fn view(&self) -> Machine {
        Machine { state: self.state@, screen: self.display@ }
    }
}

impl<'a, F: Fn(u8) -> bool, G: Fn() -> u8> Chip8<'a, F, G> {
    /// The handler that says whether a key is down.
    pub closed spec fn key_state(&self) -> &'a F {
        self.key_state_handler
    }

    /// The handler that waits for a key.
    pub closed spec fn key_wait(&self) -> &'a G {
        self.key_wait_handler
    }

    /// The two machines ask the same handlers.
    pub open spec fn same_keys(&self, other: &Self) -> bool {
        self.key_state() == other.key_state() && self.key_wait() == other.key_wait()
    }

    /// Both handlers may be called: the first with every key from 0 to 15,
    /// the second at any time.
    pub open spec fn keys_ready(&self) -> bool {
        &&& forall|key: u8| key < 16 ==> call_requires(self.key_state(), (key,))
        &&& call_requires(self.key_wait(), ())
    }

    /// A machine with the font at the bottom of the memory, the program
    /// counter at `start_from`, a dark screen of the chosen size, and
    /// everything else zero.
    pub fn new(
        start_from: usize,
        big: bool,
        font: Option<[[u8; 5]; 16]>,
        key_state_handler: &'a F,
        key_wait_handler: &'a G,
    ) -> (chip: Self)
        ensures
            chip@.state == StateView::initial(start_from, font_or_default(font)),
            chip@.screen == Screen::blank(big),
            chip@.wf(),
            chip.key_state() == key_state_handler,
            chip.key_wait() == key_wait_handler,
    {
        let font = match font {
            Some(font) => font,
            None => DEFAULT_FONT,
        };
        Chip8 {
            state: State::new(start_from, font),
            display: Display::new(big),
            key_state_handler,
            key_wait_handler,
        }
    }

    /// Copies `program` into the memory from address `to` on, or from the
    /// program counter on where no address is given. A program that does not
    /// fit is refused before any byte is written.
    pub fn load(&mut self, program: Vec<u8>, to: Option<usize>) -> (result: Result<(), Error>)
        ensures
            final(self).same_keys(old(self)),
            final(self)@.wf(),
            final(self)@.screen == old(self)@.screen,
            match old(self)@.state.load(
                program@,
                match to {
                    Some(address) => address as nat,
                    None => old(self)@.state.pc,
                },
            ) {
                Some(loaded) => result == Ok::<(), Error>(()) && final(self)@.state == loaded,
                None => result == Err::<(), Error>(Error::Bounds) && final(self)@ == old(self)@,
            },
    {
        proof {
            use_type_invariant(&self.display);
        }
        let to = match to {
            Some(address) => address,
            None => self.state.pc,
        };
        let len = program.len();
        if to > 4096 || len > 4096 - to {
            return Err(Error::Bounds);
        }
        let mut k: usize = 0;
        while k < len
            invariant
                k <= len,
                len == program.len(),
                to + len <= 4096,
                self.display == old(self).display,
                self.key_state_handler == old(self).key_state_handler,
                self.key_wait_handler == old(self).key_wait_handler,
                self.state.reg == old(self).state.reg,
                self.state.pc == old(self).state.pc,
                self.state.dt == old(self).state.dt,
                self.state.st == old(self).state.st,
                self.state.i == old(self).state.i,
                self.state.sp == old(self).state.sp,
                self.state.stack == old(self).state.stack,
                forall|a: int|
                    0 <= a < 4096 ==> self.state.ram[a] == if to <= a < to + k {
                        program[a - to]
                    } else {
                        old(self).state.ram[a]
                    },
            decreases len - k,
        {
            self.state.ram[to + k] = program[k];
            k += 1;
        }
        assert(self@.state.memory =~= old(self)@.state.load(program@, to as nat).unwrap().memory);
        Ok(())
    }

    /// The state itself, for the host to inspect or to change.
    pub fn internal_state(&mut self) -> (state: &mut State)
        ensures
            state@ == old(self)@.state,
            final(self)@.state == final(state)@,
            final(self)@.screen == old(self)@.screen,
            final(self).same_keys(old(self)),
            final(self)@.wf(),
    {
        proof {
            use_type_invariant(&self.display);
        }
        &mut self.state
    }

    /// One tick of the two timers: each goes down by one and stops at zero.
    pub fn timer_step(&mut self)
        ensures
            final(self)@.state == old(self)@.state.tick(),
            final(self)@.screen == old(self)@.screen,
            final(self).same_keys(old(self)),
            final(self)@.wf(),
    {
        proof {
            use_type_invariant(&self.display);
        }
        if self.state.dt > 0 {
            self.state.dt -= 1;
        }
        if self.state.st > 0 {
            self.state.st -= 1;
        }
    }

    /// Pushes the return address `n`. A push on a full stack is refused.
    pub fn stack_push(&mut self, n: usize) -> (result: Result<(), Error>)
        ensures
            final(self)@.screen == old(self)@.screen,
            final(self).same_keys(old(self)),
            final(self)@.wf(),
            match old(self)@.state.push(n) {
                Some(pushed) => result == Ok::<(), Error>(()) && final(self)@.state == pushed,
                None => result == Err::<(), Error>(Error::Bounds) && final(self)@ == old(self)@,
            },
    {
        proof {
            use_type_invariant(&self.display);
        }
        if self.state.sp >= 16 {
            return Err(Error::Bounds);
        }
        self.state.sp += 1;
        self.state.stack[self.state.sp - 1] = n;
        Ok(())
    }

    /// Pops the newest return address. A pop from an empty stack is refused.
    pub fn stack_pop(&mut self) -> (result: Result<usize, Error>)
        ensures
            final(self)@.screen == old(self)@.screen,
            final(self).same_keys(old(self)),
            final(self)@.wf(),
            match old(self)@.state.pop() {
                Some((address, popped)) => result == Ok::<usize, Error>(address)
                    && final(self)@.state == popped,
                None => result == Err::<usize, Error>(Error::Bounds) && final(self)@ == old(self)@,
            },
    {
        proof {
            use_type_invariant(&self.display);
        }
        if self.state.sp == 0 || self.state.sp > 16 {
            return Err(Error::Bounds);
        }
        let address = self.state.stack[self.state.sp - 1];
        self.state.sp -= 1;
        Ok(address)
    }

    /// Reads the word at the program counter, high byte first.
    pub fn fetch(&self) -> (result: Result<u16, Error>)
        ensures
            result == self@.fetch(),
    {
        let pc = self.state.pc;
        if pc >= 4095 {
            return Err(Error::Bounds);
        }
        let high = self.state.ram[pc];
        let low = self.state.ram[pc + 1];
        assert(((high as u16) << 8) | (low as u16) == high * 256 + low) by (bit_vector);
        Ok(((high as u16) << 8) | (low as u16))
    }

    /// Whether `input` is what the outside world supplies for the
    /// instruction at the program counter: any byte where that is `Rnd`; 1
    /// or 0 as the first handler answers for the key of `Skp` or `Sknp`; the
    /// key that the second handler returns for `LdKey`. Where the instruction
    /// needs nothing, or there is none, the input is 0.
    pub open spec fn supplies(&self, input: u8) -> bool {
        match self@.current() {
            Ok(instruction) => match instruction.need() {
                Need::Nothing => input == 0,
                Need::Random => true,
                Need::KeyState { key } => input <= 1 && call_ensures(
                    self.key_state(),
                    (key,),
                    input == 1,
                ),
                Need::KeyPress => call_ensures(self.key_wait(), (), input),
            },
            Err(_) => input == 0,
        }
    }

    /// Runs one whole cycle: fetches the word at the program counter,
    /// decodes it, asks the outside world for what the instruction needs,
    /// and runs it. A word that cannot be fetched or decoded, and an
    /// instruction that would reach beyond the memory or the stack, is
    /// reported and leaves the machine as it was.
    pub fn evolve(&mut self) -> (result: Result<(), Error>)
        requires
            old(self).keys_ready(),
        ensures
            final(self).same_keys(old(self)),
            final(self)@.wf(),
            exists|input: u8| #[trigger]
                old(self).supplies(input) && (result, final(self)@) == old(self)@.cycle(input),
    {
        proof {
            use_type_invariant(&self.display);
        }
        let word = match self.fetch() {
            Ok(word) => word,
            Err(e) => {
                assert(self.supplies(0));
                return Err(e);
            },
        };
        let instruction = match Instruction::decode(word) {
            Some(instruction) => instruction,
            None => {
                assert(self.supplies(0));
                return Err(Error::Decode { instruction: word, pc: self.state.pc });
            },
        };
        assert(self.key_state() == self.key_state_handler);
        let input: u8 = match instruction.need() {
            Need::Nothing => 0,
            Need::Random => random_byte(),
            Need::KeyState { key } => if (self.key_state_handler)(key) {
                1
            } else {
                0
            },
            Need::KeyPress => (self.key_wait_handler)(),
        };
        assert(self.supplies(input));
        self.apply(instruction, input)
    }

    /// Runs the instruction that `word` stands for, with the program counter
    /// taken to be on it and `input` for what the outside world supplies:
    /// the random byte for `Rnd`, the key for `LdKey`, non-zero for `Skp`
    /// and `Sknp` if the key is down.
    pub fn execute(&mut self, word: u16, input: u8) -> (result: Result<(), Error>)
        ensures
            final(self).same_keys(old(self)),
            final(self)@.wf(),
            (result, final(self)@) == old(self)@.execute(word, input),
    {
        proof {
            use_type_invariant(&self.display);
        }
        match Instruction::decode(word) {
            Some(instruction) => self.apply(instruction, input),
            None => Err(Error::Decode { instruction: word, pc: self.state.pc }),
        }
    }

    /// Runs one decoded instruction.
    fn apply(&mut self, instruction: Instruction, input: u8) -> (result: Result<(), Error>)
        requires
            instruction.wf(),
        ensures
            final(self).same_keys(old(self)),
            final(self)@.wf(),
            (result, final(self)@) == old(self)@.run(instruction, input),
    {
        proof {
            use_type_invariant(&self.display);
        }
        if self.state.pc >= 4095 {
            return Err(Error::Bounds);
        }
        match instruction {
            Instruction::Cls
            | Instruction::Ret
            | Instruction::Jp { .. }
            | Instruction::Call { .. }
            | Instruction::JpV0 { .. }
            | Instruction::SeImm { .. }
            | Instruction::SneImm { .. }
            | Instruction::SeReg { .. }
            | Instruction::SneReg { .. }
            | Instruction::Skp { .. }
            | Instruction::Sknp { .. }
            | Instruction::Drw { .. } => self.apply_control(instruction, input),
            Instruction::LdImm { .. }
            | Instruction::AddImm { .. }
            | Instruction::LdReg { .. }
            | Instruction::Or { .. }
            | Instruction::And { .. }
            | Instruction::Xor { .. }
            | Instruction::AddReg { .. }
            | Instruction::Sub { .. }
            | Instruction::Subn { .. }
            | Instruction::Shr { .. }
            | Instruction::Shl { .. }
            | Instruction::Rnd { .. }
            | Instruction::LdDelay { .. }
            | Instruction::LdKey { .. } => {
                self.apply_arithmetic(instruction, input);
                Ok(())
            },
            Instruction::LdI { .. }
            | Instruction::AddI { .. }
            | Instruction::LdGlyph { .. }
            | Instruction::SetDelay { .. }
            | Instruction::SetSound { .. }
            | Instruction::Bcd { .. }
            | Instruction::Store { .. }
            | Instruction::Load { .. } => self.apply_memory(instruction),
        }
    }

    /// Runs an instruction that moves the program counter other than to
    /// the following instruction, or that works on the screen.
    fn apply_control(&mut self, instruction: Instruction, input: u8) -> (result: Result<(), Error>)
        requires
            instruction.wf(),
            old(self)@.can_fetch(),
            old(self)@.screen.wf(),
            instruction is Cls || instruction is Ret || instruction is Jp || instruction is Call
                || instruction is JpV0 || instruction is SeImm || instruction is SneImm
                || instruction is SeReg || instruction is SneReg || instruction is Skp
                || instruction is Sknp || instruction is Drw,
        ensures
            final(self).same_keys(old(self)),
            final(self)@.wf(),
            (result, final(self)@) == old(self)@.run(instruction, input),
    {
        let pc = self.state.pc;
        match instruction {
            Instruction::Cls => {
                self.display.clear();
                self.jump(pc + 2);
            },
            Instruction::Ret => {
                match self.stack_pop() {
                    Ok(address) => {
                        self.jump(address);
                    },
                    Err(e) => {
                        return Err(e);
                    },
                }
            },
            Instruction::Jp { nnn } => {
                self.jump(nnn as usize);
            },
            Instruction::Call { nnn } => {
                match self.stack_push(pc + 2) {
                    Ok(()) => {
                        self.jump(nnn as usize);
                    },
                    Err(e) => {
                        return Err(e);
                    },
                }
            },
            Instruction::JpV0 { nnn } => {
                self.jump(self.state.reg[0] as usize + nnn as usize);
            },
            Instruction::SeImm { x, kk } => {
                self.skip_if(self.state.reg[x as usize] == kk);
            },
            Instruction::SneImm { x, kk } => {
                self.skip_if(self.state.reg[x as usize] != kk);
            },
            Instruction::SeReg { x, y } => {
                self.skip_if(self.state.reg[x as usize] == self.state.reg[y as usize]);
            },
            Instruction::SneReg { x, y } => {
                self.skip_if(self.state.reg[x as usize] != self.state.reg[y as usize]);
            },
            Instruction::Skp { x: _ } => {
                self.skip_if(input != 0);
            },
            Instruction::Sknp { x: _ } => {
                self.skip_if(input == 0);
            },
            Instruction::Drw { x, y, n } => {
                let index = self.state.i;
                if index > 4096 || n as usize > 4096 - index {
                    return Err(Error::Bounds);
                }
                let hit = self.draw(self.state.reg[x as usize], self.state.reg[y as usize], n);
                self.set_v(
                    0xF,
                    if hit {
                        1
                    } else {
                        0
                    },
                );
                self.jump(pc + 2);
            },
            _ => {},
        }
        Ok(())
    }

    /// Runs an instruction that puts a value into `Vx`, and for some a flag
    /// into `VF` after it, and goes on to the following instruction.
    fn apply_arithmetic(&mut self, instruction: Instruction, input: u8)
        requires
            instruction.wf(),
            old(self)@.can_fetch(),
            old(self)@.screen.wf(),
            instruction is LdImm || instruction is AddImm || instruction is LdReg
                || instruction is Or || instruction is And || instruction is Xor
                || instruction is AddReg || instruction is Sub || instruction is Subn
                || instruction is Shr || instruction is Shl || instruction is Rnd
                || instruction is LdDelay || instruction is LdKey,
        ensures
            final(self).same_keys(old(self)),
            final(self)@.wf(),
            Some(final(self)@) == old(self)@.step(instruction, input),
    {
        match instruction {
            Instruction::LdImm { x, kk } => {
                self.set_v(x, kk);
            },
            Instruction::AddImm { x, kk } => {
                self.set_v(x, self.state.reg[x as usize].wrapping_add(kk));
            },
            Instruction::LdReg { x, y } => {
                self.set_v(x, self.state.reg[y as usize]);
            },
            Instruction::Or { x, y } => {
                self.set_v(x, self.state.reg[x as usize] | self.state.reg[y as usize]);
            },
            Instruction::And { x, y } => {
                self.set_v(x, self.state.reg[x as usize] & self.state.reg[y as usize]);
            },
            Instruction::Xor { x, y } => {
                self.set_v(x, self.state.reg[x as usize] ^ self.state.reg[y as usize]);
            },
            Instruction::AddReg { x, y } => {
                let vx = self.state.reg[x as usize];
                let vy = self.state.reg[y as usize];
                self.set_v(x, vx.wrapping_add(vy));
                self.set_v(
                    0xF,
                    if vy > 255 - vx {
                        1
                    } else {
                        0
                    },
                );
            },
            Instruction::Sub { x, y } => {
                let vx = self.state.reg[x as usize];
                let vy = self.state.reg[y as usize];
                self.set_v(x, vx.wrapping_sub(vy));
                self.set_v(
                    0xF,
                    if vx >= vy {
                        1
                    } else {
                        0
                    },
                );
            },
            Instruction::Subn { x, y } => {
                let vx = self.state.reg[x as usize];
                let vy = self.state.reg[y as usize];
                self.set_v(x, vy.wrapping_sub(vx));
                self.set_v(
                    0xF,
                    if vy >= vx {
                        1
                    } else {
                        0
                    },
                );
            },
            Instruction::Shr { x } => {
                let vx = self.state.reg[x as usize];
                assert(vx >> 1 == vx / 2 && vx & 1 == vx % 2) by (bit_vector);
                self.set_v(x, vx >> 1);
                self.set_v(0xF, vx & 1);
            },
            Instruction::Shl { x } => {
                let vx = self.state.reg[x as usize];
                assert(vx << 1 == (vx * 2) % 256 && vx >> 7 == (if vx >= 128 {
                    1u8
                } else {
                    0u8
                })) by (bit_vector);
                self.set_v(x, vx << 1);
                self.set_v(0xF, vx >> 7);
            },
            Instruction::Rnd { x, kk } => {
                self.set_v(x, input & kk);
            },
            Instruction::LdDelay { x } => {
                self.set_v(x, self.state.dt);
            },
            Instruction::LdKey { x } => {
                self.set_v(x, input);
            },
            _ => {},
        }
        self.jump(self.state.pc + 2);
    }

    /// Runs an instruction that works on the index register, the timers or
    /// the memory.
    fn apply_memory(&mut self, instruction: Instruction) -> (result: Result<(), Error>)
        requires
            instruction.wf(),
            old(self)@.can_fetch(),
            old(self)@.screen.wf(),
            instruction is LdI || instruction is AddI || instruction is LdGlyph
                || instruction is SetDelay || instruction is SetSound || instruction is Bcd
                || instruction is Store || instruction is Load,
        ensures
            final(self).same_keys(old(self)),
            final(self)@.wf(),
            forall|input: u8| (result, final(self)@) == #[trigger] old(self)@.run(instruction, input),
    {
        match instruction {
            Instruction::LdI { nnn } => {
                self.state.i = nnn as usize;
            },
            Instruction::AddI { x } => {
                match self.state.i.checked_add(self.state.reg[x as usize] as usize) {
                    Some(sum) => {
                        self.state.i = sum;
                    },
                    None => {
                        return Err(Error::Bounds);
                    },
                }
            },
            Instruction::LdGlyph { x } => {
                self.state.i = 5 * (self.state.reg[x as usize] as usize);
            },
            Instruction::SetDelay { x } => {
                self.state.dt = self.state.reg[x as usize];
            },
            Instruction::SetSound { x } => {
                self.state.st = self.state.reg[x as usize];
            },
            Instruction::Bcd { x } => {
                let index = self.state.i;
                if index >= 4094 {
                    return Err(Error::Bounds);
                }
                let value = self.state.reg[x as usize];
                self.state.ram[index] = value / 100;
                self.state.ram[index + 1] = (value / 10) % 10;
                self.state.ram[index + 2] = value % 10;
            },
            Instruction::Store { x } => {
                let index = self.state.i;
                if index >= 4096 || x as usize >= 4096 - index {
                    return Err(Error::Bounds);
                }
                self.store_registers(x);
            },
            Instruction::Load { x } => {
                let index = self.state.i;
                if index >= 4096 || x as usize >= 4096 - index {
                    return Err(Error::Bounds);
                }
                self.load_registers(x);
            },
            _ => {},
        }
        self.jump(self.state.pc + 2);
        Ok(())
    }

    /// Puts `value` into register `x`.
    fn set_v(&mut self, x: u8, value: u8)
        requires
            x < 16,
        ensures
            final(self).same_keys(old(self)),
            final(self)@ == old(self)@.set_v(x, value),
    {
        self.state.reg[x as usize] = value;
    }

    /// Moves the program counter to `to`.
    fn jump(&mut self, to: usize)
        ensures
            final(self).same_keys(old(self)),
            final(self)@ == old(self)@.jump(to as nat),
    {
        self.state.pc = to;
    }

    /// Moves the program counter to the following instruction, or to the
    /// one after it if `skip`.
    fn skip_if(&mut self, skip: bool)
        requires
            old(self)@.can_fetch(),
        ensures
            final(self).same_keys(old(self)),
            final(self)@ == old(self)@.skip_if(skip),
    {
        self.state.pc = if skip {
            self.state.pc + 4
        } else {
            self.state.pc + 2
        };
    }

    /// Draws the sprite of `n` rows that lies at the index register with
    /// its top-left corner at `(at_x, at_y)`, and says whether a lit pixel
    /// went off.
    fn draw(&mut self, at_x: u8, at_y: u8, n: u8) -> (hit: bool)
        requires
            n < 16,
            old(self)@.state.index + n <= 4096,
        ensures
            final(self).same_keys(old(self)),
            final(self)@.state == old(self)@.state,
            final(self)@.screen == old(self)@.screen.blit(
                old(self)@.sprite(n),
                at_x as int,
                at_y as int,
            ),
            hit == old(self)@.screen.hits(old(self)@.sprite(n), at_x as int, at_y as int),
            final(self)@.screen.wf(),
    {
        let ghost before = self@.screen;
        let ghost sprite = self@.sprite(n);
        let (_, height) = self.display.size();
        proof {
            before.lemma_blit_nothing(at_x as int, at_y as int);
            assert(sprite.take(0) =~= Seq::empty());
        }
        let mut hit = false;
        let mut row: usize = 0;
        while row < n as usize
            invariant
                row <= n < 16,
                self.state == old(self).state,
                self.key_state_handler == old(self).key_state_handler,
                self.key_wait_handler == old(self).key_wait_handler,
                self.state.i + n <= 4096,
                sprite == self@.sprite(n),
                before.wf(),
                self@.screen == before.blit(sprite.take(row as int), at_x as int, at_y as int),
                hit == before.hits(sprite.take(row as int), at_x as int, at_y as int),
                self@.screen.wf(),
            decreases n - row,
        {
            let byte = self.state.ram[self.state.i + row];
            proof {
                assert(sprite.take(row as int).push(byte) =~= sprite.take(row + 1));
                before.lemma_blit_push(sprite.take(row as int), byte, at_x as int, at_y as int);
            }
            let erased = self.display.write(byte, at_x as usize, at_y as usize + row);
            hit = hit || erased;
            row += 1;
        }
        proof {
            assert(sprite.take(n as int) =~= sprite);
        }
        hit
    }

    /// Copies `V0` to `Vx` into the memory at the index register.
    fn store_registers(&mut self, x: u8)
        requires
            x < 16,
            old(self)@.state.index + x < 4096,
        ensures
            final(self).same_keys(old(self)),
            final(self)@ == old(self)@.set_memory(old(self)@.state.stored(x)),
    {
        let base = self.state.i;
        let mut r: usize = 0;
        while r <= x as usize
            invariant
                r <= x + 1,
                x < 16,
                base + x < 4096,
                base == old(self).state.i,
                self.display == old(self).display,
                self.key_state_handler == old(self).key_state_handler,
                self.key_wait_handler == old(self).key_wait_handler,
                self.state.reg == old(self).state.reg,
                self.state.pc == old(self).state.pc,
                self.state.dt == old(self).state.dt,
                self.state.st == old(self).state.st,
                self.state.i == old(self).state.i,
                self.state.sp == old(self).state.sp,
                self.state.stack == old(self).state.stack,
                forall|a: int|
                    0 <= a < 4096 ==> self.state.ram[a] == if base <= a < base + r {
                        old(self).state.reg[a - base]
                    } else {
                        old(self).state.ram[a]
                    },
            decreases x + 1 - r,
        {
            self.state.ram[base + r] = self.state.reg[r];
            r += 1;
        }
        assert(self@.state.memory =~= old(self)@.state.stored(x));
    }

    /// Copies the memory at the index register into `V0` to `Vx`.
    fn load_registers(&mut self, x: u8)
        requires
            x < 16,
            old(self)@.state.index + x < 4096,
        ensures
            final(self).same_keys(old(self)),
            final(self)@ == old(self)@.set_registers(old(self)@.state.loaded(x)),
    {
        let base = self.state.i;
        let mut r: usize = 0;
        while r <= x as usize
            invariant
                r <= x + 1,
                x < 16,
                base + x < 4096,
                base == old(self).state.i,
                self.display == old(self).display,
                self.key_state_handler == old(self).key_state_handler,
                self.key_wait_handler == old(self).key_wait_handler,
                self.state.ram == old(self).state.ram,
                self.state.pc == old(self).state.pc,
                self.state.dt == old(self).state.dt,
                self.state.st == old(self).state.st,
                self.state.i == old(self).state.i,
                self.state.sp == old(self).state.sp,
                self.state.stack == old(self).state.stack,
                forall|k: int|
                    0 <= k < 16 ==> self.state.reg[k] == if k < r {
                        old(self).state.ram[base + k]
                    } else {
                        old(self).state.reg[k]
                    },
            decreases x + 1 - r,
        {
            self.state.reg[r] = self.state.ram[base + r];
            r += 1;
        }
        assert(self@.state.registers =~= old(self)@.state.loaded(x));
    }
}

} // verus!
