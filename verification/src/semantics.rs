//! What the instructions do, as functions on the mathematical content of
//! the machine.

use crate::display::Screen;
use crate::error::Error;
use crate::instruction::Instruction;
use crate::state::{StateView, MEMORY_SIZE};
use vstd::prelude::*;

verus! {

/// The mathematical content of the whole machine: its state and its screen.
pub struct Machine {
    pub state: StateView,
    pub screen: Screen,
}

impl Machine {
    /// Both parts are well formed.
    pub open spec fn wf(self) -> bool {
        self.state.wf() && self.screen.wf()
    }

    /// Whether the two bytes of an instruction can be read at the program
    /// counter.
    pub open spec fn can_fetch(self) -> bool {
        self.state.pc + 1 < MEMORY_SIZE
    }

    /// The word at the program counter, high byte first.
    pub open spec fn fetch(self) -> Result<u16, Error> {
        if self.can_fetch() {
            Ok(
                (self.state.memory[self.state.pc as int] * 256 + self.state.memory[self.state.pc
                    as int + 1]) as u16,
            )
        } else {
            Err(Error::Bounds)
        }
    }

    /// The value of register `x`.
    pub open spec fn v(self, x: u8) -> u8 {
        self.state.registers[x as int]
    }

    /// The machine with `value` in register `x`.
    pub open spec fn set_v(self, x: u8, value: u8) -> Machine {
        Machine {
            state: StateView { registers: self.state.registers.update(x as int, value), ..self.state },
            ..self
        }
    }

    /// The machine with register F set to 1 if `on`, else to 0.
    pub open spec fn set_flag(self, on: bool) -> Machine {
        self.set_v(
            0xF,
            if on {
                1
            } else {
                0
            },
        )
    }

    /// The machine with the program counter at `to`.
    pub open spec fn jump(self, to: nat) -> Machine {
        Machine { state: StateView { pc: to, ..self.state }, ..self }
    }

    /// The machine with the program counter on the following instruction.
    pub open spec fn next(self) -> Machine {
        self.jump(self.state.pc + 2)
    }

    /// The machine with the program counter on the following instruction,
    /// or on the one after it if `skip`.
    pub open spec fn skip_if(self, skip: bool) -> Machine {
        self.jump(
            if skip {
                self.state.pc + 4
            } else {
                self.state.pc + 2
            },
        )
    }

    /// The machine with the index register at `to`.
    pub open spec fn set_index(self, to: nat) -> Machine {
        Machine { state: StateView { index: to, ..self.state }, ..self }
    }

    /// The machine with `memory` for its memory.
    pub open spec fn set_memory(self, memory: Seq<u8>) -> Machine {
        Machine { state: StateView { memory, ..self.state }, ..self }
    }

    /// The machine with `registers` for its registers.
    pub open spec fn set_registers(self, registers: Seq<u8>) -> Machine {
        Machine { state: StateView { registers, ..self.state }, ..self }
    }

    /// The sprite of `n` rows that lies at the index register.
    pub open spec fn sprite(self, n: u8) -> Seq<u8> {
        self.state.memory.subrange(self.state.index as int, self.state.index + n)
    }

    /// The machine after `instruction` has run with the program counter on
    /// it; `None` where running it would reach beyond the memory or the
    /// stack. `input` is what the outside world supplied: the random byte
    /// for `Rnd`, the key for `LdKey`, non-zero for `Skp` and `Sknp` if the
    /// key is down. The other instructions do not look at it.
    ///
    /// Where an instruction writes both a result into `Vx` and a flag into
    /// `VF`, the flag is written last.
    pub open spec fn step(self, instruction: Instruction, input: u8) -> Option<Machine> {
        let s = self.state;
        if !self.can_fetch() {
            None
        } else {
            match instruction {
                Instruction::Cls => Some(Machine { screen: self.screen.cleared(), ..self }.next()),
                Instruction::Ret => match s.pop() {
                    Some((address, popped)) => Some(
                        Machine { state: popped, ..self }.jump(address as nat),
                    ),
                    None => None,
                },
                Instruction::Jp { nnn } => Some(self.jump(nnn as nat)),
                Instruction::Call { nnn } => match s.push((s.pc + 2) as usize) {
                    Some(pushed) => Some(Machine { state: pushed, ..self }.jump(nnn as nat)),
                    None => None,
                },
                Instruction::SeImm { x, kk } => Some(self.skip_if(self.v(x) == kk)),
                Instruction::SneImm { x, kk } => Some(self.skip_if(self.v(x) != kk)),
                Instruction::SeReg { x, y } => Some(self.skip_if(self.v(x) == self.v(y))),
                Instruction::SneReg { x, y } => Some(self.skip_if(self.v(x) != self.v(y))),
                Instruction::LdImm { x, kk } => Some(self.set_v(x, kk).next()),
                Instruction::AddImm { x, kk } => Some(
                    self.set_v(x, ((self.v(x) + kk) % 256) as u8).next(),
                ),
                Instruction::LdReg { x, y } => Some(self.set_v(x, self.v(y)).next()),
                Instruction::Or { x, y } => Some(self.set_v(x, self.v(x) | self.v(y)).next()),
                Instruction::And { x, y } => Some(self.set_v(x, self.v(x) & self.v(y)).next()),
                Instruction::Xor { x, y } => Some(self.set_v(x, self.v(x) ^ self.v(y)).next()),
                Instruction::AddReg { x, y } => {
                    let sum = self.v(x) + self.v(y);
                    Some(self.set_v(x, (sum % 256) as u8).set_flag(sum > 255).next())
                },
                Instruction::Sub { x, y } => {
                    let difference = self.v(x) - self.v(y);
                    Some(self.set_v(x, (difference % 256) as u8).set_flag(difference >= 0).next())
                },
                Instruction::Subn { x, y } => {
                    let difference = self.v(y) - self.v(x);
                    Some(self.set_v(x, (difference % 256) as u8).set_flag(difference >= 0).next())
                },
                Instruction::Shr { x } => Some(
                    self.set_v(x, self.v(x) / 2).set_flag(self.v(x) % 2 == 1).next(),
                ),
                Instruction::Shl { x } => Some(
                    self.set_v(x, ((self.v(x) * 2) % 256) as u8).set_flag(self.v(x) >= 128).next(),
                ),
                Instruction::LdI { nnn } => Some(self.set_index(nnn as nat).next()),
                Instruction::JpV0 { nnn } => Some(self.jump((self.v(0) + nnn) as nat)),
                Instruction::Rnd { x, kk } => Some(self.set_v(x, input & kk).next()),
                Instruction::Drw { x, y, n } => if s.index + n <= MEMORY_SIZE {
                    let sprite = self.sprite(n);
                    let at_x = self.v(x) as int;
                    let at_y = self.v(y) as int;
                    Some(
                        Machine { screen: self.screen.blit(sprite, at_x, at_y), ..self }.set_flag(
                            self.screen.hits(sprite, at_x, at_y),
                        ).next(),
                    )
                } else {
                    None
                },
                Instruction::Skp { x } => Some(self.skip_if(input != 0)),
                Instruction::Sknp { x } => Some(self.skip_if(input == 0)),
                Instruction::LdDelay { x } => Some(self.set_v(x, s.delay).next()),
                Instruction::LdKey { x } => Some(self.set_v(x, input).next()),
                Instruction::SetDelay { x } => Some(
                    Machine { state: StateView { delay: self.v(x), ..s }, ..self }.next(),
                ),
                Instruction::SetSound { x } => Some(
                    Machine { state: StateView { sound: self.v(x), ..s }, ..self }.next(),
                ),
                Instruction::AddI { x } => if s.index + self.v(x) <= usize::MAX {
                    Some(self.set_index(s.index + self.v(x) as nat).next())
                } else {
                    None
                },
                Instruction::LdGlyph { x } => Some(self.set_index(5 * self.v(x) as nat).next()),
                Instruction::Bcd { x } => if s.index + 2 < MEMORY_SIZE {
                    let value = self.v(x);
                    Some(
                        self.set_memory(
                            s.memory.update(s.index as int, value / 100).update(
                                s.index as int + 1,
                                (value / 10) % 10,
                            ).update(s.index as int + 2, value % 10),
                        ).next(),
                    )
                } else {
                    None
                },
                Instruction::Store { x } => if s.index + x < MEMORY_SIZE {
                    Some(self.set_memory(s.stored(x)).next())
                } else {
                    None
                },
                Instruction::Load { x } => if s.index + x < MEMORY_SIZE {
                    Some(self.set_registers(s.loaded(x)).next())
                } else {
                    None
                },
            }
        }
    }

    /// What running `instruction` gives: the result that is reported and the
    /// machine afterwards, which is the machine before where the instruction
    /// was refused.
    pub open spec fn run(self, instruction: Instruction, input: u8) -> (Result<(), Error>, Machine) {
        match self.step(instruction, input) {
            Some(after) => (Ok(()), after),
            None => (Err(Error::Bounds), self),
        }
    }

    /// What running the instruction that `word` stands for gives; a decode
    /// failure, and the machine as it is, where it stands for none.
    pub open spec fn execute(self, word: u16, input: u8) -> (Result<(), Error>, Machine) {
        match Instruction::decode_spec(word) {
            Some(instruction) => self.run(instruction, input),
            None => (Err(Error::Decode { instruction: word, pc: self.state.pc as usize }), self),
        }
    }

    /// The instruction at the program counter: a bounds failure where it
    /// cannot be fetched, a decode failure where the word is no instruction.
    pub open spec fn current(self) -> Result<Instruction, Error> {
        match self.fetch() {
            Ok(word) => match Instruction::decode_spec(word) {
                Some(instruction) => Ok(instruction),
                None => Err(Error::Decode { instruction: word, pc: self.state.pc as usize }),
            },
            Err(e) => Err(e),
        }
    }

    /// One whole cycle: fetch, decode and run, with `input` as in `step`.
    pub open spec fn cycle(self, input: u8) -> (Result<(), Error>, Machine) {
        match self.current() {
            Ok(instruction) => self.run(instruction, input),
            Err(e) => (Err(e), self),
        }
    }
}

} // verus!
