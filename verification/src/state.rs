//! The registers, the memory and the call stack of the machine.

use vstd::prelude::*;

verus! {

/// The number of bytes of memory.
pub const MEMORY_SIZE: usize = 4096;

/// The number of return addresses that the stack can hold.
pub const STACK_SIZE: usize = 16;

/// The number of bytes that the font takes at the bottom of the memory.
pub const FONT_SIZE: usize = 80;

/// Everything the machine holds apart from its screen. The fields are open
/// to the host: no value of them is ruled out, and the engine looks at every
/// address and the stack pointer before it uses them.
pub struct State {
    /// The memory; addresses run from 0 to 4095.
    pub ram: [u8; 4096],
    /// The general registers V0 to VF. VF doubles as the flag that arithmetic
    /// and drawing set.
    pub reg: [u8; 16],
    /// The address of the next instruction.
    pub pc: usize,
    /// The delay timer.
    pub dt: u8,
    /// The sound timer.
    pub st: u8,
    /// The index register I.
    pub i: usize,
    /// The number of return addresses on the stack.
    pub sp: usize,
    /// The stack; its live entries are `stack[0]` to `stack[sp - 1]`.
    pub stack: [usize; 16],
}

/// The mathematical content of a [`State`].
pub struct StateView {
    pub memory: Seq<u8>,
    pub registers: Seq<u8>,
    pub pc: nat,
    pub delay: u8,
    pub sound: u8,
    pub index: nat,
    pub sp: nat,
    pub stack: Seq<usize>,
}

impl StateView {
    /// The three sequences have the lengths of the arrays they stand for, and
    /// the addresses fit a machine word.
    pub open spec fn wf(self) -> bool {
        &&& self.memory.len() == MEMORY_SIZE
        &&& self.registers.len() == 16
        &&& self.stack.len() == STACK_SIZE
        &&& self.pc <= usize::MAX
        &&& self.index <= usize::MAX
        &&& self.sp <= usize::MAX
    }

    /// The return addresses that are on the stack, oldest first; none where
    /// the stack pointer is out of range.
    pub open spec fn live_stack(self) -> Seq<usize> {
        if self.sp <= STACK_SIZE {
            self.stack.take(self.sp as int)
        } else {
            Seq::empty()
        }
    }

    /// The memory right after construction: glyph `g` of the font at the
    /// addresses `5 * g` to `5 * g + 4`, zero above.
    pub open spec fn initial_memory(font: [[u8; 5]; 16]) -> Seq<u8> {
        Seq::new(
            MEMORY_SIZE as nat,
            |a: int|
                if a < FONT_SIZE {
                    font[a / 5][a % 5]
                } else {
                    0u8
                },
        )
    }

    /// A state in which everything is zero but the program counter, which is
    /// at `start`.
    pub open spec fn zeroed(start: nat) -> StateView {
        StateView {
            memory: Seq::new(MEMORY_SIZE as nat, |a: int| 0u8),
            registers: Seq::new(16, |r: int| 0u8),
            pc: start,
            delay: 0,
            sound: 0,
            index: 0,
            sp: 0,
            stack: Seq::new(STACK_SIZE as nat, |k: int| 0usize),
        }
    }

    /// The state right after construction with entry point `start`.
    pub open spec fn initial(start: usize, font: [[u8; 5]; 16]) -> StateView {
        StateView { memory: StateView::initial_memory(font), ..StateView::zeroed(start as nat) }
    }

    /// The state with `address` pushed on the stack; `None` where the stack
    /// is full or the stack pointer is out of range.
    pub open spec fn push(self, address: usize) -> Option<StateView> {
        if self.sp < STACK_SIZE {
            Some(
                StateView {
                    stack: self.stack.update(self.sp as int, address),
                    sp: self.sp + 1,
                    ..self
                },
            )
        } else {
            None
        }
    }

    /// The newest return address and the state without it; `None` where the
    /// stack is empty or the stack pointer is out of range.
    pub open spec fn pop(self) -> Option<(usize, StateView)> {
        if 0 < self.sp <= STACK_SIZE {
            Some((self.stack[self.sp - 1], StateView { sp: (self.sp - 1) as nat, ..self }))
        } else {
            None
        }
    }

    /// The state after one tick of the timers: each goes down by one and
    /// stops at zero.
    pub open spec fn tick(self) -> StateView {
        StateView {
            delay: if self.delay > 0 {
                (self.delay - 1) as u8
            } else {
                0
            },
            sound: if self.sound > 0 {
                (self.sound - 1) as u8
            } else {
                0
            },
            ..self
        }
    }

    /// The state after `n` ticks of the timers.
    pub open spec fn ticks(self, n: nat) -> StateView
        decreases n,
    {
        if n == 0 {
            self
        } else {
            self.tick().ticks((n - 1) as nat)
        }
    }

    /// The memory after the registers 0 to `x` have been copied to the
    /// addresses from the index register on.
    pub open spec fn stored(self, x: u8) -> Seq<u8> {
        Seq::new(
            self.memory.len(),
            |a: int|
                if self.index <= a <= self.index + x {
                    self.registers[a - self.index]
                } else {
                    self.memory[a]
                },
        )
    }

    /// The registers after the bytes from the index register on have been
    /// copied into the registers 0 to `x`.
    pub open spec fn loaded(self, x: u8) -> Seq<u8> {
        Seq::new(
            self.registers.len(),
            |r: int|
                if r <= x {
                    self.memory[self.index + r]
                } else {
                    self.registers[r]
                },
        )
    }

    /// The state with `bytes` copied into the memory from address `at` on;
    /// `None` where they do not fit.
    pub open spec fn load(self, bytes: Seq<u8>, at: nat) -> Option<StateView> {
        if at + bytes.len() <= MEMORY_SIZE {
            Some(
                StateView {
                    memory: Seq::new(
                        self.memory.len(),
                        |a: int|
                            if at <= a < at + bytes.len() {
                                bytes[a - at]
                            } else {
                                self.memory[a]
                            },
                    ),
                    ..self
                },
            )
        } else {
            None
        }
    }
}

impl View for State {
    type V = StateView;

    open spec fn view(&self) -> StateView {
        StateView {
            memory: self.ram@,
            registers: self.reg@,
            pc: self.pc as nat,
            delay: self.dt,
            sound: self.st,
            index: self.i as nat,
            sp: self.sp as nat,
            stack: self.stack@,
        }
    }
}

impl State {
    /// A state with the font at the bottom of the memory, everything else
    /// zero, and the program counter at `start_from`.
    pub fn new(start_from: usize, font: [[u8; 5]; 16]) -> (state: State)
        ensures
            state@ == StateView::initial(start_from, font),
            state@.wf(),
    {
        let mut ram = [0u8; 4096];
        let mut glyph: usize = 0;
        while glyph < 16
            invariant
                glyph <= 16,
                forall|a: int|
                    0 <= a < 4096 ==> ram[a] == if a < 5 * glyph {
                        font[a / 5][a % 5]
                    } else {
                        0u8
                    },
            decreases 16 - glyph,
        {
            let mut line: usize = 0;
            while line < 5
                invariant
                    glyph < 16,
                    line <= 5,
                    forall|a: int|
                        0 <= a < 4096 ==> ram[a] == if a < 5 * glyph + line {
                            font[a / 5][a % 5]
                        } else {
                            0u8
                        },
                decreases 5 - line,
            {
                ram[5 * glyph + line] = font[glyph][line];
                line += 1;
            }
            glyph += 1;
        }
        let state = State {
            ram,
            reg: [0; 16],
            pc: start_from,
            dt: 0,
            st: 0,
            i: 0,
            sp: 0,
            stack: [0; 16],
        };
        assert(state@.memory =~= StateView::initial_memory(font));
        assert(state@.registers =~= StateView::zeroed(start_from as nat).registers);
        assert(state@.stack =~= StateView::zeroed(start_from as nat).stack);
        state
    }
}

} // verus!
