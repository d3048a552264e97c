//! The bare processor, with its registers in their architectural widths.

use crate::state::{StateView, STACK_SIZE};
use vstd::prelude::*;

verus! {

/// The processor on its own: the same parts as a [`crate::state::State`],
/// with addresses held in 16 bits and the stack pointer in 8, and a memory
/// that starts empty, without a font.
pub struct Cpu {
    ram: [u8; 4096],
    reg: [u8; 16],
    pc: u16,
    dt: u8,
    st: u8,
    i: u16,
    sp: u8,
    stack: [u16; 16],
}

impl View for Cpu {
    type V = StateView;

    closed spec fn view(&self) -> StateView {
        StateView {
            memory: self.ram@,
            registers: self.reg@,
            pc: self.pc as nat,
            delay: self.dt,
            sound: self.st,
            index: self.i as nat,
            sp: self.sp as nat,
            stack: Seq::new(STACK_SIZE as nat, |k: int| self.stack[k] as usize),
        }
    }
}

impl Cpu {
    /// A processor with the program counter at `start_from` and everything
    /// else zero.
    pub fn new(start_from: u16) -> (cpu: Cpu)
        ensures
            cpu@ == StateView::zeroed(start_from as nat),
            cpu@.wf(),
    {
        let cpu = Cpu {
            ram: [0; 4096],
            reg: [0; 16],
            pc: start_from,
            dt: 0,
            st: 0,
            i: 0,
            sp: 0,
            stack: [0; 16],
        };
        assert(cpu@.memory =~= StateView::zeroed(start_from as nat).memory);
        assert(cpu@.registers =~= StateView::zeroed(start_from as nat).registers);
        assert(cpu@.stack =~= StateView::zeroed(start_from as nat).stack);
        cpu
    }
}

} // verus!
