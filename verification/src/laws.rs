//! Laws of the instruction set and of the screen, proved from their
//! definitions.

use crate::display::{lemma_ring_position, ring_position, sprite_bit, sprite_covers, Screen};
use crate::error::Error;
use crate::instruction::{Instruction, Need};
use crate::semantics::Machine;
use crate::state::StateView;
use vstd::arithmetic::div_mod::lemma_mod_self_0;
use vstd::prelude::*;

verus! {

/// The word made of the four nibbles `a`, `b`, `c` and `d`, highest first.
pub open spec fn word_of(a: u8, b: u8, c: u8, d: u8) -> u16 {
    (a * 0x1000 + b * 0x100 + c * 0x10 + d) as u16
}

/// The word `6xkk` decodes to the load of `kk` into `Vx`, and once that
/// instruction has run, `Vx` holds `kk` exactly.
pub proof fn law_load_immediate(m: Machine, x: u8, kk: u8, input: u8)
    requires
        m.wf(),
        m.can_fetch(),
        x < 16,
    ensures
        Instruction::decode_spec(word_of(6, x, kk / 16, kk % 16)) == Some(
            Instruction::LdImm { x, kk },
        ),
        m.step(Instruction::LdImm { x, kk }, input) matches Some(after) && after.v(x) == kk,
{
}

/// `7xkk` adds modulo 256 and changes no other register: register F is
/// left alone unless it is itself the register added to.
pub proof fn law_add_immediate(m: Machine, x: u8, kk: u8, input: u8)
    requires
        m.wf(),
        m.can_fetch(),
        x < 16,
    ensures
        m.step(Instruction::AddImm { x, kk }, input) matches Some(after) && {
            &&& after.v(x) == (m.v(x) + kk) % 256
            &&& forall|r: u8| r < 16 && r != x ==> after.v(r) == m.v(r)
        },
{
}

/// `8xy4` sets register F to 1 if the sum of the two registers exceeds 255
/// and to 0 if not, and leaves the sum modulo 256 in `Vx` where `x` is not F
/// itself.
pub proof fn law_add_registers(m: Machine, x: u8, y: u8, input: u8)
    requires
        m.wf(),
        m.can_fetch(),
        x < 16,
        y < 16,
    ensures
        m.step(Instruction::AddReg { x, y }, input) matches Some(after) && {
            &&& after.v(0xF) == if m.v(x) + m.v(y) > 255 {
                1u8
            } else {
                0u8
            }
            &&& x != 0xF ==> after.v(x) == (m.v(x) + m.v(y)) % 256
        },
{
}

/// `8xy5` sets register F to 1 if `Vx >= Vy` held before, so that nothing
/// was borrowed, and to 0 if not, and leaves the difference modulo 256 in
/// `Vx` where `x` is not F itself.
pub proof fn law_sub_registers(m: Machine, x: u8, y: u8, input: u8)
    requires
        m.wf(),
        m.can_fetch(),
        x < 16,
        y < 16,
    ensures
        m.step(Instruction::Sub { x, y }, input) matches Some(after) && {
            &&& after.v(0xF) == if m.v(x) >= m.v(y) {
                1u8
            } else {
                0u8
            }
            &&& x != 0xF ==> after.v(x) == (m.v(x) - m.v(y)) % 256
        },
{
}

/// An instruction that needs nothing from outside runs the same whatever
/// input it is given.
pub proof fn law_input_unused(m: Machine, instruction: Instruction, a: u8, b: u8)
    requires
        instruction.need() == Need::Nothing,
    ensures
        m.step(instruction, a) == m.step(instruction, b),
{
}

/// Running an instruction keeps the machine well formed.
pub proof fn law_step_keeps_wf(m: Machine, instruction: Instruction, input: u8)
    requires
        m.wf(),
        instruction.wf(),
    ensures
        m.step(instruction, input) matches Some(after) ==> after.wf(),
{
}

/// A word that stands for no instruction is reported with the address it
/// was fetched at, and the cycle leaves the machine as it was, whatever the
/// outside world would have supplied.
pub proof fn law_unassigned_word_changes_nothing(m: Machine, word: u16, input: u8)
    requires
        m.wf(),
        m.fetch() == Ok::<u16, Error>(word),
        Instruction::decode_spec(word) is None,
    ensures
        m.cycle(input) == (
            Err::<(), Error>(Error::Decode { instruction: word, pc: m.state.pc as usize }),
            m,
        ),
{
}

/// In the family `5xyn` only `n == 0` is assigned: every other word of it
/// stands for no instruction.
pub proof fn law_family_five_needs_a_zero(x: u8, y: u8, n: u8)
    requires
        x < 16,
        y < 16,
        0 < n < 16,
    ensures
        Instruction::decode_spec(word_of(5, x, y, n)) is None,
{
}

/// A byte that is not zero has a set bit.
pub proof fn lemma_some_bit(b: u8) -> (k: int)
    requires
        b != 0,
    ensures
        sprite_bit(b, k),
{
    assert(b != 0 ==> (b & (0x80u8 >> 0u8)) != 0 || (b & (0x80u8 >> 1u8)) != 0 || (b & (0x80u8
        >> 2u8)) != 0 || (b & (0x80u8 >> 3u8)) != 0 || (b & (0x80u8 >> 4u8)) != 0 || (b & (0x80u8
        >> 5u8)) != 0 || (b & (0x80u8 >> 6u8)) != 0 || (b & (0x80u8 >> 7u8)) != 0) by (bit_vector);
    if (b & (0x80u8 >> 0u8)) != 0 {
        0
    } else if (b & (0x80u8 >> 1u8)) != 0 {
        1
    } else if (b & (0x80u8 >> 2u8)) != 0 {
        2
    } else if (b & (0x80u8 >> 3u8)) != 0 {
        3
    } else if (b & (0x80u8 >> 4u8)) != 0 {
        4
    } else if (b & (0x80u8 >> 5u8)) != 0 {
        5
    } else if (b & (0x80u8 >> 6u8)) != 0 {
        6
    } else {
        7
    }
}

/// Drawing a sprite twice at the same place gives back the pixels that
/// were there before.
pub proof fn law_draw_twice_restores(screen: Screen, rows: Seq<u8>, x: int, y: int)
    requires
        screen.wf(),
    ensures
        screen.blit(rows, x, y).blit(rows, x, y).pixels == screen.pixels,
{
    assert(screen.blit(rows, x, y).blit(rows, x, y).pixels =~~= screen.pixels);
}

/// On a dark screen, drawing a byte that is not zero hits nothing the first
/// time; drawing it again at the same place hits a lit pixel and leaves the
/// screen dark.
pub proof fn law_draw_twice_collides(screen: Screen, b: u8, x: int, y: int)
    requires
        screen.wf(),
        screen.pixels == Screen::dark(screen.width, screen.height),
        b != 0,
    ensures
        !screen.hits(seq![b], x, y),
        screen.blit(seq![b], x, y).hits(seq![b], x, y),
        screen.blit(seq![b], x, y).blit(seq![b], x, y).pixels == Screen::dark(
            screen.width,
            screen.height,
        ),
{
    let w = screen.width as int;
    let h = screen.height as int;
    let once = screen.blit(seq![b], x, y);
    law_draw_twice_restores(screen, seq![b], x, y);
    let k = lemma_some_bit(b);
    let c = ring_position(x, k, w);
    let r = ring_position(y, 0, h);
    lemma_ring_position(w, x, k);
    lemma_ring_position(h, y, 0);
    assert(once.pixels[r][c]);
}

/// A sprite row drawn in the last column continues in the first: where its
/// second bit is set, the pixel in column 0 of the row changes.
pub proof fn law_draw_wraps(screen: Screen, b: u8, y: int)
    requires
        screen.wf(),
        sprite_bit(b, 1),
    ensures
        ({
            let row = y % (screen.height as int);
            screen.blit(seq![b], screen.width - 1, y).pixels[row][0] == !screen.pixels[row][0]
        }),
{
    let w = screen.width as int;
    let h = screen.height as int;
    let row = y % h;
    assert(row == ring_position(y, 0, h)) by {
        reveal(ring_position);
    }
    assert(0 == ring_position(w - 1, 1, w)) by {
        reveal(ring_position);
        lemma_mod_self_0(w);
    }
    lemma_ring_position(h, y, 0);
    lemma_ring_position(w, w - 1, 1);
}

/// A call made at address `p` with room on the stack jumps to `nnn` and
/// puts `p + 2` on top of the return addresses. Whatever runs in between,
/// a return made while the stack holds the same addresses again resumes
/// at `p + 2` exactly, with the return addresses as they were before the
/// call.
pub proof fn law_call_then_return(m: Machine, nnn: u16, later: Machine, input: u8)
    requires
        m.wf(),
        m.can_fetch(),
        m.state.sp < 16,
        nnn < 0x1000,
        later.wf(),
        later.can_fetch(),
        m.step(Instruction::Call { nnn }, input) matches Some(called)
            && later.state.live_stack() == called.state.live_stack(),
    ensures
        m.step(Instruction::Call { nnn }, input) matches Some(called) && {
            &&& called.state.pc == nnn
            &&& called.state.live_stack() == m.state.live_stack().push((m.state.pc + 2) as usize)
        },
        later.step(Instruction::Ret, input) matches Some(returned) && {
            &&& returned.state.pc == m.state.pc + 2
            &&& returned.state.live_stack() == m.state.live_stack()
        },
{
    let pushed = m.state.live_stack().push((m.state.pc + 2) as usize);
    assert(later.state.sp == m.state.sp + 1) by {
        assert(later.state.live_stack().len() == pushed.len());
    }
    assert(later.state.stack[m.state.sp as int] == later.state.live_stack()[m.state.sp as int]);
    let returned = later.step(Instruction::Ret, input).unwrap();
    assert(returned.state.live_stack() =~= m.state.live_stack());
}

/// However often the timers tick, they count down to zero and stay there:
/// after `n` ticks each holds what it held less `n`, or zero if that would
/// be less than zero, and nothing else has changed.
pub proof fn law_timers_stop_at_zero(s: StateView, n: nat)
    ensures
        s.ticks(n).delay == if s.delay >= n {
            s.delay - n
        } else {
            0
        },
        s.ticks(n).sound == if s.sound >= n {
            s.sound - n
        } else {
            0
        },
        s.ticks(n) == (StateView { delay: s.ticks(n).delay, sound: s.ticks(n).sound, ..s }),
    decreases n,
{
    if n > 0 {
        law_timers_stop_at_zero(s.tick(), (n - 1) as nat);
    }
}

} // verus!
