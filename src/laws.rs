use vstd::prelude::*;

use crate::display::{covers, DisplayView};
use crate::instruction::{decode_word, Instruction};
use crate::keypad::KeypadView;
use crate::machine::MachineView;

verus! {

/// Toggling a pixel on the screen twice restores every pixel; a pixel that
/// started dark answers `false` and then `true`.
pub proof fn lemma_toggle_twice(d: DisplayView, x: int, y: int)
    requires
        d.well_shaped(),
        0 <= x < 64,
        0 <= y < 32,
    ensures
        d.toggled(x, y).0.toggled(x, y).0.pixels == d.pixels,
        d.pixels[y][x] == 0 ==> !d.toggled(x, y).1 && d.toggled(x, y).0.toggled(x, y).1,
{
    let v = d.pixels[y][x];
    assert((v ^ 1) ^ 1 == v) by (bit_vector);
    assert(v == 0 ==> v ^ 1 == 1) by (bit_vector);
    assert(d.toggled(x, y).0.toggled(x, y).0.pixels =~~= d.pixels);
}

/// Toggling a pixel off the screen answers `false` and changes nothing, the
/// dirty flag included.
pub proof fn lemma_toggle_off_screen(d: DisplayView, x: int, y: int)
    requires
        !(0 <= x < 64 && 0 <= y < 32),
    ensures
        d.toggled(x, y) == (d, false),
{
}

/// After a draw, VF is 1 exactly when the sprite flips some pixel that was
/// lit, and 0 otherwise.
pub proof fn lemma_draw_flags_collision(m: MachineView, x: u8, y: u8, n: u8, rnd: u8)
    requires
        m.execute(Instruction::Draw { x, y, n }, rnd) is Ok,
        m.v.len() == 16,
    ensures
        ({
            let after = m.execute(Instruction::Draw { x, y, n }, rnd)->Ok_0;
            let vx = m.v[x as int] as int % 64;
            let vy = m.v[y as int] as int % 32;
            let sprite = m.sprite_at_index(crate::machine::visible_rows(vy, n as int));
            &&& after.v[15] == 0 || after.v[15] == 1
            &&& after.v[15] == 1 <==> exists|px: int, py: int|
                covers(sprite, vx, vy, px, py) && m.display.is_on(px, py)
        }),
{
}

/// A call followed by a return resumes right after the call: the program
/// counter is the call's address plus two, the stack pointer is back, and the
/// slot that the call used holds that return address.
pub proof fn lemma_call_then_return(m: MachineView, nnn: u16, rnd1: u8, rnd2: u8)
    requires
        m.pc < 4095,
        decode_word(m.word_at(m.pc as int)) == Some(Instruction::Call { nnn }),
        nnn < 4095,
        decode_word(m.word_at(nnn as int)) == Some(Instruction::Return),
        m.sp < 16,
        m.stack.len() == 16,
    ensures
        m.step(rnd1) matches Ok(called) && {
            &&& called.pc == nnn
            &&& called.sp == m.sp + 1
            &&& called.stack[m.sp as int] == m.pc + 2
            &&& called.step(rnd2) == Ok::<MachineView, crate::machine::ExecError>(
                MachineView {
                    pc: (m.pc + 2) as u16,
                    stack: m.stack.update(m.sp as int, (m.pc + 2) as u16),
                    ..m
                },
            )
        },
{
    reveal(MachineView::step);
}

/// The lowest key down after key `k` goes down, when no key at or above `j`
/// was down, is `k`.
proof fn lemma_first_down_pressed(kp: KeypadView, k: int, j: int)
    requires
        kp.first_down_from(j) is None,
        0 <= j <= k < 16,
        kp.keys.len() == 16,
    ensures
        kp.pressed(k).first_down_from(j) == Some(k as u8),
    decreases k - j,
{
    if j < k {
        lemma_first_down_pressed(kp, k, j + 1);
    }
}

/// A wait for a key, with no key down and none awaited, holds the program
/// at the waiting instruction: the step changes nothing.
pub proof fn lemma_wait_without_key_holds(m: MachineView, x: u8, rnd: u8)
    requires
        m.pc < 4095,
        decode_word(m.word_at(m.pc as int)) == Some(Instruction::GetKey { x }),
        m.keypad.awaiting is None,
        m.keypad.first_down() is None,
    ensures
        m.step(rnd) == Ok::<MachineView, crate::machine::ExecError>(m),
{
    reveal(MachineView::step);
}

/// A wait for a key completes only once a pressed key is released: pressing
/// key `k` latches it and holds the program, the program stays held while
/// the key is down, and after the release the key lands in VX and the
/// program moves on.
pub proof fn lemma_wait_for_press_and_release(m: MachineView, x: u8, k: u8, rnd: u8)
    requires
        m.pc < 4095,
        decode_word(m.word_at(m.pc as int)) == Some(Instruction::GetKey { x }),
        m.keypad.awaiting is None,
        m.keypad.first_down() is None,
        m.keypad.keys.len() == 16,
        k < 16,
    ensures
        ({
            let pressed = MachineView { keypad: m.keypad.pressed(k as int), ..m };
            let latched = MachineView {
                keypad: KeypadView { awaiting: Some(k), ..pressed.keypad },
                ..pressed
            };
            let released = MachineView { keypad: latched.keypad.released(k as int), ..latched };
            &&& pressed.step(rnd) == Ok::<MachineView, crate::machine::ExecError>(latched)
            &&& latched.step(rnd) == Ok::<MachineView, crate::machine::ExecError>(latched)
            &&& released.step(rnd) == Ok::<MachineView, crate::machine::ExecError>(
                MachineView {
                    v: m.v.update(x as int, k),
                    pc: (m.pc + 2) as u16,
                    keypad: KeypadView { awaiting: None, ..released.keypad },
                    ..m
                },
            )
        }),
{
    reveal(MachineView::step);
    lemma_first_down_pressed(m.keypad, k as int, 0);
}

/// A block store or load moves the index register past the `x + 1` bytes it
/// transfers when the memory-increment-index quirk is on, and leaves it
/// alone when it is off.
pub proof fn lemma_block_transfer_index(m: MachineView, x: u8, rnd: u8)
    requires
        m.i + x < 4096,
    ensures
        m.execute(Instruction::MemoryStore { x }, rnd) matches Ok(after) && after.i == if m.config.memory_increment_i {
            m.i + x + 1
        } else {
            m.i as int
        },
        m.execute(Instruction::MemoryLoad { x }, rnd) matches Ok(after) && after.i == if m.config.memory_increment_i {
            m.i + x + 1
        } else {
            m.i as int
        },
{
}

} // verus!
