use vstd::prelude::*;

use crate::display::{covers, DisplayView};
use crate::engine::Chip8;
use crate::instruction::Instruction;
use crate::machine::{ExecError, MachineView};

verus! {

/// Whether pixel (`px`, `py`) comes, in drawing order, before column `col`
/// of sprite row `row` of a sprite drawn at (`vx`, `vy`).
spec fn drawn_before(vx: int, vy: int, px: int, py: int, row: int, col: int) -> bool {
    py - vy < row || (py - vy == row && px - vx < col)
}

/// `d` is `d0` with the pixels of `sprite` flipped up to column `col` of
/// row `row`.
spec fn drawn_upto(
    d: DisplayView,
    d0: DisplayView,
    sprite: Seq<u8>,
    vx: int,
    vy: int,
    row: int,
    col: int,
) -> bool {
    &&& d.well_shaped()
    &&& forall|px: int, py: int|
        0 <= px < 64 && 0 <= py < 32 ==> #[trigger] d.pixels[py][px] == if covers(
            sprite,
            vx,
            vy,
            px,
            py,
        ) && drawn_before(vx, vy, px, py, row, col) {
            d0.pixels[py][px] ^ 1
        } else {
            d0.pixels[py][px]
        }
    &&& d.dirty == (d0.dirty || exists|px: int, py: int|
        covers(sprite, vx, vy, px, py) && drawn_before(vx, vy, px, py, row, col))
}

/// Some pixel of `sprite` up to column `col` of row `row` was lit in `d0`.
spec fn collided_upto(
    d0: DisplayView,
    sprite: Seq<u8>,
    vx: int,
    vy: int,
    row: int,
    col: int,
) -> bool {
    exists|px: int, py: int|
        covers(sprite, vx, vy, px, py) && drawn_before(vx, vy, px, py, row, col) && d0.is_on(
            px,
            py,
        )
}

impl Chip8 {
    /// 00E0
    pub(crate) fn op_cls(&mut self)
        ensures
            old(self)@.execute(Instruction::ClearScreen, 0) == Ok::<MachineView, ExecError>(final(self)@),
    {
        self.display.clear();
    }

    /// 00EE
    pub(crate) fn op_sub_return(&mut self) -> (r: Result<(), ExecError>)
        ensures
            (r, final(self)@) == old(self)@.outcome(old(self)@.execute(Instruction::Return, 0)),
    {
        if self.sp == 0 {
            return Err(ExecError::StackUnderflow);
        }
        if self.sp > 16 {
            return Err(ExecError::StackOverflow);
        }
        self.sp = self.sp - 1;
        self.pc = self.stack[self.sp as usize];
        Ok(())
    }

    /// 1NNN
    pub(crate) fn op_jump(&mut self, nnn: u16)
        ensures
            old(self)@.execute(Instruction::Jump { nnn }, 0) == Ok::<MachineView, ExecError>(final(self)@),
    {
        self.pc = nnn;
    }

    /// 2NNN
    pub(crate) fn op_sub_call(&mut self, nnn: u16) -> (r: Result<(), ExecError>)
        ensures
            (r, final(self)@) == old(self)@.outcome(old(self)@.execute(Instruction::Call { nnn }, 0)),
    {
        if self.sp >= 16 {
            return Err(ExecError::StackOverflow);
        }
        self.stack[self.sp as usize] = self.pc;
        self.sp = self.sp + 1;
        self.pc = nnn;
        Ok(())
    }

    /// 3XNN
    pub(crate) fn op_skip_eq(&mut self, x: u8, nn: u8)
        requires
            x < 16,
            old(self).pc <= 4096,
        ensures
            old(self)@.execute(Instruction::SkipEq { x, nn }, 0) == Ok::<MachineView, ExecError>(final(self)@),
    {
        if self.v[x as usize] == nn {
            self.pc = self.pc + 2;
        }
    }

    /// 4XNN
    pub(crate) fn op_skip_ne(&mut self, x: u8, nn: u8)
        requires
            x < 16,
            old(self).pc <= 4096,
        ensures
            old(self)@.execute(Instruction::SkipNe { x, nn }, 0) == Ok::<MachineView, ExecError>(final(self)@),
    {
        if self.v[x as usize] != nn {
            self.pc = self.pc + 2;
        }
    }

    /// 5XY0
    pub(crate) fn op_skip_reg_eq(&mut self, x: u8, y: u8)
        requires
            x < 16,
            y < 16,
            old(self).pc <= 4096,
        ensures
            old(self)@.execute(Instruction::SkipRegEq { x, y }, 0) == Ok::<MachineView, ExecError>(final(self)@),
    {
        if self.v[x as usize] == self.v[y as usize] {
            self.pc = self.pc + 2;
        }
    }

    /// 6XNN
    pub(crate) fn op_set(&mut self, x: u8, nn: u8)
        requires
            x < 16,
        ensures
            old(self)@.execute(Instruction::SetImmediate { x, nn }, 0) == Ok::<MachineView, ExecError>(final(self)@),
    {
        self.v[x as usize] = nn;
    }

    /// 7XNN
    pub(crate) fn op_add(&mut self, x: u8, nn: u8)
        requires
            x < 16,
        ensures
            old(self)@.execute(Instruction::AddImmediate { x, nn }, 0) == Ok::<MachineView, ExecError>(final(self)@),
    {
        self.v[x as usize] = self.v[x as usize].wrapping_add(nn);
    }

    /// 8XY0
    pub(crate) fn op_reg_set(&mut self, x: u8, y: u8)
        requires
            x < 16,
            y < 16,
        ensures
            old(self)@.execute(Instruction::RegSet { x, y }, 0) == Ok::<MachineView, ExecError>(final(self)@),
    {
        self.v[x as usize] = self.v[y as usize];
    }

    /// 8XY1
    pub(crate) fn op_reg_or(&mut self, x: u8, y: u8)
        requires
            x < 16,
            y < 16,
        ensures
            old(self)@.execute(Instruction::RegOr { x, y }, 0) == Ok::<MachineView, ExecError>(final(self)@),
    {
        self.v[x as usize] = self.v[x as usize] | self.v[y as usize];
    }

    /// 8XY2
    pub(crate) fn op_reg_and(&mut self, x: u8, y: u8)
        requires
            x < 16,
            y < 16,
        ensures
            old(self)@.execute(Instruction::RegAnd { x, y }, 0) == Ok::<MachineView, ExecError>(final(self)@),
    {
        self.v[x as usize] = self.v[x as usize] & self.v[y as usize];
    }

    /// 8XY3
    pub(crate) fn op_reg_xor(&mut self, x: u8, y: u8)
        requires
            x < 16,
            y < 16,
        ensures
            old(self)@.execute(Instruction::RegXor { x, y }, 0) == Ok::<MachineView, ExecError>(final(self)@),
    {
        self.v[x as usize] = self.v[x as usize] ^ self.v[y as usize];
    }

    /// 8XY4
    pub(crate) fn op_reg_add(&mut self, x: u8, y: u8)
        requires
            x < 16,
            y < 16,
        ensures
            old(self)@.execute(Instruction::RegAdd { x, y }, 0) == Ok::<MachineView, ExecError>(final(self)@),
    {
        let a = self.v[x as usize];
        let b = self.v[y as usize];
        self.v[x as usize] = a.wrapping_add(b);
        self.v[15] = if a as u16 + b as u16 > 255 { 1 } else { 0 };
    }

    /// 8XY5
    pub(crate) fn op_reg_sub_right(&mut self, x: u8, y: u8)
        requires
            x < 16,
            y < 16,
        ensures
            old(self)@.execute(Instruction::RegSubRight { x, y }, 0) == Ok::<MachineView, ExecError>(final(self)@),
    {
        let a = self.v[x as usize];
        let b = self.v[y as usize];
        self.v[x as usize] = a.wrapping_sub(b);
        self.v[15] = if a >= b { 1 } else { 0 };
    }

    /// 8XY6
    pub(crate) fn op_reg_shift_right(&mut self, x: u8, y: u8)
        requires
            x < 16,
            y < 16,
        ensures
            old(self)@.execute(Instruction::RegShiftRight { x, y }, 0) == Ok::<MachineView, ExecError>(final(self)@),
    {
        let src = if self.config.legacy_shift {
            self.v[y as usize]
        } else {
            self.v[x as usize]
        };
        let flag = src & 0x1;
        self.v[x as usize] = src >> 1;
        self.v[15] = flag;
        assert(src & 0x1 == src % 2 && src >> 1 == src / 2) by (bit_vector);
    }

    /// 8XY7
    pub(crate) fn op_reg_sub_left(&mut self, x: u8, y: u8)
        requires
            x < 16,
            y < 16,
        ensures
            old(self)@.execute(Instruction::RegSubLeft { x, y }, 0) == Ok::<MachineView, ExecError>(final(self)@),
    {
        let a = self.v[x as usize];
        let b = self.v[y as usize];
        self.v[x as usize] = b.wrapping_sub(a);
        self.v[15] = if b >= a { 1 } else { 0 };
    }

    /// 8XYE
    pub(crate) fn op_reg_shift_left(&mut self, x: u8, y: u8)
        requires
            x < 16,
            y < 16,
        ensures
            old(self)@.execute(Instruction::RegShiftLeft { x, y }, 0) == Ok::<MachineView, ExecError>(final(self)@),
    {
        let src = if self.config.legacy_shift {
            self.v[y as usize]
        } else {
            self.v[x as usize]
        };
        let flag = (src >> 7) & 0x1;
        self.v[x as usize] = src << 1;
        self.v[15] = flag;
        assert((src >> 7) & 0x1 == src / 128 && src << 1 == ((src * 2) % 256) as u8) by (bit_vector);
    }

    /// 9XY0
    pub(crate) fn op_skip_reg_ne(&mut self, x: u8, y: u8)
        requires
            x < 16,
            y < 16,
            old(self).pc <= 4096,
        ensures
            old(self)@.execute(Instruction::SkipRegNe { x, y }, 0) == Ok::<MachineView, ExecError>(final(self)@),
    {
        if self.v[x as usize] != self.v[y as usize] {
            self.pc = self.pc + 2;
        }
    }

    /// ANNN
    pub(crate) fn op_set_index(&mut self, nnn: u16)
        ensures
            old(self)@.execute(Instruction::SetIndex { nnn }, 0) == Ok::<MachineView, ExecError>(final(self)@),
    {
        self.i = nnn;
    }

    /// BNNN
    pub(crate) fn op_jump_with_offset(&mut self, nnn: u16, x: u8)
        requires
            x < 16,
            nnn < 0x1000,
        ensures
            old(self)@.execute(Instruction::JumpWithOffset { nnn, x }, 0) == Ok::<MachineView, ExecError>(final(self)@),
    {
        let r: usize = if self.config.jump_add_offset { x as usize } else { 0 };
        self.pc = nnn + self.v[r] as u16;
    }

    /// CXNN, with `rnd` as the random byte.
    pub(crate) fn op_random(&mut self, x: u8, nn: u8, rnd: u8)
        requires
            x < 16,
        ensures
            old(self)@.execute(Instruction::Random { x, nn }, rnd) == Ok::<MachineView, ExecError>(final(self)@),
    {
        self.v[x as usize] = nn & rnd;
    }

    /// EX9E
    pub(crate) fn op_skip_if_key_down(&mut self, x: u8) -> (r: Result<(), ExecError>)
        requires
            x < 16,
            old(self).pc <= 4096,
        ensures
            (r, final(self)@) == old(self)@.outcome(old(self)@.execute(Instruction::SkipIfKeyDown { x }, 0)),
    {
        let key = self.v[x as usize];
        if key >= 16 {
            return Err(ExecError::InvalidKey { key });
        }
        if self.keypad.is_key_down(key) {
            self.pc = self.pc + 2;
        }
        Ok(())
    }

    /// EXA1
    pub(crate) fn op_skip_if_key_up(&mut self, x: u8) -> (r: Result<(), ExecError>)
        requires
            x < 16,
            old(self).pc <= 4096,
        ensures
            (r, final(self)@) == old(self)@.outcome(old(self)@.execute(Instruction::SkipIfKeyUp { x }, 0)),
    {
        let key = self.v[x as usize];
        if key >= 16 {
            return Err(ExecError::InvalidKey { key });
        }
        if self.keypad.is_key_up(key) {
            self.pc = self.pc + 2;
        }
        Ok(())
    }

    /// FX07
    pub(crate) fn op_dt_get(&mut self, x: u8)
        requires
            x < 16,
        ensures
            old(self)@.execute(Instruction::DelayGet { x }, 0) == Ok::<MachineView, ExecError>(final(self)@),
    {
        self.v[x as usize] = self.dt;
    }

    /// FX15
    pub(crate) fn op_dt_set(&mut self, x: u8)
        requires
            x < 16,
        ensures
            old(self)@.execute(Instruction::DelaySet { x }, 0) == Ok::<MachineView, ExecError>(final(self)@),
    {
        self.dt = self.v[x as usize];
    }

    /// FX18
    pub(crate) fn op_st_set(&mut self, x: u8)
        requires
            x < 16,
        ensures
            old(self)@.execute(Instruction::SoundSet { x }, 0) == Ok::<MachineView, ExecError>(final(self)@),
    {
        self.st = self.v[x as usize];
    }

    /// FX1E
    pub(crate) fn op_add_to_index(&mut self, x: u8)
        requires
            x < 16,
        ensures
            old(self)@.execute(Instruction::AddToIndex { x }, 0) == Ok::<MachineView, ExecError>(final(self)@),
    {
        self.i = self.i.wrapping_add(self.v[x as usize] as u16);
    }

    /// FX29
    pub(crate) fn op_font_character(&mut self, x: u8)
        requires
            x < 16,
        ensures
            old(self)@.execute(Instruction::FontCharacter { x }, 0) == Ok::<MachineView, ExecError>(final(self)@),
    {
        self.i = 0x50 + 5 * (self.v[x as usize] as u16);
    }

    /// FX33
    pub(crate) fn op_convert_to_decimal(&mut self, x: u8) -> (r: Result<(), ExecError>)
        requires
            x < 16,
        ensures
            (r, final(self)@) == old(self)@.outcome(old(self)@.execute(Instruction::ConvertToDecimal { x }, 0)),
    {
        let n = self.v[x as usize];
        let start = self.i as usize;
        if start + 2 >= 4096 {
            return Err(ExecError::MemoryOutOfBounds { index: self.i });
        }
        self.memory.data[start] = n / 100;
        self.memory.data[start + 1] = (n / 10) % 10;
        self.memory.data[start + 2] = n % 10;
        Ok(())
    }
    /// FX0A
    pub(crate) fn op_get_key(&mut self, x: u8) -> (r: Result<(), ExecError>)
        requires
            x < 16,
            old(self).pc >= 2,
        ensures
            (r, final(self)@) == old(self)@.outcome(old(self)@.execute(Instruction::GetKey { x }, 0)),
    {
        if let Some(key) = self.keypad.awaiting_release {
            if key >= 16 {
                return Err(ExecError::InvalidKey { key });
            }
            if self.keypad.is_key_up(key) {
                self.v[x as usize] = key;
                self.keypad.process_release();
                return Ok(());
            }
        } else {
            let mut key: u8 = 0;
            while key < 16 && !self.keypad.is_key_down(key)
                invariant
                    key <= 16,
                    self@.keypad.first_down() == self@.keypad.first_down_from(key as int),
                decreases 16 - key,
            {
                key = key + 1;
            }
            if key < 16 {
                self.keypad.await_release(key);
            }
        }
        self.pc = self.pc - 2;
        Ok(())
    }

    /// FX55
    pub(crate) fn op_memory_store(&mut self, x: u8) -> (r: Result<(), ExecError>)
        requires
            x < 16,
        ensures
            (r, final(self)@) == old(self)@.outcome(old(self)@.execute(Instruction::MemoryStore { x }, 0)),
    {
        let start = self.i as usize;
        if start + x as usize >= 4096 {
            return Err(ExecError::MemoryOutOfBounds { index: self.i });
        }
        let ghost m0 = self@;
        let mut k: usize = 0;
        while k <= x as usize
            invariant
                start == m0.i,
                start + x < 4096,
                k <= x + 1,
                x < 16,
                self@ == (MachineView { mem: self@.mem, i: self@.i, ..m0 }),
                self@.mem.len() == 4096,
                forall|a: int|
                    0 <= a < 4096 ==> #[trigger] self@.mem[a] == if start <= a < start + k {
                        m0.v[a - start]
                    } else {
                        m0.mem[a]
                    },
                self.i == if self.config.memory_increment_i {
                    (start + k) as u16
                } else {
                    start as u16
                },
            decreases x + 1 - k,
        {
            self.memory.data[start + k] = self.v[k];
            if self.config.memory_increment_i {
                self.i = self.i + 1;
            }
            k = k + 1;
        }
        assert(self@.mem =~= old(self)@.execute(Instruction::MemoryStore { x }, 0)->Ok_0.mem);
        Ok(())
    }

    /// FX65
    pub(crate) fn op_memory_load(&mut self, x: u8) -> (r: Result<(), ExecError>)
        requires
            x < 16,
        ensures
            (r, final(self)@) == old(self)@.outcome(old(self)@.execute(Instruction::MemoryLoad { x }, 0)),
    {
        let start = self.i as usize;
        if start + x as usize >= 4096 {
            return Err(ExecError::MemoryOutOfBounds { index: self.i });
        }
        let ghost m0 = self@;
        let mut k: usize = 0;
        while k <= x as usize
            invariant
                start == m0.i,
                start + x < 4096,
                k <= x + 1,
                x < 16,
                self@ == (MachineView { v: self@.v, i: self@.i, ..m0 }),
                self@.v.len() == 16,
                forall|r: int|
                    0 <= r < 16 ==> #[trigger] self@.v[r] == if r < k {
                        m0.mem[start + r]
                    } else {
                        m0.v[r]
                    },
                self.i == if self.config.memory_increment_i {
                    (start + k) as u16
                } else {
                    start as u16
                },
            decreases x + 1 - k,
        {
            self.v[k] = self.memory.data[start + k];
            if self.config.memory_increment_i {
                self.i = self.i + 1;
            }
            k = k + 1;
        }
        assert(self@.v =~= old(self)@.execute(Instruction::MemoryLoad { x }, 0)->Ok_0.v);
        Ok(())
    }
    /// DXYN
    pub(crate) fn op_display(&mut self, x: u8, y: u8, n: u8) -> (r: Result<(), ExecError>)
        requires
            x < 16,
            y < 16,
            n < 16,
        ensures
            (r, final(self)@) == old(self)@.outcome(old(self)@.execute(Instruction::Draw { x, y, n }, 0)),
    {
        let vx = self.v[x as usize] as usize % 64;
        let vy = self.v[y as usize] as usize % 32;
        let rows: usize = if (n as usize) <= 32 - vy {
            n as usize
        } else {
            32 - vy
        };
        let start = self.i as usize;
        if rows > 0 && start + rows > 4096 {
            return Err(ExecError::MemoryOutOfBounds { index: self.i });
        }
        let cols: usize = if vx <= 56 {
            8
        } else {
            64 - vx
        };
        let ghost m0 = self@;
        let ghost sprite = m0.sprite_at_index(rows as int);
        let ghost d0 = m0.display;
        proof {
            self.display.lemma_well_shaped();
        }
        self.v[15] = 0;
        let mut row: usize = 0;
        while row < rows
            invariant
                row <= rows,
                rows <= 32 - vy,
                vx < 64,
                vy < 32,
                cols == if vx <= 56 {
                    8
                } else {
                    64 - vx
                },
                rows > 0 ==> start + rows <= 4096,
                start == m0.i,
                sprite == m0.sprite_at_index(rows as int),
                d0 == m0.display,
                d0.well_shaped(),
                m0.v.len() == 16,
                self@ == (MachineView { display: self@.display, v: self@.v, ..m0 }),
                self@.v == m0.v.update(
                    15,
                    if collided_upto(d0, sprite, vx as int, vy as int, row as int, 0) {
                        1u8
                    } else {
                        0u8
                    },
                ),
                drawn_upto(self@.display, d0, sprite, vx as int, vy as int, row as int, 0),
            decreases rows - row,
        {
            let byte = self.memory.data[start + row];
            let mut col: usize = 0;
            while col < cols
                invariant
                    row < rows,
                    rows <= 32 - vy,
                    vx < 64,
                    vy < 32,
                    col <= cols,
                    cols == if vx <= 56 {
                        8
                    } else {
                        64 - vx
                    },
                    byte == sprite[row as int],
                    sprite.len() == rows,
                    d0.well_shaped(),
                    m0.v.len() == 16,
                    self@ == (MachineView { display: self@.display, v: self@.v, ..m0 }),
                    self@.v == m0.v.update(
                        15,
                        if collided_upto(d0, sprite, vx as int, vy as int, row as int, col as int) {
                            1u8
                        } else {
                            0u8
                        },
                    ),
                    drawn_upto(self@.display, d0, sprite, vx as int, vy as int, row as int, col as int),
                decreases cols - col,
            {
                let ghost d1 = self@.display;
                let ghost (px, py) = ((vx + col) as int, (vy + row) as int);
                assert(covers(sprite, vx as int, vy as int, px, py) <==> (byte >> ((7 - col) as u8))
                    & 1 == 1);
                if (byte >> ((7 - col) as u8)) & 1 == 1 {
                    let hit = self.display.toggle(vx + col, vy + row);
                    if hit {
                        self.v[15] = 1;
                    }
                    assert(hit == d0.is_on(px, py));
                    assert(drawn_upto(self@.display, d0, sprite, vx as int, vy as int, row as int, col + 1)) by {
                        assert(covers(sprite, vx as int, vy as int, px, py) && drawn_before(vx as int, vy as int, px, py, row as int, col + 1));
                    }
                    if hit {
                        assert(collided_upto(d0, sprite, vx as int, vy as int, row as int, col + 1)) by {
                            assert(covers(sprite, vx as int, vy as int, px, py) && drawn_before(vx as int, vy as int, px, py, row as int, col + 1) && d0.is_on(px, py));
                        }
                    } else {
                        assert(collided_upto(d0, sprite, vx as int, vy as int, row as int, col + 1)
                            == collided_upto(d0, sprite, vx as int, vy as int, row as int, col as int));
                    }
                } else {
                    assert(collided_upto(d0, sprite, vx as int, vy as int, row as int, col + 1)
                        == collided_upto(d0, sprite, vx as int, vy as int, row as int, col as int));
                    assert(drawn_upto(self@.display, d0, sprite, vx as int, vy as int, row as int, col + 1));
                }
                assert(self@.v =~= m0.v.update(
                    15,
                    if collided_upto(d0, sprite, vx as int, vy as int, row as int, col + 1) {
                        1u8
                    } else {
                        0u8
                    },
                ));
                col = col + 1;
            }
            assert forall|px: int, py: int| covers(sprite, vx as int, vy as int, px, py) implies
                drawn_before(vx as int, vy as int, px, py, row as int, cols as int) == drawn_before(vx as int, vy as int, px, py, row + 1, 0) by {}
            assert(collided_upto(d0, sprite, vx as int, vy as int, row as int, cols as int)
                == collided_upto(d0, sprite, vx as int, vy as int, row + 1, 0));
            assert(drawn_upto(self@.display, d0, sprite, vx as int, vy as int, row + 1, 0));
            row = row + 1;
        }
        assert forall|px: int, py: int| covers(sprite, vx as int, vy as int, px, py) implies
            drawn_before(vx as int, vy as int, px, py, rows as int, 0) by {}
        assert(self@.display.pixels =~~= d0.with_sprite(sprite, vx as int, vy as int).pixels);
        assert(collided_upto(d0, sprite, vx as int, vy as int, rows as int, 0) == d0.sprite_collides(sprite, vx as int, vy as int));
        Ok(())
    }
}

} // verus!
