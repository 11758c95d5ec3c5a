use vstd::prelude::*;

use crate::config::Chip8Config;
use crate::display::DisplayView;
use crate::instruction::{decode_word, Instruction};
use crate::keypad::KeypadView;

verus! {

/// A fatal execution error: the program cannot go on.
#[derive(Debug, Clone, Copy, PartialEq, Eq, Structural)]
pub enum ExecError {
    /// The program counter leaves no room for a two-byte instruction.
    PcOutOfBounds { pc: u16 },
    /// The word fetched at `addr` encodes no instruction.
    InvalidOpcode { opcode: u16, addr: u16 },
    /// A call with a full stack, or a stack pointer beyond the stack.
    StackOverflow,
    /// A return with an empty stack.
    StackUnderflow,
    /// The memory that an instruction reads or writes at the index register
    /// runs past the end of memory.
    MemoryOutOfBounds { index: u16 },
    /// A key index above 0xF.
    InvalidKey { key: u8 },
}

/// The model of a whole machine.
pub struct MachineView {
    pub config: Chip8Config,
    /// The 4096 bytes of memory.
    pub mem: Seq<u8>,
    pub display: DisplayView,
    pub keypad: KeypadView,
    /// The sixteen return-address slots; `sp` of them are in use.
    pub stack: Seq<u16>,
    pub sp: u8,
    /// Registers V0 to VF.
    pub v: Seq<u8>,
    pub pc: u16,
    /// The index register I.
    pub i: u16,
    /// The delay timer.
    pub dt: u8,
    /// The sound timer.
    pub st: u8,
}

/// The number of sprite rows that a draw at row `vy` reads: `n`, cut off at
/// the bottom of the screen.
pub open spec fn visible_rows(vy: int, n: int) -> int {
    if n <= 32 - vy {
        n
    } else {
        32 - vy
    }
}

impl MachineView {
    /// The machine with register `r` set to `val`.
    pub open spec fn with_reg(self, r: u8, val: u8) -> MachineView {
        MachineView { v: self.v.update(r as int, val), ..self }
    }

    /// The machine with register `r` set to `val` and then VF set to `flag`.
    pub open spec fn with_reg_and_flag(self, r: u8, val: u8, flag: u8) -> MachineView {
        MachineView { v: self.v.update(r as int, val).update(15, flag), ..self }
    }

    /// The machine with the next instruction skipped if `cond` holds.
    pub open spec fn skip_if(self, cond: bool) -> MachineView {
        if cond {
            MachineView { pc: (self.pc + 2) as u16, ..self }
        } else {
            self
        }
    }

    /// The operand of a shift: VY under the legacy-shift quirk, else VX.
    pub open spec fn shift_source(self, x: u8, y: u8) -> u8 {
        if self.config.legacy_shift {
            self.v[y as int]
        } else {
            self.v[x as int]
        }
    }

    /// The `rows` bytes of a sprite stored at the index register.
    pub open spec fn sprite_at_index(self, rows: int) -> Seq<u8> {
        Seq::new(rows as nat, |r: int| self.mem[self.i + r])
    }

    /// What executing `ins` does, the program counter having already been
    /// moved past it; `rnd` is the random byte that a random instruction uses.
    pub open spec fn execute(self, ins: Instruction, rnd: u8) -> Result<MachineView, ExecError> {
        match ins {
            Instruction::ClearScreen => Ok(MachineView { display: self.display.cleared(), ..self }),
            Instruction::Return => {
                if self.sp == 0 {
                    Err(ExecError::StackUnderflow)
                } else if self.sp > 16 {
                    Err(ExecError::StackOverflow)
                } else {
                    Ok(MachineView { sp: (self.sp - 1) as u8, pc: self.stack[self.sp - 1], ..self })
                }
            },
            Instruction::Jump { nnn } => Ok(MachineView { pc: nnn, ..self }),
            Instruction::Call { nnn } => {
                if self.sp >= 16 {
                    Err(ExecError::StackOverflow)
                } else {
                    Ok(
                        MachineView {
                            stack: self.stack.update(self.sp as int, self.pc),
                            sp: (self.sp + 1) as u8,
                            pc: nnn,
                            ..self
                        },
                    )
                }
            },
            Instruction::SkipEq { x, nn } => Ok(self.skip_if(self.v[x as int] == nn)),
            Instruction::SkipNe { x, nn } => Ok(self.skip_if(self.v[x as int] != nn)),
            Instruction::SkipRegEq { x, y } => Ok(self.skip_if(self.v[x as int] == self.v[y as int])),
            Instruction::SetImmediate { x, nn } => Ok(self.with_reg(x, nn)),
            Instruction::AddImmediate { x, nn } => Ok(
                self.with_reg(x, ((self.v[x as int] + nn) % 256) as u8),
            ),
            Instruction::RegSet { x, y } => Ok(self.with_reg(x, self.v[y as int])),
            Instruction::RegOr { x, y } => Ok(self.with_reg(x, self.v[x as int] | self.v[y as int])),
            Instruction::RegAnd { x, y } => Ok(self.with_reg(x, self.v[x as int] & self.v[y as int])),
            Instruction::RegXor { x, y } => Ok(self.with_reg(x, self.v[x as int] ^ self.v[y as int])),
            Instruction::RegAdd { x, y } => {
                let sum = self.v[x as int] + self.v[y as int];
                Ok(self.with_reg_and_flag(x, (sum % 256) as u8, if sum > 255 { 1 } else { 0 }))
            },
            Instruction::RegSubRight { x, y } => {
                let (a, b) = (self.v[x as int], self.v[y as int]);
                Ok(self.with_reg_and_flag(x, ((a - b) % 256) as u8, if a >= b { 1 } else { 0 }))
            },
            Instruction::RegShiftRight { x, y } => {
                let src = self.shift_source(x, y);
                Ok(self.with_reg_and_flag(x, src / 2, src % 2))
            },
            Instruction::RegSubLeft { x, y } => {
                let (a, b) = (self.v[x as int], self.v[y as int]);
                Ok(self.with_reg_and_flag(x, ((b - a) % 256) as u8, if b >= a { 1 } else { 0 }))
            },
            Instruction::RegShiftLeft { x, y } => {
                let src = self.shift_source(x, y);
                Ok(self.with_reg_and_flag(x, ((src * 2) % 256) as u8, src / 128))
            },
            Instruction::SkipRegNe { x, y } => Ok(self.skip_if(self.v[x as int] != self.v[y as int])),
            Instruction::SetIndex { nnn } => Ok(MachineView { i: nnn, ..self }),
            Instruction::JumpWithOffset { nnn, x } => {
                let r = if self.config.jump_add_offset { x } else { 0 };
                Ok(MachineView { pc: (nnn + self.v[r as int]) as u16, ..self })
            },
            Instruction::Random { x, nn } => Ok(self.with_reg(x, nn & rnd)),
            Instruction::Draw { x, y, n } => {
                let vx = self.v[x as int] as int % 64;
                let vy = self.v[y as int] as int % 32;
                let rows = visible_rows(vy, n as int);
                if rows > 0 && self.i + rows > 4096 {
                    Err(ExecError::MemoryOutOfBounds { index: self.i })
                } else {
                    let sprite = self.sprite_at_index(rows);
                    Ok(
                        MachineView {
                            display: self.display.with_sprite(sprite, vx, vy),
                            v: self.v.update(
                                15,
                                if self.display.sprite_collides(sprite, vx, vy) {
                                    1u8
                                } else {
                                    0u8
                                },
                            ),
                            ..self
                        },
                    )
                }
            },
            Instruction::SkipIfKeyDown { x } => {
                let k = self.v[x as int];
                if k >= 16 {
                    Err(ExecError::InvalidKey { key: k })
                } else {
                    Ok(self.skip_if(self.keypad.is_down(k as int)))
                }
            },
            Instruction::SkipIfKeyUp { x } => {
                let k = self.v[x as int];
                if k >= 16 {
                    Err(ExecError::InvalidKey { key: k })
                } else {
                    Ok(self.skip_if(self.keypad.is_up(k as int)))
                }
            },
            Instruction::DelayGet { x } => Ok(self.with_reg(x, self.dt)),
            Instruction::GetKey { x } => {
                let held = MachineView { pc: (self.pc - 2) as u16, ..self };
                match self.keypad.awaiting {
                    Some(k) => {
                        if k >= 16 {
                            Err(ExecError::InvalidKey { key: k })
                        } else if self.keypad.is_up(k as int) {
                            Ok(
                                MachineView {
                                    keypad: KeypadView { awaiting: None, ..self.keypad },
                                    ..self.with_reg(x, k)
                                },
                            )
                        } else {
                            Ok(held)
                        }
                    },
                    None => match self.keypad.first_down() {
                        Some(k) => Ok(
                            MachineView {
                                keypad: KeypadView { awaiting: Some(k), ..self.keypad },
                                ..held
                            },
                        ),
                        None => Ok(held),
                    },
                }
            },
            Instruction::DelaySet { x } => Ok(MachineView { dt: self.v[x as int], ..self }),
            Instruction::SoundSet { x } => Ok(MachineView { st: self.v[x as int], ..self }),
            Instruction::AddToIndex { x } => Ok(
                MachineView { i: ((self.i + self.v[x as int]) % 0x10000) as u16, ..self },
            ),
            Instruction::FontCharacter { x } => Ok(
                MachineView { i: (0x50 + 5 * self.v[x as int]) as u16, ..self },
            ),
            Instruction::ConvertToDecimal { x } => {
                let val = self.v[x as int];
                if self.i + 2 >= 4096 {
                    Err(ExecError::MemoryOutOfBounds { index: self.i })
                } else {
                    Ok(
                        MachineView {
                            mem: self.mem.update(self.i as int, val / 100).update(
                                self.i + 1,
                                (val / 10) % 10,
                            ).update(self.i + 2, val % 10),
                            ..self
                        },
                    )
                }
            },
            Instruction::MemoryStore { x } => {
                if self.i + x >= 4096 {
                    Err(ExecError::MemoryOutOfBounds { index: self.i })
                } else {
                    Ok(
                        MachineView {
                            mem: Seq::new(
                                self.mem.len(),
                                |a: int|
                                    if self.i <= a <= self.i + x {
                                        self.v[a - self.i]
                                    } else {
                                        self.mem[a]
                                    },
                            ),
                            i: if self.config.memory_increment_i {
                                (self.i + x + 1) as u16
                            } else {
                                self.i
                            },
                            ..self
                        },
                    )
                }
            },
            Instruction::MemoryLoad { x } => {
                if self.i + x >= 4096 {
                    Err(ExecError::MemoryOutOfBounds { index: self.i })
                } else {
                    Ok(
                        MachineView {
                            v: Seq::new(
                                self.v.len(),
                                |r: int|
                                    if r <= x {
                                        self.mem[self.i + r]
                                    } else {
                                        self.v[r]
                                    },
                            ),
                            i: if self.config.memory_increment_i {
                                (self.i + x + 1) as u16
                            } else {
                                self.i
                            },
                            ..self
                        },
                    )
                }
            },
        }
    }

    /// The big-endian word stored at `addr` and `addr + 1`.
    pub open spec fn word_at(self, addr: int) -> u16 {
        ((self.mem[addr] as u16) << 8u16) | (self.mem[addr + 1] as u16)
    }

    /// What one fetch-decode-execute step does, `rnd` being the random byte
    /// that a random instruction uses.
    #[verifier::opaque]
    pub open spec fn step(self, rnd: u8) -> Result<MachineView, ExecError> {
        if self.pc >= 4095 {
            Err(ExecError::PcOutOfBounds { pc: self.pc })
        } else {
            let word = self.word_at(self.pc as int);
            match decode_word(word) {
                None => Err(ExecError::InvalidOpcode { opcode: word, addr: self.pc }),
                Some(ins) => MachineView { pc: (self.pc + 2) as u16, ..self }.execute(ins, rnd),
            }
        }
    }

    /// What a caller sees of `res`: on success the new machine, on failure
    /// the error and this machine, unchanged.
    pub open spec fn outcome(self, res: Result<MachineView, ExecError>) -> (
        Result<(), ExecError>,
        MachineView,
    ) {
        match res {
            Ok(m) => (Ok(()), m),
            Err(e) => (Err(e), self),
        }
    }

    /// Steps with the random bytes `rnds` in turn, stopping at the first error.
    pub open spec fn run(self, rnds: Seq<u8>) -> (Result<(), ExecError>, MachineView)
        decreases rnds.len(),
    {
        if rnds.len() == 0 {
            (Ok(()), self)
        } else {
            let (r, m) = self.run(rnds.drop_last());
            if r is Err {
                (r, m)
            } else {
                m.outcome(m.step(rnds.last()))
            }
        }
    }

    /// Both timers one tick down, stopping at zero.
    pub open spec fn ticked(self) -> MachineView {
        MachineView {
            dt: if self.dt > 0 { (self.dt - 1) as u8 } else { 0 },
            st: if self.st > 0 { (self.st - 1) as u8 } else { 0 },
            ..self
        }
    }
}

} // verus!
