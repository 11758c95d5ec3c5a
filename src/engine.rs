use rand::Rng;
use vstd::prelude::*;

use crate::config::{default_config, Chip8Config};
use crate::display::{dark_pixels, Display, DisplayView, FrameBuffer};
use crate::instruction::{decode, Instruction};
use crate::keypad::{keys_up, Key, KeyError, Keypad, KeypadView};
use crate::machine::{ExecError, MachineView};
use crate::memory::{Memory, MemoryError};
use crate::FONT_DATA;

verus! {

/// The memory of a freshly built machine: zero, but for the font at its
/// fixed address.
pub open spec fn initial_memory() -> Seq<u8> {
    Seq::new(4096, |a: int| if 0x50 <= a < 0xA0 { FONT_DATA@[a - 0x50] } else { 0u8 })
}

/// Relies on `rand::rng` and `Rng::random::<u8>`: one byte drawn from the
/// thread-local generator. Any byte may come back.
#[verifier::external_body]
fn random_byte() -> (r: u8) {
    rand::rng().random::<u8>()
}

/// Once a run has failed, further random bytes change nothing.
pub proof fn lemma_run_stops(m: MachineView, s: Seq<u8>, t: Seq<u8>)
    requires
        m.run(s).0 is Err,
    ensures
        m.run(s + t) == m.run(s),
    decreases t.len(),
{
    if t.len() == 0 {
        assert(s + t =~= s);
    } else {
        lemma_run_stops(m, s, t.drop_last());
        assert((s + t).drop_last() =~= s + t.drop_last());
    }
}

/// A CHIP-8 machine: memory, display, keypad, registers, stack and timers.
pub struct Chip8 {
    pub config: Chip8Config,
    pub memory: Memory,
    pub display: Display,
    pub keypad: Keypad,
    /// Return addresses; the first `sp` slots are in use.
    pub stack: [u16; 16],
    pub sp: u8,
    /// Registers V0 to VF; VF doubles as the flag register.
    pub v: [u8; 16],
    pub pc: u16,
    /// The index register I.
    pub i: u16,
    /// The delay timer.
    pub dt: u8,
    /// The sound timer.
    pub st: u8,
}

impl View for Chip8 {
    type V = MachineView;

    open spec fn view(&self) -> MachineView {
        MachineView {
            config: self.config,
            mem: self.memory@,
            display: self.display@,
            keypad: self.keypad@,
            stack: self.stack@,
            sp: self.sp,
            v: self.v@,
            pc: self.pc,
            i: self.i,
            dt: self.dt,
            st: self.st,
        }
    }
}

impl Chip8 {
    /// A machine with the font in memory, the program counter at 0x200,
    /// everything else zero, a dark display and no key down.
    pub fn new() -> (r: Result<Self, MemoryError>)
        ensures
            r matches Ok(c) && {
                &&& c.config == default_config()
                &&& c@.mem == initial_memory()
                &&& c@.display == (DisplayView { pixels: dark_pixels(), dirty: false })
                &&& c@.keypad == (KeypadView { keys: keys_up(), awaiting: None })
                &&& c@.stack == Seq::new(16, |_i: int| 0u16)
                &&& c.sp == 0
                &&& c@.v == Seq::new(16, |_i: int| 0u8)
                &&& c.pc == 0x200
                &&& c.i == 0
                &&& c.dt == 0
                &&& c.st == 0
            },
    {
        let mut memory = Memory::new();
        let w = memory.write(0x50, FONT_DATA.as_slice());
        assert(w is Ok);
        assert(memory@ =~= initial_memory());
        let c = Chip8 {
            config: Chip8Config::new(),
            memory,
            display: Display::new(),
            keypad: Keypad::new(),
            stack: [0u16; 16],
            sp: 0,
            v: [0u8; 16],
            pc: 0x200,
            i: 0,
            dt: 0,
            st: 0,
        };
        assert(c@.stack =~= Seq::new(16, |_i: int| 0u16));
        assert(c@.v =~= Seq::new(16, |_i: int| 0u8));
        Ok(c)
    }

    /// Sets the legacy-shift quirk.
    pub fn legacy_shift(self, value: bool) -> (r: Self)
        ensures
            r@ == (MachineView { config: Chip8Config { legacy_shift: value, ..self.config }, ..self@ }),
    {
        let mut c = self;
        c.config.legacy_shift = value;
        c
    }

    /// Sets the jump-add-offset quirk.
    pub fn jump_add_offset(self, value: bool) -> (r: Self)
        ensures
            r@ == (MachineView { config: Chip8Config { jump_add_offset: value, ..self.config }, ..self@ }),
    {
        let mut c = self;
        c.config.jump_add_offset = value;
        c
    }

    /// Sets the memory-increment-index quirk.
    pub fn memory_increment_i(self, value: bool) -> (r: Self)
        ensures
            r@ == (MachineView { config: Chip8Config { memory_increment_i: value, ..self.config }, ..self@ }),
    {
        let mut c = self;
        c.config.memory_increment_i = value;
        c
    }

    /// Records whether the host wants executed instructions traced.
    pub fn print_operations(self, value: bool) -> (r: Self)
        ensures
            r@ == (MachineView { config: Chip8Config { print_operations: value, ..self.config }, ..self@ }),
    {
        let mut c = self;
        c.config.print_operations = value;
        c
    }

    /// Sets how many instructions a frame executes.
    pub fn ops_per_cycle(self, value: usize) -> (r: Self)
        ensures
            r@ == (MachineView { config: Chip8Config { ops_per_cycle: value, ..self.config }, ..self@ }),
    {
        let mut c = self;
        c.config.ops_per_cycle = value;
        c
    }

    /// Copies `rom` into memory at 0x200 and points the program counter
    /// there. A program that does not fit is refused and changes nothing.
    pub fn load_rom(&mut self, rom: &[u8]) -> (r: Result<(), MemoryError>)
        ensures
            rom@.len() <= 4096 - 0x200 ==> {
                &&& r is Ok
                &&& final(self)@ == (MachineView {
                    mem: old(self)@.mem.take(0x200) + rom@ + old(self)@.mem.skip(0x200 + rom@.len() as int),
                    pc: 0x200,
                    ..old(self)@
                })
            },
            rom@.len() > 4096 - 0x200 ==> {
                &&& r == Err::<(), MemoryError>(MemoryError::Overflow)
                &&& final(self)@ == old(self)@
            },
    {
        match self.memory.write(0x200, rom) {
            Ok(_) => {
                self.pc = 0x200;
                Ok(())
            },
            Err(e) => Err(e),
        }
    }

    /// Whether the display changed since the frame buffer was last read.
    pub fn is_fb_dirty(&self) -> (r: bool)
        ensures
            r == self@.display.dirty,
    {
        self.display.dirty
    }

    /// Whether the sound timer is running.
    pub fn is_sound_playing(&self) -> (r: bool)
        ensures
            r == (self.st > 0),
    {
        self.st > 0
    }

    /// Returns a copy of the frame buffer and clears the dirty flag.
    pub fn fb(&mut self) -> (r: FrameBuffer)
        ensures
            r == old(self).display.fb,
            final(self)@ == (MachineView {
                display: DisplayView { dirty: false, ..old(self)@.display },
                ..old(self)@
            }),
    {
        self.display.fb()
    }

    /// Marks `key` down; see [`Keypad::keydown`].
    pub fn keydown(&mut self, key: Key) -> (r: Result<(), KeyError>)
        ensures
            match key.0 {
                None => r is Ok && final(self)@ == old(self)@,
                Some(k) => if k < 16 {
                    r is Ok && final(self)@ == (MachineView {
                        keypad: old(self)@.keypad.pressed(k as int),
                        ..old(self)@
                    })
                } else {
                    r == Err::<(), KeyError>(KeyError::InvalidKey) && final(self)@ == old(self)@
                },
            },
    {
        self.keypad.keydown(key)
    }

    /// Marks `key` up; see [`Keypad::keyup`].
    pub fn keyup(&mut self, key: Key) -> (r: Result<(), KeyError>)
        ensures
            match key.0 {
                None => r is Ok && final(self)@ == old(self)@,
                Some(k) => if k < 16 {
                    r is Ok && final(self)@ == (MachineView {
                        keypad: old(self)@.keypad.released(k as int),
                        ..old(self)@
                    })
                } else {
                    r == Err::<(), KeyError>(KeyError::InvalidKey) && final(self)@ == old(self)@
                },
            },
    {
        self.keypad.keyup(key)
    }
    /// Runs one frame: both timers tick down once, stopping at zero, then
    /// the configured number of instructions run. Stops at the first fatal
    /// error and returns it, the machine left as that instruction found it.
    pub fn cycle(&mut self) -> (r: Result<(), ExecError>)
        ensures
            exists|rnds: Seq<u8>|
                rnds.len() == old(self).config.ops_per_cycle && (r, final(self)@) == old(
                    self,
                )@.ticked().run(rnds),
    {
        self.dt = self.dt.saturating_sub(1);
        self.st = self.st.saturating_sub(1);
        let ghost start = self@;
        assert(start == old(self)@.ticked());
        let ghost mut rnds: Seq<u8> = Seq::empty();
        let ops = self.config.ops_per_cycle;
        let mut k: usize = 0;
        while k < ops
            invariant
                k <= ops,
                ops == start.config.ops_per_cycle,
                start == old(self)@.ticked(),
                ops == old(self).config.ops_per_cycle,
                rnds.len() == k,
                start.run(rnds) == (Ok::<(), ExecError>(()), self@),
            decreases ops - k,
        {
            let ghost before = self@;
            let r = self.step();
            let ghost b = choose|b: u8| (r, self@) == before.outcome(before.step(b));
            proof {
                let prev = rnds;
                rnds = rnds.push(b);
                assert(rnds.drop_last() =~= prev);
                assert(start.run(rnds) == (r, self@));
            }
            if r.is_err() {
                proof {
                    let pad = Seq::new((ops - k - 1) as nat, |_j: int| 0u8);
                    lemma_run_stops(start, rnds, pad);
                    assert((rnds + pad).len() == ops);
                    assert(start.run(rnds + pad) == (r, self@));
                    assert(old(self)@.ticked().run(rnds + pad) == (r, self@));
                    assert((rnds + pad).len() == old(self).config.ops_per_cycle);
                }
                return r;
            }
            k = k + 1;
        }
        Ok(())
    }

    /// Executes one instruction with a freshly drawn random byte, which only
    /// a random instruction uses. On a fatal error nothing changes.
    pub fn step(&mut self) -> (r: Result<(), ExecError>)
        ensures
            exists|rnd: u8| (r, final(self)@) == old(self)@.outcome(old(self)@.step(rnd)),
    {
        let rnd = random_byte();
        self.step_with(rnd)
    }

    /// Executes one instruction, with `rnd` as the random byte for a random
    /// instruction. On a fatal error nothing changes.
    pub fn step_with(&mut self, rnd: u8) -> (r: Result<(), ExecError>)
        ensures
            (r, final(self)@) == old(self)@.outcome(old(self)@.step(rnd)),
    {
        proof {
            reveal(MachineView::step);
        }
        let word = match self.fetch() {
            Ok(w) => w,
            Err(e) => return Err(e),
        };
        let ins = match decode(word) {
            Some(ins) => ins,
            None => return Err(self.invalid_op(word)),
        };
        let pc = self.pc;
        self.pc = pc + 2;
        let r = self.execute(ins, rnd);
        if r.is_err() {
            self.pc = pc;
        }
        r
    }

    /// The word at the program counter.
    fn fetch(&self) -> (r: Result<u16, ExecError>)
        ensures
            self.pc >= 4095 ==> r == Err::<u16, ExecError>(ExecError::PcOutOfBounds { pc: self.pc }),
            self.pc < 4095 ==> r == Ok::<u16, ExecError>(self@.word_at(self.pc as int)),
    {
        if self.pc >= 4095 {
            return Err(ExecError::PcOutOfBounds { pc: self.pc });
        }
        let pc = self.pc as usize;
        let b1 = self.memory.data[pc] as u16;
        let b2 = self.memory.data[pc + 1] as u16;
        Ok((b1 << 8) | b2)
    }

    /// The error for `word`, fetched at the program counter, that encodes
    /// no instruction.
    fn invalid_op(&self, word: u16) -> (e: ExecError)
        ensures
            e == (ExecError::InvalidOpcode { opcode: word, addr: self.pc }),
    {
        ExecError::InvalidOpcode { opcode: word, addr: self.pc }
    }

    /// Executes `ins`, the program counter having been moved past it.
    fn execute(&mut self, ins: Instruction, rnd: u8) -> (r: Result<(), ExecError>)
        requires
            ins.operands_in_range(),
            2 <= old(self).pc <= 4096,
        ensures
            (r, final(self)@) == old(self)@.outcome(old(self)@.execute(ins, rnd)),
    {
        match ins {
            Instruction::ClearScreen => {
                self.op_cls();
                Ok(())
            },
            Instruction::Return => self.op_sub_return(),
            Instruction::Jump { nnn } => {
                self.op_jump(nnn);
                Ok(())
            },
            Instruction::Call { nnn } => self.op_sub_call(nnn),
            Instruction::SkipEq { x, nn } => {
                self.op_skip_eq(x, nn);
                Ok(())
            },
            Instruction::SkipNe { x, nn } => {
                self.op_skip_ne(x, nn);
                Ok(())
            },
            Instruction::SkipRegEq { x, y } => {
                self.op_skip_reg_eq(x, y);
                Ok(())
            },
            Instruction::SetImmediate { x, nn } => {
                self.op_set(x, nn);
                Ok(())
            },
            Instruction::AddImmediate { x, nn } => {
                self.op_add(x, nn);
                Ok(())
            },
            Instruction::RegSet { x, y } => {
                self.op_reg_set(x, y);
                Ok(())
            },
            Instruction::RegOr { x, y } => {
                self.op_reg_or(x, y);
                Ok(())
            },
            Instruction::RegAnd { x, y } => {
                self.op_reg_and(x, y);
                Ok(())
            },
            Instruction::RegXor { x, y } => {
                self.op_reg_xor(x, y);
                Ok(())
            },
            Instruction::RegAdd { x, y } => {
                self.op_reg_add(x, y);
                Ok(())
            },
            Instruction::RegSubRight { x, y } => {
                self.op_reg_sub_right(x, y);
                Ok(())
            },
            Instruction::RegShiftRight { x, y } => {
                self.op_reg_shift_right(x, y);
                Ok(())
            },
            Instruction::RegSubLeft { x, y } => {
                self.op_reg_sub_left(x, y);
                Ok(())
            },
            Instruction::RegShiftLeft { x, y } => {
                self.op_reg_shift_left(x, y);
                Ok(())
            },
            Instruction::SkipRegNe { x, y } => {
                self.op_skip_reg_ne(x, y);
                Ok(())
            },
            Instruction::SetIndex { nnn } => {
                self.op_set_index(nnn);
                Ok(())
            },
            Instruction::JumpWithOffset { nnn, x } => {
                self.op_jump_with_offset(nnn, x);
                Ok(())
            },
            Instruction::Random { x, nn } => {
                self.op_random(x, nn, rnd);
                Ok(())
            },
            Instruction::Draw { x, y, n } => self.op_display(x, y, n),
            Instruction::SkipIfKeyDown { x } => self.op_skip_if_key_down(x),
            Instruction::SkipIfKeyUp { x } => self.op_skip_if_key_up(x),
            Instruction::DelayGet { x } => {
                self.op_dt_get(x);
                Ok(())
            },
            Instruction::GetKey { x } => self.op_get_key(x),
            Instruction::DelaySet { x } => {
                self.op_dt_set(x);
                Ok(())
            },
            Instruction::SoundSet { x } => {
                self.op_st_set(x);
                Ok(())
            },
            Instruction::AddToIndex { x } => {
                self.op_add_to_index(x);
                Ok(())
            },
            Instruction::FontCharacter { x } => {
                self.op_font_character(x);
                Ok(())
            },
            Instruction::ConvertToDecimal { x } => self.op_convert_to_decimal(x),
            Instruction::MemoryStore { x } => self.op_memory_store(x),
            Instruction::MemoryLoad { x } => self.op_memory_load(x),
        }
    }
}

} // verus!
