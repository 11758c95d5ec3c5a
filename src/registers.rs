use vstd::prelude::*;

verus! {

/// The name of a general-purpose register, V0 to VF.
pub struct Register(pub u8);

/// Sixteen 8-bit general-purpose registers, V0 to VF.
pub struct Registers(pub [u8; 16]);

impl Registers {
    /// All registers zero.
    pub fn new() -> (r: Self)
        ensures
            r.0@ == Seq::new(16, |_i: int| 0u8),
    {
        let r = Registers([0u8; 16]);
        assert(r.0@ =~= Seq::new(16, |_i: int| 0u8));
        r
    }

    /// The value of `register`.
    pub fn get(&self, register: Register) -> (r: u8)
        requires
            register.0 < 16,
        ensures
            r == self.0@[register.0 as int],
    {
        self.0[register.0 as usize]
    }

    /// Stores `value` in `register`.
    pub fn set(&mut self, register: Register, value: u8)
        requires
            register.0 < 16,
        ensures
            final(self).0@ == old(self).0@.update(register.0 as int, value),
    {
        self.0[register.0 as usize] = value;
    }
}

} // verus!
