use vstd::prelude::*;

verus! {

/// The interpreter variants ("quirks") that an engine follows, and how many
/// instructions it runs per frame.
#[derive(Debug, Clone, Copy, PartialEq, Eq, Structural)]
pub struct Chip8Config {
    /// Shifts read the second register operand instead of the target.
    pub legacy_shift: bool,
    /// Jump-with-offset adds the register named in the instruction, not V0.
    pub jump_add_offset: bool,
    /// Block store and load advance the index register.
    pub memory_increment_i: bool,
    /// The host asked for each executed instruction to be traced.
    pub print_operations: bool,
    /// Instructions executed per frame.
    pub ops_per_cycle: usize,
}

/// No quirks, no tracing, eleven instructions per frame.
pub open spec fn default_config() -> Chip8Config {
    Chip8Config {
        legacy_shift: false,
        jump_add_offset: false,
        memory_increment_i: false,
        print_operations: false,
        ops_per_cycle: 11,
    }
}

impl Chip8Config {
    /// The default configuration: no quirks, no tracing, eleven
    /// instructions per frame.
    pub fn new() -> (c: Self)
        ensures
            c == default_config(),
    {
        Chip8Config {
            legacy_shift: false,
            jump_add_offset: false,
            memory_increment_i: false,
            print_operations: false,
            ops_per_cycle: 11,
        }
    }
}

} // verus!
