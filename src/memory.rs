use vstd::prelude::*;

verus! {

/// Why a write into memory was refused.
#[derive(Debug, Clone, Copy, PartialEq, Eq, Structural)]
pub enum MemoryError {
    /// The start address lies outside memory.
    AddressOutOfBounds,
    /// The data does not fit between the start address and the end of memory.
    Overflow,
}

/// The machine's flat, byte-addressed memory.
pub struct Memory {
    pub data: [u8; 4096],
}

impl View for Memory {
    type V = Seq<u8>;

    open spec fn view(&self) -> Seq<u8> {
        self.data@
    }
}

impl Memory {
    /// Memory with every byte zero.
    pub fn new() -> (m: Self)
        ensures
            m@ == Seq::new(4096, |_a: int| 0u8),
    {
        let m = Memory { data: [0u8; 4096] };
        assert(m@ =~= Seq::new(4096, |_a: int| 0u8));
        m
    }

    /// Copies `data` to memory starting at `addr`, and returns how many bytes
    /// lie between `addr` and the end of memory. Nothing is written on failure.
    pub fn write(&mut self, addr: usize, data: &[u8]) -> (r: Result<u16, MemoryError>)
        ensures
            addr >= 4096 ==> r == Err::<u16, MemoryError>(MemoryError::AddressOutOfBounds),
            addr < 4096 && addr + data@.len() > 4096 ==> r == Err::<u16, MemoryError>(
                MemoryError::Overflow,
            ),
            addr < 4096 && addr + data@.len() <= 4096 ==> {
                &&& r == Ok::<u16, MemoryError>((4096 - addr) as u16)
                &&& final(self)@ == old(self)@.take(addr as int) + data@ + old(self)@.skip(
                    addr + data@.len(),
                )
            },
            r is Err ==> final(self)@ == old(self)@,
    {
        if addr >= 4096 {
            return Err(MemoryError::AddressOutOfBounds);
        }
        let available = 4096 - addr;
        if available < data.len() {
            return Err(MemoryError::Overflow);
        }
        let mut k: usize = 0;
        while k < data.len()
            invariant
                addr + data@.len() <= 4096,
                k <= data@.len(),
                self@.len() == 4096,
                forall|j: int| 0 <= j < addr ==> self@[j] == old(self)@[j],
                forall|j: int| 0 <= j < k ==> self@[addr + j] == data@[j],
                forall|j: int| addr + k <= j < 4096 ==> self@[j] == old(self)@[j],
            decreases data@.len() - k,
        {
            self.data[addr + k] = data[k];
            k = k + 1;
        }
        assert(self@ =~= old(self)@.take(addr as int) + data@ + old(self)@.skip(
            addr + data@.len(),
        ));
        Ok(available as u16)
    }
}

} // verus!
