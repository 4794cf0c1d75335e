//! Fixed-size byte buffers with bounds-checked access.

use vstd::prelude::*;

verus! {

/// A plain byte buffer whose length is fixed at construction.
pub struct Ram {
    pub size: usize,
    pub data: Vec<u8>,
}

impl Ram {
    /// The buffer always holds exactly `size` bytes.
    pub open spec fn wf(&self) -> bool {
        self.data@.len() == self.size
    }

    /// A buffer of `size` zero bytes.
    pub fn new(size: usize) -> (r: Ram)
        ensures
            r.wf(),
            r.size == size,
            r.data@ == Seq::new(size as nat, |i: int| 0u8),
    {
        let mut data: Vec<u8> = Vec::new();
        let mut i: usize = 0;
        while i < size
            invariant
                i <= size,
                data@ == Seq::new(i as nat, |j: int| 0u8),
            decreases size - i,
        {
            data.push(0);
            i = i + 1;
            proof {
                assert(data@ =~= Seq::new(i as nat, |j: int| 0u8));
            }
        }
        Ram { size, data }
    }

    /// The byte stored at `addr`.
    pub fn read(&self, addr: u16) -> (r: u8)
        requires
            self.wf(),
            addr < self.size,
        ensures
            r == self.data@[addr as int],
    {
        self.data[addr as usize]
    }

    /// Stores `data` at `addr`; no other byte changes.
    pub fn write(&mut self, addr: u16, data: u8)
        requires
            old(self).wf(),
            addr < old(self).size,
        ensures
            final(self).wf(),
            final(self).size == old(self).size,
            final(self).data@ == old(self).data@.update(addr as int, data),
    {
        self.data.set(addr as usize, data);
    }
}

} // verus!
