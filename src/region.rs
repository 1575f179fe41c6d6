use vstd::prelude::*;

verus! {

/// A block of memory: bytes laid out from a base address on.
pub struct Region {
    pub base: usize,
    pub bytes: Vec<u8>,
}

impl Region {
    /// The block fits in the address space.
    pub open spec fn wf(&self) -> bool {
        self.base + self.bytes@.len() <= usize::MAX
    }

    /// The `len` bytes at address `addr` lie inside the block.
    pub open spec fn spec_contains(&self, addr: int, len: int) -> bool {
        self.base <= addr && 0 <= len && addr + len <= self.base + self.bytes@.len()
    }

    /// The `len` bytes found at address `addr`.
    pub open spec fn spec_read(&self, addr: int, len: int) -> Seq<u8> {
        self.bytes@.subrange(addr - self.base, addr - self.base + len)
    }

    /// A block holding `bytes` from address `base` on, if it fits in the
    /// address space.
    pub fn new(base: usize, bytes: Vec<u8>) -> (r: Option<Region>)
        ensures
            r is Some <==> base + bytes@.len() <= usize::MAX,
            r matches Some(g) ==> g.base == base && g.bytes@ == bytes@,
    {
        if bytes.len() <= usize::MAX - base {
            Some(Region { base, bytes })
        } else {
            None
        }
    }

    /// The address of the byte at `index`.
    pub fn addr_of(&self, index: usize) -> (r: usize)
        requires
            self.wf(),
            index <= self.bytes@.len(),
        ensures
            r == self.base + index,
    {
        self.base + index
    }

    /// Whether the `len` bytes at address `addr` lie inside the block.
    pub fn contains(&self, addr: usize, len: usize) -> (r: bool)
        requires
            self.wf(),
        ensures
            r == self.spec_contains(addr as int, len as int),
    {
        self.base <= addr && addr - self.base <= self.bytes.len() && len <= self.bytes.len() - (addr
            - self.base)
    }

    /// The `len` bytes at address `addr`.
    pub fn read(&self, addr: usize, len: usize) -> (r: &[u8])
        requires
            self.wf(),
            self.spec_contains(addr as int, len as int),
        ensures
            r@ == self.spec_read(addr as int, len as int),
    {
        let start: usize = addr - self.base;
        vstd::slice::slice_subrange(self.bytes.as_slice(), start, start + len)
    }

    /// The `len` bytes at address `addr`, to be changed in place; the rest
    /// of the block stays as it is.
    pub fn read_mut(&mut self, addr: usize, len: usize) -> (r: &mut [u8])
        requires
            old(self).wf(),
            old(self).spec_contains(addr as int, len as int),
        ensures
            r@ == old(self).spec_read(addr as int, len as int),
            final(self).base == old(self).base,
            final(self).bytes@ == old(self).bytes@.subrange(0, addr - old(self).base) + final(r)@
                + old(self).bytes@.subrange(addr - old(self).base + len, old(self).bytes@.len() as int),
    {
        let start: usize = addr - self.base;
        let whole = self.bytes.as_mut_slice();
        let (_, rest) = whole.split_at_mut(start);
        let (mid, _) = rest.split_at_mut(len);
        mid
    }

    /// A byte-for-byte copy of the block, placed at `new_base`.
    pub fn relocate(&self, new_base: usize) -> (r: Region)
        requires
            new_base + self.bytes@.len() <= usize::MAX,
        ensures
            r.wf(),
            r.base == new_base,
            r.bytes@ == self.bytes@,
    {
        Region { base: new_base, bytes: self.bytes.clone() }
    }
}

} // verus!
