//! Relative pointers: references stored as the signed distance from their
//! own storage to their target, so that a pointer and its target can be moved
//! together without any fix-up.
//!
//! The offset type is chosen by the caller (`Delta`, with `Nullable` for
//! types that reserve zero for "not set" and `NonZero` for types that exclude
//! it), and the pointee's shape (`MetaData`) says what besides an address is
//! needed to use a pointer: nothing for sized values, a length for sequences
//! and text. Memory is modelled by `Region`, a block of bytes at a base
//! address.

use vstd::prelude::*;

mod error;
mod maybe_uninit;
mod region;
mod shape;
mod traits;

pub use error::{IntegerDeltaError, IntegerDeltaErrorImpl};
pub use maybe_uninit::MaybeUninit;
pub use region::Region;
pub use shape::{FatPtr, MetaData, Thin};
pub use traits::{
    delta_result, fits_isize, lemma_non_zero_rejects_self, lemma_null_identity, lemma_round_trip,
    Delta, NonZero, Nullable,
};

verus! {

/// A pointer stored as the signed distance in bytes from its own storage to
/// its target, together with the target's shape metadata.
///
/// Addresses are plain `usize` values: the operations that depend on where
/// the pointer is stored take that address as `self_addr`. As long as the
/// pointer and its target move together, keeping their distance, the
/// pointer stays valid without any fix-up.
pub struct RelPtr<T: ?Sized + MetaData, I: Delta = isize> {
    offset: I,
    meta: MaybeUninit<T::Data>,
}

impl<T: ?Sized + MetaData, I: Delta> Copy for RelPtr<T, I> {

}

impl<T: ?Sized + MetaData, I: Delta> Clone for RelPtr<T, I> {
    fn clone(&self) -> (r: Self)
        ensures
            r == *self,
    {
        *self
    }
}

/// The model of `NonNull::new`: no address for zero.
fn non_null(addr: usize) -> (r: Option<usize>)
    ensures
        r == (if addr == 0 { None } else { Some(addr) }),
{
    if addr == 0 {
        None
    } else {
        Some(addr)
    }
}

impl<T: ?Sized + MetaData, I: Delta> RelPtr<T, I> {
    /// The stored offset.
    pub closed spec fn spec_offset(&self) -> I {
        self.offset
    }

    /// The metadata stored by the last successful `set`; `None` before any.
    pub closed spec fn metadata(&self) -> Option<T::Data> {
        self.meta@
    }

    /// The displacement in bytes from the pointer's storage to its target.
    pub open spec fn offset_int(&self) -> int {
        self.spec_offset().spec_int()
    }

    /// Whether the offset is zero, the value that means "not set".
    pub open spec fn spec_is_null(&self) -> bool {
        self.offset_int() == 0
    }

    /// The thin address of the target, for a pointer stored at `self_addr`.
    pub open spec fn target(&self, self_addr: int) -> int {
        self_addr + self.offset_int()
    }

    /// Whether the pointer, stored at `self_addr`, has been set and its
    /// target address lies in the address space.
    pub open spec fn reachable(&self, self_addr: int) -> bool {
        &&& self.metadata() is Some
        &&& 0 <= self.target(self_addr) <= usize::MAX
    }

    /// A pointer holding the offset `i` and no metadata; it must be `set`
    /// before it is followed.
    pub fn from_offset(i: I) -> (r: Self)
        ensures
            r.spec_offset() == i,
            r.metadata() is None,
    {
        RelPtr { offset: i, meta: MaybeUninit::null() }
    }

    /// The stored offset.
    pub fn offset(&self) -> (r: I)
        ensures
            r == self.spec_offset(),
    {
        self.offset
    }

    /// Point, from storage at `self_addr`, to `value`, which lies at
    /// `value_addr`. When the offset cannot be stored the error is returned
    /// and the pointer is left exactly as it was.
    pub fn set(&mut self, self_addr: usize, value: &mut T, value_addr: usize) -> (r: Result<
        (),
        IntegerDeltaError,
    >)
        ensures
            r is Ok <==> delta_result(
                value_addr,
                self_addr,
                I::min_int(),
                I::max_int(),
                I::forbids_zero(),
            ) is Ok,
            r matches Err(e) ==> delta_result(
                value_addr,
                self_addr,
                I::min_int(),
                I::max_int(),
                I::forbids_zero(),
            ) == Err::<int, IntegerDeltaError>(e) && *final(self) == *old(self),
            r is Ok ==> final(self).offset_int() == value_addr - self_addr && final(self).metadata()
                == Some(T::spec_data(&*old(value))),
            T::spec_data(&*final(value)) == T::spec_data(&*old(value)),
    {
        let offset = I::sub(value_addr, self_addr)?;
        self.offset = offset;
        self.meta.set(T::data(value));
        Ok(())
    }

    /// Point, from storage at `self_addr`, to the value that `value`
    /// designates. The caller knows that the offset can be stored and that
    /// the address is not zero.
    pub fn set_unchecked(&mut self, self_addr: usize, value: FatPtr<T>)
        requires
            value.addr != 0,
            delta_result(value.addr, self_addr, I::min_int(), I::max_int(), I::forbids_zero()) is Ok,
        ensures
            final(self).offset_int() == value.addr - self_addr,
            final(self).metadata() == Some(value.meta),
    {
        self.offset = I::sub_unchecked(value.addr, self_addr);
        self.meta.set(value.meta);
    }

    /// The pointer to the target, for a pointer stored at `self_addr`: the
    /// stored offset added to that address, with the stored metadata. The
    /// pointer must have been set, and its target must not have moved apart
    /// from it since.
    pub fn as_raw_unchecked(&self, self_addr: usize) -> (r: FatPtr<T>)
        requires
            self.reachable(self_addr as int),
        ensures
            r.addr == self.target(self_addr as int),
            self.metadata() == Some(r.meta),
    {
        let addr: usize = self.offset.add(self_addr);
        T::compose(Some(addr), self.meta.get()).unwrap()
    }

    /// As `as_raw_unchecked`, for a target whose address is known not to
    /// be zero.
    pub fn as_non_null_unchecked(&self, self_addr: usize) -> (r: FatPtr<T>)
        requires
            self.reachable(self_addr as int),
            self.target(self_addr as int) != 0,
        ensures
            r.addr == self.target(self_addr as int),
            self.metadata() == Some(r.meta),
    {
        let addr: usize = self.offset.add(self_addr);
        T::compose(non_null(addr), self.meta.get()).unwrap()
    }
}

impl<T: ?Sized + MetaData, I: Nullable> RelPtr<T, I> {
    /// A pointer that is not set: its offset is zero.
    pub fn null() -> (r: Self)
        ensures
            r.spec_is_null(),
            r.metadata() is None,
    {
        RelPtr { offset: I::null(), meta: MaybeUninit::null() }
    }

    /// Whether the pointer is not set.
    pub fn is_null(&self) -> (r: bool)
        ensures
            r == self.spec_is_null(),
    {
        self.offset.is_null_value()
    }

    /// The pointer to the target, or `None` when the pointer is not set or
    /// the target address is zero. A set pointer must still be valid from
    /// `self_addr`.
    pub fn as_non_null(&self, self_addr: usize) -> (r: Option<FatPtr<T>>)
        requires
            !self.spec_is_null() ==> self.reachable(self_addr as int),
        ensures
            r is None <==> self.spec_is_null() || self.target(self_addr as int) == 0,
            r matches Some(p) ==> p.addr == self.target(self_addr as int) && self.metadata()
                == Some(p.meta),
    {
        if self.is_null() {
            None
        } else {
            let addr: usize = self.offset.add(self_addr);
            T::compose(non_null(addr), self.meta.get())
        }
    }

    /// The pointer to the target, where `None` stands for the null pointer
    /// returned when the pointer is not set.
    pub fn as_raw(&self, self_addr: usize) -> (r: Option<FatPtr<T>>)
        requires
            !self.spec_is_null() ==> self.reachable(self_addr as int),
        ensures
            r is None <==> self.spec_is_null() || self.target(self_addr as int) == 0,
            r matches Some(p) ==> p.addr == self.target(self_addr as int) && self.metadata()
                == Some(p.meta),
    {
        self.as_non_null(self_addr)
    }
}

/// Following a pointer to a byte sequence inside a block of memory.
impl<I: Delta> RelPtr<[u8], I> {
    /// The bytes of the target, read from `region`, for a pointer stored at
    /// `self_addr`. The pointer must have been set, and its target must lie
    /// in the block.
    pub fn as_ref_unchecked<'a>(&self, self_addr: usize, region: &'a Region) -> (r: &'a [u8])
        requires
            region.wf(),
            self.reachable(self_addr as int),
            region.spec_contains(self.target(self_addr as int), self.metadata()->0 as int),
        ensures
            r@ == region.spec_read(self.target(self_addr as int), self.metadata()->0 as int),
    {
        let p = self.as_raw_unchecked(self_addr);
        region.read(p.addr, p.meta)
    }

    /// The bytes of the target inside `region`, to be changed in place, for
    /// a pointer stored at `self_addr`; the rest of the block stays as it
    /// is. The pointer must have been set, and its target must lie in the
    /// block.
    pub fn as_mut_unchecked<'a>(&self, self_addr: usize, region: &'a mut Region) -> (r: &'a mut [u8])
        requires
            old(region).wf(),
            self.reachable(self_addr as int),
            old(region).spec_contains(self.target(self_addr as int), self.metadata()->0 as int),
        ensures
            r@ == old(region).spec_read(self.target(self_addr as int), self.metadata()->0 as int),
            final(region).base == old(region).base,
            final(region).bytes@ == old(region).bytes@.subrange(
                0,
                self.target(self_addr as int) - old(region).base,
            ) + final(r)@ + old(region).bytes@.subrange(
                self.target(self_addr as int) - old(region).base + self.metadata()->0,
                old(region).bytes@.len() as int,
            ),
    {
        let p = self.as_raw_unchecked(self_addr);
        region.read_mut(p.addr, p.meta)
    }
}

impl<I: Nullable> RelPtr<[u8], I> {
    /// As `as_ref_unchecked`, or `None` when the pointer is not set.
    pub fn as_ref<'a>(&self, self_addr: usize, region: &'a Region) -> (r: Option<&'a [u8]>)
        requires
            region.wf(),
            !self.spec_is_null() ==> self.reachable(self_addr as int) && region.spec_contains(
                self.target(self_addr as int),
                self.metadata()->0 as int,
            ),
        ensures
            r is None <==> self.spec_is_null(),
            r matches Some(b) ==> b@ == region.spec_read(
                self.target(self_addr as int),
                self.metadata()->0 as int,
            ),
    {
        if self.is_null() {
            None
        } else {
            Some(self.as_ref_unchecked(self_addr, region))
        }
    }

    /// As `as_mut_unchecked`, or `None` when the pointer is not set, in
    /// which case the block is left alone.
    pub fn as_mut<'a>(&self, self_addr: usize, region: &'a mut Region) -> (r: Option<&'a mut [u8]>)
        requires
            old(region).wf(),
            !self.spec_is_null() ==> self.reachable(self_addr as int) && old(region).spec_contains(
                self.target(self_addr as int),
                self.metadata()->0 as int,
            ),
        ensures
            r is None <==> self.spec_is_null(),
            r is None ==> *final(region) == *old(region),
            r matches Some(b) ==> {
                &&& b@ == old(region).spec_read(
                    self.target(self_addr as int),
                    self.metadata()->0 as int,
                )
                &&& final(region).base == old(region).base
                &&& final(region).bytes@ == old(region).bytes@.subrange(
                    0,
                    self.target(self_addr as int) - old(region).base,
                ) + final(b)@ + old(region).bytes@.subrange(
                    self.target(self_addr as int) - old(region).base + self.metadata()->0,
                    old(region).bytes@.len() as int,
                )
            },
    {
        if self.is_null() {
            None
        } else {
            Some(self.as_mut_unchecked(self_addr, region))
        }
    }
}

/// Following a pointer to text inside a block of memory.
impl<I: Delta> RelPtr<str, I> {
    /// The encoded bytes of the target text, read from `region`, for a pointer stored at
    /// `self_addr`. The pointer must have been set, and its target must lie
    /// in the block.
    pub fn as_ref_unchecked<'a>(&self, self_addr: usize, region: &'a Region) -> (r: &'a [u8])
        requires
            region.wf(),
            self.reachable(self_addr as int),
            region.spec_contains(self.target(self_addr as int), self.metadata()->0 as int),
        ensures
            r@ == region.spec_read(self.target(self_addr as int), self.metadata()->0 as int),
    {
        let p = self.as_raw_unchecked(self_addr);
        region.read(p.addr, p.meta)
    }
}

impl<I: Nullable> RelPtr<str, I> {
    /// As `as_ref_unchecked`, or `None` when the pointer is not set.
    pub fn as_ref<'a>(&self, self_addr: usize, region: &'a Region) -> (r: Option<&'a [u8]>)
        requires
            region.wf(),
            !self.spec_is_null() ==> self.reachable(self_addr as int) && region.spec_contains(
                self.target(self_addr as int),
                self.metadata()->0 as int,
            ),
        ensures
            r is None <==> self.spec_is_null(),
            r matches Some(b) ==> b@ == region.spec_read(
                self.target(self_addr as int),
                self.metadata()->0 as int,
            ),
    {
        if self.is_null() {
            None
        } else {
            Some(self.as_ref_unchecked(self_addr, region))
        }
    }
}

/// Copying a block of memory byte for byte to another base address, together
/// with a pointer into it, keeps what the pointer reads: from its new
/// storage address, at the same distance from the block as before, the
/// pointer still reaches its target, now inside the copy, and reads the same
/// bytes. This holds of every shape whose metadata is a length in bytes:
/// byte sequences and text.
pub proof fn lemma_relocation<T: ?Sized + MetaData<Data = usize>, I: Delta>(
    p: RelPtr<T, I>,
    self_addr: usize,
    region: Region,
    moved: Region,
    moved_addr: usize,
)
    requires
        region.wf(),
        moved.wf(),
        moved.bytes@ == region.bytes@,
        moved_addr - moved.base == self_addr - region.base,
        p.reachable(self_addr as int),
        region.spec_contains(p.target(self_addr as int), p.metadata()->0 as int),
    ensures
        p.reachable(moved_addr as int),
        moved.spec_contains(p.target(moved_addr as int), p.metadata()->0 as int),
        moved.spec_read(p.target(moved_addr as int), p.metadata()->0 as int) == region.spec_read(
            p.target(self_addr as int),
            p.metadata()->0 as int,
        ),
{
}

/// Splitting a byte sequence that lies in memory into its thin address and
/// its metadata, and rebuilding a pointer from the two, gives back a view of
/// the same length holding the same bytes.
pub proof fn lemma_shape_round_trip(region: Region, v: &[u8], addr: usize)
    requires
        region.wf(),
        region.spec_contains(addr as int, v@.len() as int),
        region.spec_read(addr as int, v@.len() as int) == v@,
    ensures
        ({
            let p = FatPtr::<[u8]> { addr, meta: <[u8] as MetaData>::spec_data(v) };
            &&& p.meta == v@.len()
            &&& region.spec_read(p.addr as int, p.meta as int) == v@
        }),
{
}

} // verus!
