use vstd::prelude::*;
use vstd::string::StringSliceAdditionalSpecFns;

verus! {

/// A possibly wide pointer: a thin address together with the shape metadata
/// needed to use it.
pub struct FatPtr<T: ?Sized + MetaData> {
    pub addr: usize,
    pub meta: T::Data,
}

/// The shape of a pointee: what besides its address is needed to rebuild a
/// usable pointer to it.
pub trait MetaData {
    /// The metadata a pointer to this kind of value carries.
    type Data: Copy;

    /// The metadata of `this`.
    spec fn spec_data(this: &Self) -> Self::Data;

    /// Extract the metadata of a value, leaving its address aside.
    fn data(this: &Self) -> (r: Self::Data)
        ensures
            r == Self::spec_data(this),
    ;

    /// Rebuild a pointer from a thin address and metadata taken earlier by
    /// `data`; no address gives no pointer, and the metadata is then unused.
    fn compose(ptr: Option<usize>, data: Self::Data) -> (r: Option<FatPtr<Self>>)
        ensures
            r == match ptr {
                Some(addr) => Some(FatPtr::<Self> { addr, meta: data }),
                None => None,
            },
    {
        match ptr {
            Some(addr) => Some(FatPtr { addr, meta: data }),
            None => None,
        }
    }
}

/// The metadata of a sized value: there is none.
#[derive(Clone, Copy, Debug, PartialEq, Eq, Structural)]
pub struct Thin;

impl<T> MetaData for T {
    type Data = Thin;

    open spec fn spec_data(this: &Self) -> Thin {
        Thin
    }

    fn data(this: &Self) -> (r: Thin) {
        Thin
    }
}

impl<T> MetaData for [T] {
    type Data = usize;

    open spec fn spec_data(this: &Self) -> usize {
        this@.len() as usize
    }

    fn data(this: &Self) -> (r: usize) {
        this.len()
    }
}

impl MetaData for str {
    type Data = usize;

    open spec fn spec_data(this: &Self) -> usize {
        this.spec_bytes().len() as usize
    }

    fn data(this: &Self) -> (r: usize) {
        this.len()
    }
}

} // verus!
