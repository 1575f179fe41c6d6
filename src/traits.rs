use vstd::prelude::*;

use crate::error::{IntegerDeltaError, IntegerDeltaErrorImpl};

verus! {

/// Whether a displacement fits in the native signed word.
pub open spec fn fits_isize(d: int) -> bool {
    isize::MIN <= d <= isize::MAX
}

/// What a checked subtraction `a - b` gives for an offset type whose values
/// span `lo..=hi`, and which may reserve zero.
pub open spec fn delta_result(a: usize, b: usize, lo: int, hi: int, forbids_zero: bool) -> Result<
    int,
    IntegerDeltaError,
> {
    let d = a - b;
    if !fits_isize(d) {
        Err(IntegerDeltaError(IntegerDeltaErrorImpl::Sub(a, b)))
    } else if d < lo || hi < d {
        Err(IntegerDeltaError(IntegerDeltaErrorImpl::Conversion(d as isize)))
    } else if forbids_zero && d == 0 {
        Err(IntegerDeltaError(IntegerDeltaErrorImpl::InvalidNonZero))
    } else {
        Ok(d)
    }
}

/// An integer type that can store the difference between two addresses.
pub trait Delta: Copy + Sized {
    /// The displacement in bytes that this value stands for.
    spec fn spec_int(self) -> int;

    /// The smallest displacement this type can hold.
    spec fn min_int() -> int;

    /// The largest displacement this type can hold.
    spec fn max_int() -> int;

    /// Whether zero is excluded, so that a pointer can never refer to itself.
    spec fn forbids_zero() -> bool;

    /// The checked difference `a - b`.
    fn sub(a: usize, b: usize) -> (r: Result<Self, IntegerDeltaError>)
        ensures
            match r {
                Ok(x) => delta_result(a, b, Self::min_int(), Self::max_int(), Self::forbids_zero())
                    == Ok::<int, IntegerDeltaError>(x.spec_int()),
                Err(e) => delta_result(a, b, Self::min_int(), Self::max_int(), Self::forbids_zero())
                    == Err::<int, IntegerDeltaError>(e),
            },
    ;

    /// The difference `a - b`, which the caller knows to be representable.
    fn sub_unchecked(a: usize, b: usize) -> (r: Self)
        requires
            delta_result(a, b, Self::min_int(), Self::max_int(), Self::forbids_zero()) is Ok,
        ensures
            r.spec_int() == a - b,
    ;

    /// The address `a` moved by this displacement.
    fn add(self, a: usize) -> (r: usize)
        requires
            0 <= a + self.spec_int() <= usize::MAX,
        ensures
            r == a + self.spec_int(),
    ;
}

/// An offset type that reserves zero to mean "not set".
pub trait Nullable: Delta {
    /// Zero is a value of the type, and a difference of zero is accepted.
    proof fn lemma_zero_admitted()
        ensures
            !Self::forbids_zero(),
            Self::min_int() <= 0 <= Self::max_int(),
    ;

    /// The null offset.
    fn null() -> (r: Self)
        ensures
            r.spec_int() == 0,
    ;

    /// Whether this offset is the null offset.
    fn is_null_value(&self) -> (r: bool)
        ensures
            r == (self.spec_int() == 0),
    ;
}

/// Subtracting and adding back give the first address again: whenever the
/// checked difference `a - b` succeeds, the displacement it yields can be
/// added to `b`, and the sum is `a`.
pub proof fn lemma_round_trip<I: Delta>(a: usize, b: usize)
    requires
        delta_result(a, b, I::min_int(), I::max_int(), I::forbids_zero()) is Ok,
    ensures
        ({
            let d = delta_result(a, b, I::min_int(), I::max_int(), I::forbids_zero())->Ok_0;
            0 <= b + d <= usize::MAX && b + d == a
        }),
{
}

/// With an offset type that reserves zero, the difference of an address
/// with itself is the null offset, and adding the null offset to any
/// address leaves it unchanged.
pub proof fn lemma_null_identity<I: Nullable>(a: usize, n: I)
    requires
        n.spec_int() == 0,
    ensures
        delta_result(a, a, I::min_int(), I::max_int(), I::forbids_zero()) == Ok::<
            int,
            IntegerDeltaError,
        >(n.spec_int()),
        0 <= a + n.spec_int() <= usize::MAX,
        a + n.spec_int() == a,
{
    I::lemma_zero_admitted();
}

/// With an offset type that excludes zero, a pointer can never be made to
/// refer to its own storage.
pub proof fn lemma_non_zero_rejects_self<I: Nullable>(a: usize)
    ensures
        delta_result(
            a,
            a,
            NonZero::<I>::min_int(),
            NonZero::<I>::max_int(),
            NonZero::<I>::forbids_zero(),
        ) == Err::<int, IntegerDeltaError>(IntegerDeltaError(IntegerDeltaErrorImpl::InvalidNonZero)),
{
    I::lemma_zero_admitted();
}

/// The checked difference `a - b` for an offset type spanning `lo..=hi`,
/// first in the native signed word, then narrowed.
fn checked_delta(a: usize, b: usize, lo: i128, hi: i128) -> (r: Result<isize, IntegerDeltaError>)
    requires
        lo <= 0 <= hi,
    ensures
        match r {
            Ok(d) => delta_result(a, b, lo as int, hi as int, false) == Ok::<int, IntegerDeltaError>(
                d as int,
            ),
            Err(e) => delta_result(a, b, lo as int, hi as int, false) == Err::<int, IntegerDeltaError>(
                e,
            ),
        },
{
    let d: i128 = (a as i128) - (b as i128);
    if d < (isize::MIN as i128) || (isize::MAX as i128) < d {
        return Err(IntegerDeltaError(IntegerDeltaErrorImpl::Sub(a, b)));
    }
    let del: isize = d as isize;
    if d < lo || hi < d {
        Err(IntegerDeltaError(IntegerDeltaErrorImpl::Conversion(del)))
    } else {
        Ok(del)
    }
}

/// The address `a` moved by a displacement `d` that keeps it in range.
fn offset_addr(a: usize, d: i128) -> (r: usize)
    requires
        0 <= a + d <= usize::MAX,
    ensures
        r == a + d,
{
    ((a as i128) + d) as usize
}

impl Delta for i8 {
    open spec fn spec_int(self) -> int {
        self as int
    }

    open spec fn min_int() -> int {
        i8::MIN as int
    }

    open spec fn max_int() -> int {
        i8::MAX as int
    }

    open spec fn forbids_zero() -> bool {
        false
    }

    fn sub(a: usize, b: usize) -> (r: Result<i8, IntegerDeltaError>) {
        match checked_delta(a, b, i8::MIN as i128, i8::MAX as i128) {
            Ok(d) => Ok(d as i8),
            Err(e) => Err(e),
        }
    }

    fn sub_unchecked(a: usize, b: usize) -> (r: i8) {
        ((a as i128) - (b as i128)) as i8
    }

    fn add(self, a: usize) -> (r: usize) {
        offset_addr(a, self as i128)
    }
}

impl Nullable for i8 {
    proof fn lemma_zero_admitted() {
    }

    fn null() -> (r: i8) {
        0
    }

    fn is_null_value(&self) -> (r: bool) {
        *self == 0
    }
}

impl Delta for i16 {
    open spec fn spec_int(self) -> int {
        self as int
    }

    open spec fn min_int() -> int {
        i16::MIN as int
    }

    open spec fn max_int() -> int {
        i16::MAX as int
    }

    open spec fn forbids_zero() -> bool {
        false
    }

    fn sub(a: usize, b: usize) -> (r: Result<i16, IntegerDeltaError>) {
        match checked_delta(a, b, i16::MIN as i128, i16::MAX as i128) {
            Ok(d) => Ok(d as i16),
            Err(e) => Err(e),
        }
    }

    fn sub_unchecked(a: usize, b: usize) -> (r: i16) {
        ((a as i128) - (b as i128)) as i16
    }

    fn add(self, a: usize) -> (r: usize) {
        offset_addr(a, self as i128)
    }
}

impl Nullable for i16 {
    proof fn lemma_zero_admitted() {
    }

    fn null() -> (r: i16) {
        0
    }

    fn is_null_value(&self) -> (r: bool) {
        *self == 0
    }
}

impl Delta for i32 {
    open spec fn spec_int(self) -> int {
        self as int
    }

    open spec fn min_int() -> int {
        i32::MIN as int
    }

    open spec fn max_int() -> int {
        i32::MAX as int
    }

    open spec fn forbids_zero() -> bool {
        false
    }

    fn sub(a: usize, b: usize) -> (r: Result<i32, IntegerDeltaError>) {
        match checked_delta(a, b, i32::MIN as i128, i32::MAX as i128) {
            Ok(d) => Ok(d as i32),
            Err(e) => Err(e),
        }
    }

    fn sub_unchecked(a: usize, b: usize) -> (r: i32) {
        ((a as i128) - (b as i128)) as i32
    }

    fn add(self, a: usize) -> (r: usize) {
        offset_addr(a, self as i128)
    }
}

impl Nullable for i32 {
    proof fn lemma_zero_admitted() {
    }

    fn null() -> (r: i32) {
        0
    }

    fn is_null_value(&self) -> (r: bool) {
        *self == 0
    }
}

impl Delta for i64 {
    open spec fn spec_int(self) -> int {
        self as int
    }

    open spec fn min_int() -> int {
        i64::MIN as int
    }

    open spec fn max_int() -> int {
        i64::MAX as int
    }

    open spec fn forbids_zero() -> bool {
        false
    }

    fn sub(a: usize, b: usize) -> (r: Result<i64, IntegerDeltaError>) {
        match checked_delta(a, b, i64::MIN as i128, i64::MAX as i128) {
            Ok(d) => Ok(d as i64),
            Err(e) => Err(e),
        }
    }

    fn sub_unchecked(a: usize, b: usize) -> (r: i64) {
        ((a as i128) - (b as i128)) as i64
    }

    fn add(self, a: usize) -> (r: usize) {
        offset_addr(a, self as i128)
    }
}

impl Nullable for i64 {
    proof fn lemma_zero_admitted() {
    }

    fn null() -> (r: i64) {
        0
    }

    fn is_null_value(&self) -> (r: bool) {
        *self == 0
    }
}

impl Delta for i128 {
    open spec fn spec_int(self) -> int {
        self as int
    }

    open spec fn min_int() -> int {
        i128::MIN as int
    }

    open spec fn max_int() -> int {
        i128::MAX as int
    }

    open spec fn forbids_zero() -> bool {
        false
    }

    fn sub(a: usize, b: usize) -> (r: Result<i128, IntegerDeltaError>) {
        match checked_delta(a, b, i128::MIN as i128, i128::MAX as i128) {
            Ok(d) => Ok(d as i128),
            Err(e) => Err(e),
        }
    }

    fn sub_unchecked(a: usize, b: usize) -> (r: i128) {
        ((a as i128) - (b as i128)) as i128
    }

    fn add(self, a: usize) -> (r: usize) {
        offset_addr(a, self as i128)
    }
}

impl Nullable for i128 {
    proof fn lemma_zero_admitted() {
    }

    fn null() -> (r: i128) {
        0
    }

    fn is_null_value(&self) -> (r: bool) {
        *self == 0
    }
}

impl Delta for isize {
    open spec fn spec_int(self) -> int {
        self as int
    }

    open spec fn min_int() -> int {
        isize::MIN as int
    }

    open spec fn max_int() -> int {
        isize::MAX as int
    }

    open spec fn forbids_zero() -> bool {
        false
    }

    fn sub(a: usize, b: usize) -> (r: Result<isize, IntegerDeltaError>) {
        match checked_delta(a, b, isize::MIN as i128, isize::MAX as i128) {
            Ok(d) => Ok(d as isize),
            Err(e) => Err(e),
        }
    }

    fn sub_unchecked(a: usize, b: usize) -> (r: isize) {
        ((a as i128) - (b as i128)) as isize
    }

    fn add(self, a: usize) -> (r: usize) {
        offset_addr(a, self as i128)
    }
}

impl Nullable for isize {
    proof fn lemma_zero_admitted() {
    }

    fn null() -> (r: isize) {
        0
    }

    fn is_null_value(&self) -> (r: bool) {
        *self == 0
    }
}

/// An offset that is never zero: a pointer using it is always set, and can
/// never refer to its own storage.
#[derive(Copy, Debug, PartialEq, Eq)]
pub struct NonZero<I: Nullable>(I);

impl<I: Nullable> Clone for NonZero<I> {
    fn clone(&self) -> (r: Self)
        ensures
            r == *self,
    {
        *self
    }
}

impl<I: Nullable> NonZero<I> {
    #[verifier::type_invariant]
    spec fn inv(self) -> bool {
        self.0.spec_int() != 0
    }

    /// The displacement held by the wrapped offset.
    pub closed spec fn spec_get(self) -> I {
        self.0
    }

    /// Wrap `i`, unless it is zero.
    pub fn new(i: I) -> (r: Option<Self>)
        ensures
            r is None <==> i.spec_int() == 0,
            r matches Some(n) ==> n.spec_get() == i,
    {
        if i.is_null_value() {
            None
        } else {
            Some(NonZero(i))
        }
    }

    /// The wrapped offset.
    pub fn get(self) -> (r: I)
        ensures
            r == self.spec_get(),
            r.spec_int() != 0,
    {
        proof {
            use_type_invariant(self);
        }
        self.0
    }
}

impl<I: Nullable> Delta for NonZero<I> {
    open spec fn spec_int(self) -> int {
        self.spec_get().spec_int()
    }

    open spec fn min_int() -> int {
        I::min_int()
    }

    open spec fn max_int() -> int {
        I::max_int()
    }

    open spec fn forbids_zero() -> bool {
        true
    }

    fn sub(a: usize, b: usize) -> (r: Result<Self, IntegerDeltaError>) {
        proof {
            I::lemma_zero_admitted();
        }
        if a == b {
            return Err(IntegerDeltaError(IntegerDeltaErrorImpl::InvalidNonZero));
        }
        match I::sub(a, b) {
            Ok(d) => Ok(NonZero(d)),
            Err(e) => Err(e),
        }
    }

    fn sub_unchecked(a: usize, b: usize) -> (r: Self) {
        proof {
            I::lemma_zero_admitted();
        }
        NonZero(I::sub_unchecked(a, b))
    }

    fn add(self, a: usize) -> (r: usize) {
        self.get().add(a)
    }
}

} // verus!
