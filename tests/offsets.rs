use rel_ptr::{
    Delta, FatPtr, IntegerDeltaError, IntegerDeltaErrorImpl, MaybeUninit, MetaData, NonZero,
    Nullable, Region, RelPtr,
};

const A: usize = 0x4000;

#[test]
fn one_byte_offset_two_ahead() {
    let mut p: RelPtr<u8, i8> = RelPtr::null();
    let mut target: u8 = 9;
    assert!(p.set(A + 2, &mut target, A + 4).is_ok());
    assert_eq!(p.offset(), 2);
    assert_eq!(p.as_raw_unchecked(A + 2).addr, A + 4);
    assert!(!p.is_null());
}

#[test]
fn sub_sequence_survives_relocation() {
    let region = Region::new(A, vec![10, 11, 12, 13, 14, 0, 0, 0]).unwrap();
    let mut p: RelPtr<[u8], i8> = RelPtr::null();
    let mut bytes = region.bytes.clone();
    p.set(A + 6, &mut bytes[2..5], A + 2).unwrap();
    assert_eq!(p.as_ref_unchecked(A + 6, &region), &[12, 13, 14]);

    let moved = region.relocate(0x9000);
    assert_eq!(p.as_ref_unchecked(0x9000 + 6, &moved), &[12, 13, 14]);
    assert_eq!(p.as_ref(0x9000 + 6, &moved), Some(&[12u8, 13, 14][..]));
    assert_eq!(p.as_raw_unchecked(0x9000 + 6).addr, 0x9002);
}

#[test]
fn displacement_too_large_for_one_byte() {
    let mut p: RelPtr<u8, i8> = RelPtr::null();
    let mut target: u8 = 1;
    let r = p.set(A, &mut target, A + 1000);
    assert_eq!(r, Err(IntegerDeltaError(IntegerDeltaErrorImpl::Conversion(1000))));
    assert!(p.is_null());
    assert!(p.as_raw(A).is_none());
}

#[test]
fn non_zero_offset_rejects_own_address() {
    let start = NonZero::new(5i8).unwrap();
    let mut p: RelPtr<u8, NonZero<i8>> = RelPtr::from_offset(start);
    let mut target: u8 = 1;
    let r = p.set(A, &mut target, A);
    assert_eq!(r, Err(IntegerDeltaError(IntegerDeltaErrorImpl::InvalidNonZero)));
    assert_eq!(r.unwrap_err().kind(), IntegerDeltaErrorImpl::InvalidNonZero);
    assert_eq!(p.offset().get(), 5);

    assert!(p.set(A, &mut target, A - 3).is_ok());
    assert_eq!(p.offset().get(), -3);
    assert_eq!(p.as_non_null_unchecked(A).addr, A - 3);
}

#[test]
fn subtract_then_add_gives_back_the_address() {
    let pairs = [(A, A), (A + 100, A), (A, A + 100), (7, 0), (0, 7)];
    for (a, b) in pairs {
        let d = <i16 as Delta>::sub(a, b).unwrap();
        assert_eq!(d.add(b), a);
        let d = <isize as Delta>::sub(a, b).unwrap();
        assert_eq!(d.add(b), a);
        let d = <i128 as Delta>::sub(a, b).unwrap();
        assert_eq!(d.add(b), a);
        let d = <i8 as Delta>::sub(a, b).unwrap();
        assert_eq!(d.add(b), a);
    }
    assert_eq!(<i32 as Delta>::sub(A + 100, A), Ok(100));
    assert_eq!(<i64 as Delta>::sub(A, A + 100), Ok(-100));
    assert_eq!(<i32 as Delta>::sub_unchecked(A, A + 100), -100);
    assert_eq!(<i8 as Delta>::sub(A, A), Ok(0));
}

#[test]
fn one_byte_range_ends() {
    assert_eq!(<i8 as Delta>::sub(A + 127, A), Ok(127));
    assert_eq!(<i8 as Delta>::sub(A, A + 128), Ok(-128));
    assert_eq!(
        <i8 as Delta>::sub(A + 128, A),
        Err(IntegerDeltaError(IntegerDeltaErrorImpl::Conversion(128)))
    );
    assert_eq!(
        <i8 as Delta>::sub(A, A + 129),
        Err(IntegerDeltaError(IntegerDeltaErrorImpl::Conversion(-129)))
    );
    assert_eq!(
        <i16 as Delta>::sub(A + 40000, A),
        Err(IntegerDeltaError(IntegerDeltaErrorImpl::Conversion(40000)))
    );
}

#[test]
fn difference_beyond_native_word() {
    let far = usize::MAX;
    assert_eq!(
        <isize as Delta>::sub(far, 0),
        Err(IntegerDeltaError(IntegerDeltaErrorImpl::Sub(far, 0)))
    );
    assert_eq!(
        <i8 as Delta>::sub(0, far),
        Err(IntegerDeltaError(IntegerDeltaErrorImpl::Sub(0, far)))
    );
    assert_eq!(<i128 as Delta>::sub(isize::MAX as usize, 0), Ok(isize::MAX as i128));
}

#[test]
fn null_pointer_and_null_offset() {
    let p: RelPtr<u32, i32> = RelPtr::null();
    assert!(p.is_null());
    assert!(p.as_non_null(A).is_none());
    assert_eq!(<i64 as Nullable>::null().add(A), A);
    assert_eq!(<isize as Nullable>::null().add(0), 0);
    assert!(<i16 as Nullable>::null().is_null_value());
    assert!(!5i16.is_null_value());
    let r: Region = Region::new(A, vec![1, 2, 3]).unwrap();
    let q: RelPtr<[u8], i16> = RelPtr::null();
    assert!(q.as_ref(A, &r).is_none());
}

#[test]
fn failed_set_keeps_offset_and_metadata() {
    let mut bytes = vec![1u8, 2, 3, 4];
    let mut p: RelPtr<[u8], i8> = RelPtr::null();
    p.set(A, &mut bytes[1..3], A + 10).unwrap();
    let before = p.as_raw_unchecked(A);

    let r = p.set(A, &mut bytes[0..4], A + 500);
    assert_eq!(r, Err(IntegerDeltaError(IntegerDeltaErrorImpl::Conversion(500))));
    let after = p.as_raw_unchecked(A);
    assert_eq!(p.offset(), 10);
    assert_eq!(after.addr, before.addr);
    assert_eq!(after.meta, before.meta);
    assert_eq!(after.meta, 2);
}

#[test]
fn rebuilt_sequence_reads_the_same() {
    let region = Region::new(A, vec![5, 6, 7, 8, 9]).unwrap();
    let v = region.read(A + 1, 3).to_vec();
    let meta = <[u8] as MetaData>::data(&v[..]);
    assert_eq!(meta, 3);
    let p = <[u8] as MetaData>::compose(Some(A + 1), meta).unwrap();
    assert_eq!(p.addr, A + 1);
    assert_eq!(region.read(p.addr, p.meta), &v[..]);
    assert!(<[u8] as MetaData>::compose(None, meta).is_none());
    assert_eq!(<str as MetaData>::data("héllo"), 6);
}

#[test]
fn target_at_address_zero_is_absent() {
    let mut p: RelPtr<u8, i8> = RelPtr::null();
    let mut target: u8 = 0;
    p.set(5, &mut target, 0).unwrap();
    assert_eq!(p.offset(), -5);
    assert!(p.as_non_null(5).is_none());
    assert!(p.as_raw(5).is_none());
    assert_eq!(p.as_raw_unchecked(5).addr, 0);
    assert_eq!(p.as_non_null(6).map(|f| f.addr), Some(1));
}

#[test]
fn set_unchecked_stores_offset_and_metadata() {
    let mut p: RelPtr<[u8], i16> = RelPtr::null();
    p.set_unchecked(A, FatPtr { addr: A - 300, meta: 7 });
    assert_eq!(p.offset(), -300);
    let f = p.as_raw_unchecked(A + 1);
    assert_eq!(f.addr, A - 299);
    assert_eq!(f.meta, 7);
}

#[test]
fn non_zero_wrapper() {
    assert!(NonZero::new(0i32).is_none());
    assert_eq!(NonZero::new(-4i32).unwrap().get(), -4);
    assert_eq!(
        <NonZero<i8> as Delta>::sub(A + 200, A),
        Err(IntegerDeltaError(IntegerDeltaErrorImpl::Conversion(200)))
    );
    assert_eq!(<NonZero<i8> as Delta>::sub(A + 2, A).unwrap().get(), 2);
    assert_eq!(<NonZero<i8> as Delta>::sub_unchecked(A, A + 2).add(A + 2), A);
}

#[test]
fn uninit_storage() {
    let mut m: MaybeUninit<usize> = MaybeUninit::null();
    m.set(42);
    assert_eq!(m.get(), 42);
    m.set(7);
    assert_eq!(m.get(), 7);
}

#[test]
fn region_bounds() {
    assert!(Region::new(usize::MAX - 2, vec![0, 0, 0, 0]).is_none());
    let r = Region::new(usize::MAX - 4, vec![0, 0, 0, 0]).unwrap();
    assert!(r.contains(usize::MAX - 4, 4));
    assert!(!r.contains(usize::MAX - 4, 5));
    assert!(!r.contains(usize::MAX - 5, 1));
    assert_eq!(r.addr_of(2), usize::MAX - 2);
}

#[test]
fn write_through_pointer() {
    let mut region = Region::new(A, vec![1, 2, 3, 4, 5, 6]).unwrap();
    let mut p: RelPtr<[u8], i8> = RelPtr::null();
    let mut bytes = region.bytes.clone();
    p.set(A + 5, &mut bytes[1..3], A + 1).unwrap();
    p.as_mut_unchecked(A + 5, &mut region).copy_from_slice(&[20, 30]);
    assert_eq!(region.bytes, vec![1, 20, 30, 4, 5, 6]);
    if let Some(b) = p.as_mut(A + 5, &mut region) {
        b[0] = 99;
    }
    assert_eq!(region.bytes, vec![1, 99, 30, 4, 5, 6]);

    let q: RelPtr<[u8], i8> = RelPtr::null();
    assert!(q.as_mut(A, &mut region).is_none());
    assert_eq!(region.bytes, vec![1, 99, 30, 4, 5, 6]);
}
