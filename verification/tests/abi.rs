use fp_bindgen::abi::{from_fat_ptr, to_fat_ptr, AsyncValue, AsyncValueError};

#[test]
fn fat_ptr_packs_ptr_high_and_len_low() {
    let fat = to_fat_ptr(0x1234_5678, 0x9ABC_DEF0);
    assert_eq!(fat, 0x1234_5678_9ABC_DEF0u64);
}

#[test]
fn fat_ptr_round_trips() {
    for &(ptr, len) in &[
        (0u32, 0u32),
        (1, 2),
        (0x1234_5678, 0x9ABC_DEF0),
        (u32::MAX, u32::MAX),
        (u32::MAX, 0),
        (0, u32::MAX),
    ] {
        let (p, l) = from_fat_ptr(to_fat_ptr(ptr, len));
        assert_eq!((p, l), (ptr, len));
    }
}

#[test]
fn async_value_starts_pending_and_zeroed() {
    let v = AsyncValue::new();
    assert_eq!(v.status, 0);
    assert_eq!(v.result_ptr, 0);
    assert_eq!(v.result_len, 0);
}

#[test]
fn async_value_read_while_pending_is_rejected() {
    let mut v = AsyncValue::new();
    assert_eq!(v.take_result(), Err(AsyncValueError::NotReady));
    assert_eq!(v.status, 0);
}

#[test]
fn async_value_resolves_exactly_once() {
    let mut v = AsyncValue::new();
    assert_eq!(v.resolve(0x1000, 64), Ok(()));
    assert_eq!(v.status, 1);
    assert_eq!(v.resolve(0x2000, 32), Err(AsyncValueError::AlreadyResolved));
    assert_eq!(v.result_ptr, 0x1000);
    assert_eq!(v.result_len, 64);
}

#[test]
fn async_value_result_is_readable_exactly_once_after_resolution() {
    let mut v = AsyncValue::new();
    assert_eq!(v.take_result(), Err(AsyncValueError::NotReady));
    assert_eq!(v.resolve(0x1000, 64), Ok(()));
    assert_eq!(v.take_result(), Ok((0x1000, 64)));
    assert_eq!(v.take_result(), Err(AsyncValueError::AlreadyConsumed));
}
