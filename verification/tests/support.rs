use touchhle::thread_support::{NullableBox, YieldFuture};

#[test]
fn a_yield_is_pending_once() {
    let mut fut = YieldFuture::new();
    assert!(!fut.poll());
    assert!(fut.poll());
    assert!(fut.poll());
}

#[test]
fn a_new_box_holds_its_object() {
    let b = NullableBox::new(41u32);
    assert!(!b.is_null());
    assert_eq!(*b.as_ref(), 41);
}

#[test]
fn a_null_box_is_null() {
    let b: NullableBox<String> = NullableBox::null();
    assert!(b.is_null());
}

#[test]
fn a_box_can_be_written_through() {
    let mut b = NullableBox::new(vec![1u8, 2]);
    b.as_mut().push(3);
    assert_eq!(*b.as_ref(), vec![1, 2, 3]);
    *b.as_mut() = vec![9];
    assert_eq!(b.as_ref().len(), 1);
    assert!(!b.is_null());
}
