use brtri::bridge_core::buffer::LockFreeBuffer;
use std::time::Duration;

#[test]
fn new_buffer_is_empty_with_zero_counters() {
    let mut buffer: LockFreeBuffer<u32> = LockFreeBuffer::new(4);
    let (ops, drops, latency) = buffer.get_metrics();
    assert_eq!(ops, 0);
    assert_eq!(drops, 0);
    assert_eq!(latency, Duration::from_nanos(0));
    assert_eq!(buffer.try_pop(), None);
    assert_eq!(buffer.get_metrics().0, 0);
}

#[test]
fn items_come_out_in_the_order_they_went_in() {
    let mut buffer = LockFreeBuffer::new(4);
    assert_eq!(buffer.try_push(10u32), Ok(()));
    assert_eq!(buffer.try_push(20u32), Ok(()));
    assert_eq!(buffer.try_push(30u32), Ok(()));
    assert_eq!(buffer.try_pop(), Some(10));
    assert_eq!(buffer.try_push(40u32), Ok(()));
    assert_eq!(buffer.try_pop(), Some(20));
    assert_eq!(buffer.try_pop(), Some(30));
    assert_eq!(buffer.try_pop(), Some(40));
    assert_eq!(buffer.try_pop(), None);
}

#[test]
fn buffer_holds_one_item_less_than_its_slots() {
    let mut buffer = LockFreeBuffer::new(3);
    assert_eq!(buffer.try_push(1u8), Ok(()));
    assert_eq!(buffer.try_push(2u8), Ok(()));
    assert_eq!(buffer.try_push(3u8), Err(3));
    let (ops, drops, _) = buffer.get_metrics();
    assert_eq!(ops, 2);
    assert_eq!(drops, 1);
    assert_eq!(buffer.try_pop(), Some(1));
    assert_eq!(buffer.try_push(4u8), Ok(()));
    assert_eq!(buffer.try_pop(), Some(2));
    assert_eq!(buffer.try_pop(), Some(4));
    assert_eq!(buffer.get_metrics().0, 6);
}

#[test]
fn single_slot_buffer_refuses_every_push() {
    let mut buffer = LockFreeBuffer::new(1);
    assert_eq!(buffer.try_push(vec![1u8]), Err(vec![1u8]));
    assert_eq!(buffer.try_push(vec![2u8]), Err(vec![2u8]));
    assert_eq!(buffer.try_pop(), None);
    let (ops, drops, _) = buffer.get_metrics();
    assert_eq!(ops, 0);
    assert_eq!(drops, 2);
}

#[test]
fn zero_slot_buffer_pops_nothing() {
    let mut buffer: LockFreeBuffer<u8> = LockFreeBuffer::new(0);
    assert_eq!(buffer.try_pop(), None);
}

#[test]
fn wrap_around_keeps_order() {
    let mut buffer = LockFreeBuffer::new(3);
    for round in 0..10u32 {
        assert_eq!(buffer.try_push(round), Ok(()));
        assert_eq!(buffer.try_push(round + 100), Ok(()));
        assert_eq!(buffer.try_pop(), Some(round));
        assert_eq!(buffer.try_pop(), Some(round + 100));
    }
    assert_eq!(buffer.get_metrics().0, 40);
}
