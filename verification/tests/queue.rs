use cog::error::RunnerError;
use cog::queue::{Admission, DispatchQueue};

#[test]
fn new_queue_is_open_and_empty() {
    let queue: DispatchQueue<u32> = DispatchQueue::new(3);
    assert_eq!(queue.capacity(), 3);
    assert_eq!(queue.len(), 0);
    assert_eq!(queue.waiting(), 0);
    assert!(!queue.is_full());
    assert!(!queue.is_closed());
}

#[test]
fn queue_is_first_in_first_out() {
    let mut queue: DispatchQueue<u32> = DispatchQueue::new(3);
    for item in [7, 8, 9] {
        assert!(matches!(queue.enqueue(item), Ok(Admission::Accepted)));
    }
    assert!(queue.is_full());
    assert_eq!(queue.dequeue(), Some(7));
    assert_eq!(queue.dequeue(), Some(8));
    assert_eq!(queue.dequeue(), Some(9));
    assert_eq!(queue.dequeue(), None);
}

#[test]
fn full_queue_suspends_and_keeps_order() {
    let mut queue: DispatchQueue<u32> = DispatchQueue::new(2);
    assert!(matches!(queue.enqueue(10), Ok(Admission::Accepted)));
    assert!(matches!(queue.enqueue(11), Ok(Admission::Accepted)));
    assert!(matches!(queue.enqueue(12), Ok(Admission::Suspended)));
    assert!(matches!(queue.enqueue(13), Ok(Admission::Suspended)));
    assert_eq!(queue.len(), 2);
    assert_eq!(queue.waiting(), 2);
    assert_eq!(queue.dequeue(), Some(10));
    assert_eq!(queue.len(), 2);
    assert_eq!(queue.waiting(), 1);
    assert_eq!(queue.dequeue(), Some(11));
    assert_eq!(queue.len(), 2);
    assert_eq!(queue.waiting(), 0);
    assert!(matches!(queue.enqueue(14), Ok(Admission::Suspended)));
    assert_eq!(queue.dequeue(), Some(12));
    assert_eq!(queue.dequeue(), Some(13));
    assert_eq!(queue.dequeue(), Some(14));
    assert_eq!(queue.dequeue(), None);
}

#[test]
fn queue_never_holds_more_than_its_capacity() {
    let mut queue: DispatchQueue<usize> = DispatchQueue::new(1);
    let mut served = Vec::new();
    for item in 0..20 {
        queue.enqueue(item).unwrap();
        assert!(queue.len() <= 1);
        if item % 3 == 0 {
            served.push(queue.dequeue().unwrap());
            assert!(queue.len() <= 1);
        }
    }
    while let Some(item) = queue.dequeue() {
        served.push(item);
    }
    assert_eq!(served, (0..20).collect::<Vec<usize>>());
}

#[test]
fn closing_hands_back_everything_in_order() {
    let mut queue: DispatchQueue<char> = DispatchQueue::new(2);
    for item in ['a', 'b', 'c', 'd'] {
        queue.enqueue(item).unwrap();
    }
    assert_eq!(queue.close(), vec!['a', 'b', 'c', 'd']);
    assert!(queue.is_closed());
    assert_eq!(queue.len(), 0);
    assert_eq!(queue.waiting(), 0);
    assert_eq!(queue.dequeue(), None);
    assert!(queue.close().is_empty());
}

#[test]
fn closed_queue_turns_items_away() {
    let mut queue: DispatchQueue<u8> = DispatchQueue::new(4);
    queue.close();
    assert!(matches!(queue.enqueue(1), Err(RunnerError::WorkerUnavailable)));
    assert_eq!(queue.len(), 0);
    assert_eq!(queue.waiting(), 0);
}
