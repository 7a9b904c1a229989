use doo::errors::DooError;
use doo::queue::CappedQueue;
use doo::queues::UndoQueue;

#[test]
fn capped_queue_keeps_the_capacity_most_recent_entries() {
    // a buffer of capacity 3, filled with 4 pushes: the 4th is rejected and
    // the 3 entries pushed before it stay, most recent first
    let mut q: CappedQueue<u32> = CappedQueue::new(3);
    assert_eq!(q.push_front(1), Ok(()));
    assert_eq!(q.push_front(2), Ok(()));
    assert_eq!(q.push_front(3), Ok(()));
    assert!(q.is_full());
    assert_eq!(q.push_front(4), Err(DooError::Full));
    assert_eq!(q.pop_front(), Some(3));
    assert_eq!(q.pop_front(), Some(2));
    assert_eq!(q.pop_front(), Some(1));
    assert_eq!(q.pop_front(), None);
}

#[test]
fn capped_queue_pop_back_takes_the_oldest() {
    let mut q: CappedQueue<u32> = CappedQueue::new(5);
    q.push_front(1).unwrap();
    q.push_front(2).unwrap();
    q.push_front(3).unwrap();
    assert_eq!(q.pop_back(), Some(1));
    assert_eq!(q.pop_back(), Some(2));
    assert_eq!(q.pop_back(), Some(3));
    assert_eq!(q.pop_back(), None);
}

#[test]
fn capped_queue_clear_empties_but_keeps_capacity() {
    let mut q: CappedQueue<u32> = CappedQueue::new(2);
    q.push_front(1).unwrap();
    q.push_front(2).unwrap();
    assert_eq!(q.clear(), Ok(()));
    assert_eq!(q.pop_front(), None);
    assert!(!q.is_full());
    assert_eq!(q.push_front(9), Ok(()));
    assert_eq!(q.push_front(8), Ok(()));
    assert_eq!(q.push_front(7), Err(DooError::Full));
}

#[test]
fn capped_queue_with_zero_capacity_accepts_nothing() {
    let mut q: CappedQueue<u32> = CappedQueue::new(0);
    assert!(q.is_full());
    assert_eq!(q.push_front(1), Err(DooError::Full));
    assert_eq!(q.pop_front(), None);
}

#[test]
fn undo_queue_keeps_the_capacity_most_recent_entries() {
    let mut q: UndoQueue<u32> = UndoQueue::new(3);
    assert_eq!(q.push(1), Ok(()));
    assert_eq!(q.push(2), Ok(()));
    assert_eq!(q.push(3), Ok(()));
    assert_eq!(q.push(4), Err(DooError::Full));
    assert_eq!(q.pop(), Some(3));
    assert_eq!(q.pop(), Some(2));
    assert_eq!(q.pop(), Some(1));
    assert_eq!(q.pop(), None);
}

#[test]
fn undo_queue_pop_on_empty_is_none() {
    let mut q: UndoQueue<u32> = UndoQueue::new(2);
    assert_eq!(q.pop(), None);
}
