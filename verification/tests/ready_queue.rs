use rpc_mux::DelayedAdd;
use rpc_mux::ReadyQueue;
use rpc_mux::RetrieveError;

#[test]
fn push_returns_the_running_count() {
    let mut queue: ReadyQueue<&str> = ReadyQueue::new();

    assert_eq!(queue.push("a"), 1);
    assert_eq!(queue.push("b"), 2);
    assert_eq!(queue.push("c"), 3);
}

#[test]
fn pop_in_order_yields_each_item_once() {
    let mut queue: ReadyQueue<u32> = ReadyQueue::new();
    for value in 0..4u32 {
        queue.push(value * 10);
    }

    for id in 0..4usize {
        assert_eq!(queue.pop(id), Ok(id as u32 * 10));
    }
    for id in 0..4usize {
        assert_eq!(queue.pop(id), Err(RetrieveError::DuplicateRetrieval));
    }
}

#[test]
fn pop_out_of_order_yields_each_item_once() {
    let mut queue: ReadyQueue<&str> = ReadyQueue::new();
    queue.push("zero");
    queue.push("one");
    queue.push("two");
    queue.push("three");

    assert_eq!(queue.pop(2), Ok("two"));
    assert_eq!(queue.pop(0), Ok("zero"));
    assert_eq!(queue.pop(3), Ok("three"));
    assert_eq!(queue.pop(1), Ok("one"));

    assert_eq!(queue.pop(2), Err(RetrieveError::DuplicateRetrieval));
    assert_eq!(queue.pop(1), Err(RetrieveError::DuplicateRetrieval));
}

#[test]
fn pop_twice_fails_loudly_not_with_stale_data() {
    let mut queue: ReadyQueue<&str> = ReadyQueue::new();
    queue.push("only");

    assert_eq!(queue.pop(0), Ok("only"));
    assert_eq!(queue.pop(0), Err(RetrieveError::DuplicateRetrieval));
}

#[test]
fn pop_of_an_unproduced_id_reports_not_ready() {
    let mut queue: ReadyQueue<&str> = ReadyQueue::new();
    queue.push("only");

    assert_eq!(queue.pop(5), Err(RetrieveError::NotYetAvailable));
    assert_eq!(queue.pop(0), Ok("only"));
    assert_eq!(queue.pop(1), Err(RetrieveError::NotYetAvailable));
}

#[test]
fn window_keeps_interior_items_after_front_is_cleared() {
    let mut queue: ReadyQueue<u32> = ReadyQueue::new();
    queue.push(100);
    queue.push(101);
    queue.push(102);

    assert_eq!(queue.pop(1), Ok(101));
    assert_eq!(queue.pop(0), Ok(100));
    assert_eq!(queue.push(103), 4);
    assert_eq!(queue.pop(3), Ok(103));
    assert_eq!(queue.pop(2), Ok(102));
    assert_eq!(queue.pop(0), Err(RetrieveError::DuplicateRetrieval));
}

#[test]
fn delayed_add_applies_all_increments_at_once() {
    let mut batch = DelayedAdd::new();
    batch.increment();
    batch.increment();
    batch.increment();

    assert_eq!(batch.commit(10), 13);
}
