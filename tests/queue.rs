use ekkyo::event::Event;
use ekkyo::queue::Queue;

#[test]
fn queue_is_first_in_first_out() {
    let mut q = Queue::new();
    q.enqueue(Event::Start);
    q.enqueue(Event::TcpConnect);
    q.enqueue(Event::Start);
    assert_eq!(q.dequeue(), Some(Event::Start));
    assert_eq!(q.dequeue(), Some(Event::TcpConnect));
    assert_eq!(q.dequeue(), Some(Event::Start));
    assert_eq!(q.dequeue(), None);
}

#[test]
fn empty_queue_yields_nothing() {
    let mut q = Queue::new();
    assert_eq!(q.dequeue(), None);
    assert_eq!(q.dequeue(), None);
}
