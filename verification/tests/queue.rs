//! Tests of the connection queue.

use ryder_bridge::queue::{delivery_result, ConnectionQueue, ConnectionTicket, Error};

#[test]
fn test_connection_try_serve() {
    let (mut ticket_1, _rx_1) = ConnectionTicket::new(0);

    assert!(ticket_1.try_serve().is_ok());
    assert!(matches!(ticket_1.try_serve(), Err(Error::TicketAlreadyServed)));

    let (mut ticket_2, rx_2) = ConnectionTicket::new(1);

    // Abandon the ticket by dropping the notification receiver
    drop(rx_2);

    assert!(matches!(ticket_2.try_serve(), Err(Error::TicketAbandoned)));
}

#[test]
fn test_queue_add_connection() {
    let mut queue = ConnectionQueue::new();
    assert!(queue.is_empty());

    let (id_1, _) = queue.add_connection();
    let (id_2, _) = queue.add_connection();

    assert!(!queue.is_empty());
    assert_eq!(0, id_1);
    assert_eq!(1, id_2);
}

#[test]
fn test_queue_find() {
    let mut queue = ConnectionQueue::new();

    let (id_1, _rx_1) = queue.add_connection();
    let (id_2, _rx_2) = queue.add_connection();
    let (id_3, _rx_3) = queue.add_connection();

    assert_eq!(None, queue.find(99));
    assert_eq!(Some(0), queue.find(id_1));
    assert_eq!(Some(1), queue.find(id_2));
    assert_eq!(Some(2), queue.find(id_3));
}

#[test]
fn test_queue_remove() {
    let mut queue = ConnectionQueue::new();

    // Try to remove a nonexistent connection
    assert!(!queue.remove(0));

    let (id_1, _) = queue.add_connection();

    assert!(queue.remove(id_1));
    assert!(queue.is_empty());
}

#[test]
fn test_queue_serve_next_abandoned() {
    let mut queue = ConnectionQueue::new();

    let (_, rx) = queue.add_connection();

    // The notification receiver is dropped, effectively abandoning the ticket
    drop(rx);

    // Another connection is added but not abandoned
    let (id_2, mut rx_2) = queue.add_connection();

    // The abandoned ticket is removed automatically and the next non-abandoned ticket is served
    assert!(queue.serve_next());
    assert!(rx_2.try_recv().is_ok());

    assert!(queue.remove(id_2));
    assert!(queue.is_empty());
}

#[test]
fn test_queue_remove_and_serve_next() {
    let mut queue = ConnectionQueue::new();

    // Add some connections
    let (id_1, _rx_1) = queue.add_connection();
    let (id_2, _rx_2) = queue.add_connection();
    let (id_3, _rx_3) = queue.add_connection();

    // Serve connection 1
    queue.serve_next();

    // Remove connection 2 from the queue (does not serve next)
    assert!(!queue.remove_and_serve_next(id_2));
    // Remove connection 1 from the queue (serves connection 3)
    assert!(queue.remove_and_serve_next(id_1));
    assert_eq!(Some(id_3), queue.head());
    // Remove connection 3 from the queue (serves next but queue is empty)
    assert!(queue.remove_and_serve_next(id_3));

    // All connections have been served and removed
    assert!(queue.is_empty());
}

#[test]
fn connections_are_notified_one_at_a_time() {
    let mut queue = ConnectionQueue::new();

    let (id_1, mut rx_1) = queue.add_connection();
    let (id_2, mut rx_2) = queue.add_connection();

    // The connections are still waiting to be served
    assert_eq!(Ok(None), rx_1.try_recv());
    assert_eq!(Ok(None), rx_2.try_recv());

    assert!(queue.serve_next());
    assert_eq!(Ok(Some(())), rx_1.try_recv());
    assert_eq!(Ok(None), rx_2.try_recv());

    queue.remove(id_1);
    assert!(queue.serve_next());
    assert_eq!(Ok(Some(())), rx_2.try_recv());

    queue.remove(id_2);
    assert!(queue.is_empty());
    assert!(!queue.serve_next());
}

#[test]
fn only_the_first_connection_is_served_at_once() {
    let mut queue = ConnectionQueue::new();
    assert_eq!(None, queue.head());

    let (id_1, mut rx_1) = queue.enqueue();
    let (id_2, mut rx_2) = queue.enqueue();
    assert_eq!((0, 1), (id_1, id_2));
    assert_eq!(2, queue.next_id());
    assert_eq!(Ok(Some(())), rx_1.try_recv());
    assert_eq!(Ok(None), rx_2.try_recv());

    // The second connection leaves without having been served
    assert!(!queue.remove_and_serve_next(id_2));
    assert!(rx_2.try_recv().is_err());
    assert_eq!(Some(id_1), queue.head());

    // IDs are not used again
    assert!(queue.remove_and_serve_next(id_1));
    let (id_3, mut rx_3) = queue.enqueue();
    assert_eq!(2, id_3);
    assert_eq!(Ok(Some(())), rx_3.try_recv());
}

#[test]
fn removal_keeps_the_order_of_the_others() {
    let mut queue = ConnectionQueue::new();
    let mut notifiers = Vec::new();
    for _ in 0..4 {
        let (_, rx) = queue.add_connection();
        notifiers.push(rx);
    }

    assert!(queue.remove(1));
    assert!(!queue.remove(1));
    assert_eq!(Some(0), queue.find(0));
    assert_eq!(None, queue.find(1));
    assert_eq!(Some(1), queue.find(2));
    assert_eq!(Some(2), queue.find(3));
}

#[test]
fn all_abandoned_connections_are_skipped() {
    let mut queue = ConnectionQueue::new();
    for _ in 0..3 {
        let _ = queue.add_connection();
    }

    assert!(!queue.serve_next());
    assert!(queue.is_empty());
}

#[test]
fn an_attempt_to_serve_is_settled() {
    let mut queue = ConnectionQueue::new();
    let (_, _rx_1) = queue.add_connection();
    let (id_2, _rx_2) = queue.add_connection();

    assert!(!queue.settle_head(delivery_result(Err(()))));
    assert_eq!(Some(id_2), queue.head());
    assert!(queue.settle_head(delivery_result(Ok(()))));
    assert_eq!(Some(id_2), queue.head());
}
