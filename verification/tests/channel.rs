use lokinit::native::channel::{Delivery, EventChannel, Link};

#[test]
fn new_channel_has_no_consumer() {
    let channel: EventChannel<u32> = EventChannel::new();
    assert_eq!(channel.link(), Link::Unattached);
    assert_eq!(channel.len(), 0);
}

#[test]
fn events_come_out_in_the_order_they_went_in() {
    let mut channel: EventChannel<char> = EventChannel::new();
    channel.attach();
    assert_eq!(channel.send('A'), Delivery::Delivered);
    assert_eq!(channel.send('B'), Delivery::Delivered);
    assert_eq!(channel.send('C'), Delivery::Delivered);
    assert_eq!(channel.len(), 3);
    assert_eq!(channel.try_recv(), Some('A'));
    assert_eq!(channel.try_recv(), Some('B'));
    assert_eq!(channel.try_recv(), Some('C'));
    assert_eq!(channel.try_recv(), None);
    assert_eq!(channel.len(), 0);
}

#[test]
fn no_event_is_delivered_twice() {
    let mut channel: EventChannel<u32> = EventChannel::new();
    channel.attach();
    channel.send(1);
    assert_eq!(channel.try_recv(), Some(1));
    assert_eq!(channel.try_recv(), None);
    assert_eq!(channel.try_recv(), None);
    channel.send(2);
    channel.send(2);
    assert_eq!(channel.try_recv(), Some(2));
    assert_eq!(channel.try_recv(), Some(2));
    assert_eq!(channel.try_recv(), None);
}

#[test]
fn sends_and_receives_may_alternate() {
    let mut channel: EventChannel<u32> = EventChannel::new();
    channel.attach();
    channel.send(1);
    channel.send(2);
    assert_eq!(channel.try_recv(), Some(1));
    channel.send(3);
    assert_eq!(channel.try_recv(), Some(2));
    assert_eq!(channel.try_recv(), Some(3));
    assert_eq!(channel.try_recv(), None);
}

#[test]
fn event_sent_before_a_consumer_exists_is_dropped() {
    let mut channel: EventChannel<u32> = EventChannel::new();
    assert_eq!(channel.send(1), Delivery::NoConsumer);
    assert_eq!(channel.send(2), Delivery::NoConsumer);
    assert_eq!(channel.len(), 0);
    assert_eq!(channel.try_recv(), None);
    assert_eq!(channel.link(), Link::Unattached);
}

#[test]
fn drops_before_attach_do_not_disturb_later_deliveries() {
    let mut channel: EventChannel<u32> = EventChannel::new();
    assert_eq!(channel.send(1), Delivery::NoConsumer);
    assert_eq!(channel.send(2), Delivery::NoConsumer);
    channel.attach();
    assert_eq!(channel.link(), Link::Attached);
    assert_eq!(channel.try_recv(), None);
    assert_eq!(channel.send(3), Delivery::Delivered);
    assert_eq!(channel.send(4), Delivery::Delivered);
    assert_eq!(channel.send(5), Delivery::Delivered);
    assert_eq!(channel.try_recv(), Some(3));
    assert_eq!(channel.try_recv(), Some(4));
    assert_eq!(channel.try_recv(), Some(5));
    assert_eq!(channel.try_recv(), None);
}

#[test]
fn event_sent_after_the_consumer_has_gone_is_dropped() {
    let mut channel: EventChannel<u32> = EventChannel::new();
    channel.attach();
    channel.send(1);
    channel.close();
    assert_eq!(channel.link(), Link::Closed);
    assert_eq!(channel.len(), 0);
    assert_eq!(channel.send(2), Delivery::Disconnected);
    assert_eq!(channel.try_recv(), None);
}

#[test]
fn closed_channel_stays_closed() {
    let mut channel: EventChannel<u32> = EventChannel::new();
    channel.close();
    channel.attach();
    assert_eq!(channel.link(), Link::Closed);
    assert_eq!(channel.send(1), Delivery::Disconnected);
}

#[test]
fn attach_twice_keeps_what_waits() {
    let mut channel: EventChannel<u32> = EventChannel::new();
    channel.attach();
    channel.send(1);
    channel.attach();
    assert_eq!(channel.len(), 1);
    assert_eq!(channel.try_recv(), Some(1));
}

#[test]
fn channel_holds_many_events() {
    let mut channel: EventChannel<usize> = EventChannel::new();
    channel.attach();
    for i in 0..10_000 {
        assert_eq!(channel.send(i), Delivery::Delivered);
    }
    assert_eq!(channel.len(), 10_000);
    for i in 0..10_000 {
        assert_eq!(channel.try_recv(), Some(i));
    }
    assert_eq!(channel.try_recv(), None);
}
