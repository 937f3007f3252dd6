use white_elephant::games::{keep, pick, roll, PlayEvent, Player, Present, Store, Game};
use white_elephant::hub::EventHub;
use white_elephant::notifier::{ChangeNotifier, NotifierAction, Notification};
use white_elephant::stream::{Frame, LiveStream, StreamInput};

fn ev(id: i64) -> PlayEvent {
    PlayEvent { id, game_id: 1, player_id: 1, present_id: None, from_player_id: None, from_present_id: None, created_at: id }
}

#[test]
fn subscriber_receives_each_action_in_commit_order() {
    let mut s = Store::new();
    s.games.push(Game { id: 1, player_id: None, present_id: None, started_at: None, created_at: 0, updated_at: None });
    s.players.push(Player { id: 1, game_id: 1 });
    s.presents.push(Present { id: 10, game_id: 1, player_id: None });
    let mut hub = EventHub::new(16);
    let sub = hub.subscribe().unwrap();

    roll(&mut s, 1, 0, 1).unwrap();
    hub.publish(*s.events.last().unwrap());
    pick(&mut s, 1, 10, 2).unwrap();
    hub.publish(*s.events.last().unwrap());
    keep(&mut s, 1, 3).unwrap();
    hub.publish(*s.events.last().unwrap());

    for expected in s.events.clone() {
        assert_eq!(hub.recv(sub), Some(expected));
    }
    assert_eq!(hub.recv(sub), None);
}

#[test]
fn unsubscribed_receives_nothing_and_late_subscriber_sees_only_later() {
    let mut hub = EventHub::new(4);
    let a = hub.subscribe().unwrap();
    hub.publish(ev(1));
    assert!(hub.unsubscribe(a));
    hub.publish(ev(2));
    assert_eq!(hub.recv(a), None);
    assert!(!hub.unsubscribe(a));

    let b = hub.subscribe().unwrap();
    assert_ne!(a, b);
    assert_eq!(hub.recv(b), None);
    hub.publish(ev(3));
    assert_eq!(hub.recv(b), Some(ev(3)));
    assert_eq!(hub.recv(b), None);
}

#[test]
fn lagging_subscriber_loses_oldest_only() {
    let mut hub = EventHub::new(2);
    let slow = hub.subscribe().unwrap();
    let fast = hub.subscribe().unwrap();
    assert_eq!(hub.publish(ev(1)), 2);
    assert_eq!(hub.recv(fast), Some(ev(1)));
    hub.publish(ev(2));
    assert_eq!(hub.recv(fast), Some(ev(2)));
    hub.publish(ev(3));
    assert_eq!(hub.recv(fast), Some(ev(3)));
    assert_eq!(hub.recv(slow), Some(ev(2)));
    assert_eq!(hub.recv(slow), Some(ev(3)));
    assert_eq!(hub.recv(slow), None);
}

#[test]
fn publish_without_subscribers_succeeds() {
    let mut hub = EventHub::new(1);
    assert_eq!(hub.publish(ev(1)), 0);
    assert_eq!(hub.subscriber_count(), 0);
}

#[test]
fn notifier_forwards_skips_and_stops() {
    let mut hub = EventHub::new(4);
    let sub = hub.subscribe().unwrap();
    let mut n = ChangeNotifier::new();
    assert_eq!(n.on_notification(&mut hub, Notification::Payload(ev(1))), NotifierAction::Forwarded(1));
    assert_eq!(n.on_notification(&mut hub, Notification::Malformed), NotifierAction::Skipped);
    assert!(n.running);
    assert_eq!(n.on_notification(&mut hub, Notification::Payload(ev(2))), NotifierAction::Forwarded(1));
    assert_eq!(n.on_notification(&mut hub, Notification::Closed), NotifierAction::Failed);
    assert!(!n.running);
    assert_eq!(n.on_notification(&mut hub, Notification::Payload(ev(3))), NotifierAction::Ignored);
    assert_eq!(hub.recv(sub), Some(ev(1)));
    assert_eq!(hub.recv(sub), Some(ev(2)));
    assert_eq!(hub.recv(sub), None);
}

#[test]
fn notifier_shutdown_stops() {
    let mut hub = EventHub::new(4);
    let mut n = ChangeNotifier::new();
    assert_eq!(n.on_notification(&mut hub, Notification::Shutdown), NotifierAction::Stopped);
    assert!(!n.running);
}

#[test]
fn live_stream_frames_and_disconnect() {
    let mut hub = EventHub::new(4);
    let mut conn = LiveStream::open(&mut hub).unwrap();
    assert_eq!(conn.step(&mut hub, StreamInput::Wake), None);
    assert_eq!(conn.step(&mut hub, StreamInput::Tick), Some(Frame::KeepAlive));
    hub.publish(ev(5));
    assert_eq!(conn.step(&mut hub, StreamInput::Wake), Some(Frame::Data(ev(5))));
    assert_eq!(conn.step(&mut hub, StreamInput::Disconnect), None);
    assert!(!conn.open);
    assert_eq!(hub.subscriber_count(), 0);
    hub.publish(ev(6));
    assert_eq!(conn.step(&mut hub, StreamInput::Wake), None);
    assert_eq!(conn.step(&mut hub, StreamInput::Tick), None);
}

#[test]
fn listener_publishes_payloads_in_arrival_order() {
    let mut hub = EventHub::new(8);
    let sub = hub.subscribe().unwrap();
    let mut n = ChangeNotifier::new();
    let notes = [
        Notification::Payload(ev(1)),
        Notification::Malformed,
        Notification::Payload(ev(2)),
        Notification::Payload(ev(3)),
    ];
    for note in notes {
        n.on_notification(&mut hub, note);
    }
    assert_eq!(hub.recv(sub), Some(ev(1)));
    assert_eq!(hub.recv(sub), Some(ev(2)));
    assert_eq!(hub.recv(sub), Some(ev(3)));
    assert_eq!(hub.recv(sub), None);
}
