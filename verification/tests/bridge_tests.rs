use keyboard_capture::bridge::{delivery_of, emission, hand_off, send, Delivery, Emission, Handoff};
use keyboard_capture::classifier::Disposition;
use keyboard_capture::command::Command;
use tokio::sync::mpsc::error::TryRecvError;
use tokio::sync::mpsc::unbounded_channel;

#[test]
fn wire_strings() {
    assert_eq!(Command::Cancel.wire_string(), "cmd:cancel");
    assert_eq!(Command::Submit.wire_string(), "cmd:submit");
    assert_eq!(Command::Delete.wire_string(), "cmd:delete");
    assert_eq!(Command::Literal("a".to_string()).wire_string(), "key:a");
    assert_eq!(Command::Literal("A".to_string()).wire_string(), "key:A");
    assert_eq!(Command::Literal(String::new()).wire_string(), "key:");
    assert_eq!(Command::Literal("\u{1F600}\u{e9}".to_string()).wire_string(), "key:\u{1F600}\u{e9}");
    assert_eq!(Command::Literal("cmd:cancel".to_string()).wire_string(), "key:cmd:cancel");
}

#[test]
fn send_queues_the_wire_string() {
    let (sender, mut receiver) = unbounded_channel::<String>();
    assert_eq!(send(&sender, &Command::Cancel), Delivery::Delivered);
    assert_eq!(send(&sender, &Command::Literal("q".to_string())), Delivery::Delivered);
    assert_eq!(send(&sender, &Command::Submit), Delivery::Delivered);
    assert_eq!(send(&sender, &Command::Delete), Delivery::Delivered);
    assert_eq!(receiver.try_recv(), Ok("cmd:cancel".to_string()));
    assert_eq!(receiver.try_recv(), Ok("key:q".to_string()));
    assert_eq!(receiver.try_recv(), Ok("cmd:submit".to_string()));
    assert_eq!(receiver.try_recv(), Ok("cmd:delete".to_string()));
    assert_eq!(receiver.try_recv(), Err(TryRecvError::Empty));
}

#[test]
fn send_without_consumer_is_dropped_not_fatal() {
    let (sender, receiver) = unbounded_channel::<String>();
    drop(receiver);
    assert_eq!(
        send(&sender, &Command::Literal("a".to_string())),
        Delivery::Dropped("key:a".to_string())
    );
    assert_eq!(send(&sender, &Command::Cancel), Delivery::Dropped("cmd:cancel".to_string()));
}

#[test]
fn send_after_close_is_dropped() {
    let (sender, mut receiver) = unbounded_channel::<String>();
    assert_eq!(send(&sender, &Command::Submit), Delivery::Delivered);
    receiver.close();
    assert_eq!(send(&sender, &Command::Delete), Delivery::Dropped("cmd:delete".to_string()));
    assert_eq!(receiver.try_recv(), Ok("cmd:submit".to_string()));
    assert_eq!(receiver.try_recv(), Err(TryRecvError::Disconnected));
}

#[test]
fn delivery_of_each_outcome() {
    assert_eq!(delivery_of(None), Delivery::Delivered);
    assert_eq!(delivery_of(Some("key:x".to_string())), Delivery::Dropped("key:x".to_string()));
    assert_eq!(delivery_of(Some(String::new())), Delivery::Dropped(String::new()));
}

#[test]
fn hand_off_suppresses_exactly_with_a_command() {
    let (sender, mut receiver) = unbounded_channel::<String>();
    let forwarded = hand_off(&sender, &Disposition::Forward);
    assert_eq!(forwarded, Handoff { suppress: false, dropped: None });
    assert_eq!(receiver.try_recv(), Err(TryRecvError::Empty));
    let swallowed = hand_off(&sender, &Disposition::Swallow(Command::Literal("z".to_string())));
    assert_eq!(swallowed, Handoff { suppress: true, dropped: None });
    assert_eq!(receiver.try_recv(), Ok("key:z".to_string()));
    assert_eq!(receiver.try_recv(), Err(TryRecvError::Empty));
}

#[test]
fn hand_off_without_consumer_still_suppresses() {
    let (sender, receiver) = unbounded_channel::<String>();
    drop(receiver);
    let swallowed = hand_off(&sender, &Disposition::Swallow(Command::Delete));
    assert_eq!(swallowed, Handoff { suppress: true, dropped: Some("cmd:delete".to_string()) });
    let forwarded = hand_off(&sender, &Disposition::Forward);
    assert_eq!(forwarded, Handoff { suppress: false, dropped: None });
}

#[test]
fn emission_publishes_on_the_keyboard_channel() {
    assert_eq!(
        emission(Some("cmd:submit".to_string())),
        Emission::Publish { event: "keyboard".to_string(), payload: "cmd:submit".to_string() }
    );
    assert_eq!(
        emission(Some(String::new())),
        Emission::Publish { event: "keyboard".to_string(), payload: String::new() }
    );
    assert_eq!(emission(None), Emission::Wait);
}

#[test]
fn key_press_to_published_event() {
    let (sender, mut receiver) = unbounded_channel::<String>();
    let notice = keyboard_capture::classifier::KeyNotice { code: 0, message: 0x100, key: 65 };
    let disposition = keyboard_capture::classifier::classify(notice, true, &[0u8; 256], 1, &[0x61]);
    assert_eq!(hand_off(&sender, &disposition), Handoff { suppress: true, dropped: None });
    assert_eq!(
        emission(receiver.try_recv().ok()),
        Emission::Publish { event: "keyboard".to_string(), payload: "key:a".to_string() }
    );
    assert_eq!(emission(receiver.try_recv().ok()), Emission::Wait);
}
