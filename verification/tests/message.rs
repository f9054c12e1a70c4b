use sms_relay::clock::{MAX_TIMESTAMP_MILLIS, MIN_TIMESTAMP_MILLIS};
use sms_relay::message::Message;

fn message(text: &str, from: &str, sim: &str, sent_time: i64, recv_time: i64) -> Message {
    Message {
        from: from.to_string(),
        text: text.to_string(),
        sent_time,
        recv_time,
        sim: sim.to_string(),
    }
}

#[test]
fn rendered_text_at_the_epoch() {
    // The epoch is 20:00 on the last day of 1969 in Atlantic Canada.
    let rendered = message("hi", "A", "B", 0, 0).to_string();
    assert_eq!(rendered, "hi\n\nFrom: A\nSim: B\nSent: 31/12/1969 20:00\nReceived: 31/12/1969 20:00");
}

#[test]
fn rendered_text_has_each_time_on_its_own_line() {
    let rendered =
        message("Your code is 1234", "+15550100", "SIM1", 1_625_140_800_000, 1_625_140_923_000)
            .to_string();
    assert_eq!(
        rendered,
        "Your code is 1234\n\nFrom: +15550100\nSim: SIM1\nSent: 01/07/2021 09:00\nReceived: 01/07/2021 09:02"
    );
}

#[test]
fn rendered_text_keeps_the_fields_as_they_are() {
    let rendered = message("l1\nl2 \u{1F600}", "Zo\u{EB}", "", 1_610_712_000_000, 0).to_string();
    assert_eq!(
        rendered,
        "l1\nl2 \u{1F600}\n\nFrom: Zo\u{EB}\nSim: \nSent: 15/01/2021 08:00\nReceived: 31/12/1969 20:00"
    );
}

#[test]
fn rendered_text_of_empty_fields() {
    let rendered = message("", "", "", 0, 60_000).to_string();
    assert_eq!(rendered, "\n\nFrom: \nSim: \nSent: 31/12/1969 20:00\nReceived: 31/12/1969 20:01");
}

#[test]
fn rendered_text_leaves_the_message_unchanged() {
    let inbound = message("hi", "A", "B", 0, 0);
    let copy = inbound.clone();
    let _ = inbound.to_string();
    assert_eq!(inbound, copy);
}

#[test]
fn renderable_when_both_times_are_in_range() {
    assert!(message("hi", "A", "B", 0, 0).is_renderable());
    assert!(message("hi", "A", "B", MIN_TIMESTAMP_MILLIS, MAX_TIMESTAMP_MILLIS).is_renderable());
    assert!(!message("hi", "A", "B", MIN_TIMESTAMP_MILLIS - 1, 0).is_renderable());
    assert!(!message("hi", "A", "B", 0, MAX_TIMESTAMP_MILLIS + 1).is_renderable());
    assert!(!message("hi", "A", "B", i64::MAX, i64::MIN).is_renderable());
}
