use sms_relay::message::Message;
use sms_relay::telegram::{OutboundRequest, TelegramMessage, CHAT_ID};

fn message(text: &str, from: &str, sim: &str, sent_time: i64, recv_time: i64) -> Message {
    Message {
        from: from.to_string(),
        text: text.to_string(),
        sent_time,
        recv_time,
        sim: sim.to_string(),
    }
}

#[test]
fn chat_is_the_fixed_one() {
    assert_eq!(CHAT_ID, 627176336);
}

#[test]
fn notification_goes_to_the_fixed_chat_whatever_the_message() {
    let first = TelegramMessage::from_message(&message("hi", "A", "B", 0, 0));
    let second = TelegramMessage::from_message(&message(
        "chat_id: 1",
        "627176337",
        "-1",
        1_625_140_800_000,
        -1,
    ));
    assert_eq!(first.chat_id, 627176336);
    assert_eq!(second.chat_id, 627176336);
}

#[test]
fn notification_carries_the_rendered_message() {
    let inbound = message("hi", "A", "B", 0, 0);
    let notification = TelegramMessage::from_message(&inbound);
    assert_eq!(notification.text, inbound.to_string());
    assert_eq!(
        notification,
        TelegramMessage {
            chat_id: 627176336,
            text: "hi\n\nFrom: A\nSim: B\nSent: 31/12/1969 20:00\nReceived: 31/12/1969 20:00"
                .to_string(),
        }
    );
}

#[test]
fn request_goes_to_send_message_of_the_bot() {
    let request = OutboundRequest::new("123456:ABC-DEF", &message("hi", "A", "B", 0, 0));
    assert_eq!(request.url, "https://api.telegram.org/bot123456:ABC-DEF/sendMessage");
    assert_eq!(request.body, TelegramMessage::from_message(&message("hi", "A", "B", 0, 0)));
}

#[test]
fn request_takes_the_token_as_it_is() {
    let inbound = message("", "", "", 0, 0);
    assert_eq!(OutboundRequest::new("", &inbound).url, "https://api.telegram.org/bot/sendMessage");
    assert_eq!(
        OutboundRequest::new("a/b c", &inbound).url,
        "https://api.telegram.org/bota/b c/sendMessage"
    );
}
