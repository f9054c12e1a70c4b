//! The one outbound call: a `sendMessage` request to the Telegram Bot API.

use crate::message::{Message, MessageView};
use vstd::prelude::*;
use vstd::string::*;

verus! {

/// The chat that every notification goes to.
pub const CHAT_ID: i64 = 627_176_336;

/// The body of a `sendMessage` request.
#[derive(Clone, Debug, PartialEq, Eq)]
pub struct TelegramMessage {
    pub chat_id: i64,
    pub text: String,
}

/// A request body as plain values.
pub ghost struct TelegramMessageView {
    pub chat_id: int,
    pub text: Seq<char>,
}

impl View for TelegramMessage {
    type V = TelegramMessageView;

    open spec fn view(&self) -> TelegramMessageView {
        TelegramMessageView { chat_id: self.chat_id as int, text: self.text@ }
    }
}

/// The notification for a message: its rendered text, addressed to the
/// fixed chat.
pub open spec fn notification(message: MessageView) -> TelegramMessageView {
    TelegramMessageView { chat_id: CHAT_ID as int, text: message.rendered() }
}

/// The address of the `sendMessage` method for the bot with the given token.
pub open spec fn send_message_url(bot_token: Seq<char>) -> Seq<char> {
    "https://api.telegram.org/bot"@ + bot_token + "/"@ + "sendMessage"@
}

/// An outbound request: where to post, and what.
#[derive(Clone, Debug, PartialEq, Eq)]
pub struct OutboundRequest {
    pub url: String,
    pub body: TelegramMessage,
}

/// An outbound request as plain values.
pub ghost struct OutboundRequestView {
    pub url: Seq<char>,
    pub body: TelegramMessageView,
}

impl View for OutboundRequest {
    type V = OutboundRequestView;

    open spec fn view(&self) -> OutboundRequestView {
        OutboundRequestView { url: self.url@, body: self.body@ }
    }
}

impl TelegramMessage {
    /// The notification for `message`.
    pub fn from_message(message: &Message) -> (r: TelegramMessage)
        requires
            message@.renderable(),
        ensures
            r@ == notification(message@),
    {
        TelegramMessage { chat_id: CHAT_ID, text: message.to_string() }
    }
}

impl OutboundRequest {
    /// The request that forwards `message` through the bot with the given
    /// token.
    pub fn new(bot_token: &str, message: &Message) -> (r: OutboundRequest)
        requires
            message@.renderable(),
        ensures
            r@.url == send_message_url(bot_token@),
            r@.body == notification(message@),
    {
        let mut url = String::from_str("https://api.telegram.org/bot");
        url.append(bot_token);
        url.append("/");
        url.append("sendMessage");
        OutboundRequest { url, body: TelegramMessage::from_message(message) }
    }
}

/// The chat a notification is addressed to does not depend on the message.
pub proof fn lemma_recipient_is_constant(first: MessageView, second: MessageView)
    ensures
        notification(first).chat_id == CHAT_ID,
        notification(first).chat_id == notification(second).chat_id,
{
}

} // verus!
