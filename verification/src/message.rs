//! The inbound message and the text it is rendered to.

use crate::clock::{get_zoned, is_localizable, localizable, zoned_text};
use vstd::prelude::*;
use vstd::string::*;

verus! {

/// A text message as it arrives: sender, text, the times it was sent and
/// received in milliseconds since the Unix epoch, and the SIM that took it.
#[derive(Clone, Debug, PartialEq, Eq)]
pub struct Message {
    pub from: String,
    pub text: String,
    pub sent_time: i64,
    pub recv_time: i64,
    pub sim: String,
}

/// A message as plain values.
pub ghost struct MessageView {
    pub from: Seq<char>,
    pub text: Seq<char>,
    pub sent_time: int,
    pub recv_time: int,
    pub sim: Seq<char>,
}

impl View for Message {
    type V = MessageView;

    open spec fn view(&self) -> MessageView {
        MessageView {
            from: self.from@,
            text: self.text@,
            sent_time: self.sent_time as int,
            recv_time: self.recv_time as int,
            sim: self.sim@,
        }
    }
}

impl MessageView {
    /// Both times of the message can be put on the wall clock.
    pub open spec fn renderable(self) -> bool {
        localizable(self.sent_time) && localizable(self.recv_time)
    }

    /// The notification text of the message: the text, an empty line, and one
    /// line each for the sender, the SIM, and the two times on the Atlantic
    /// Canada wall clock.
    pub open spec fn rendered(self) -> Seq<char> {
        self.text + "\n\nFrom: "@ + self.from + "\nSim: "@ + self.sim + "\nSent: "@ + zoned_text(
            self.sent_time,
        ) + "\nReceived: "@ + zoned_text(self.recv_time)
    }
}

impl Message {
    /// Whether both times of the message can be put on the wall clock.
    pub fn is_renderable(&self) -> (b: bool)
        ensures
            b == self@.renderable(),
    {
        is_localizable(self.sent_time) && is_localizable(self.recv_time)
    }

    /// The notification text of the message.
    pub fn to_string(&self) -> (r: String)
        requires
            self@.renderable(),
        ensures
            r@ == self@.rendered(),
    {
        let sent = get_zoned(self.sent_time);
        let received = get_zoned(self.recv_time);
        let mut out = self.text.clone();
        out.append("\n\nFrom: ");
        out.append(self.from.as_str());
        out.append("\nSim: ");
        out.append(self.sim.as_str());
        out.append("\nSent: ");
        out.append(sent.as_str());
        out.append("\nReceived: ");
        out.append(received.as_str());
        out
    }
}

} // verus!
