//! Relay of inbound text messages to a Telegram chat: the rendering of a
//! message with its timestamps on the Atlantic Canada wall clock, the
//! outbound request, and the decisions taken on what comes back.

pub mod clock;
pub mod decimal;
pub mod message;
pub mod relay;
pub mod telegram;
