//! The handling of one inbound message, as a machine that is told what
//! happened and says what to do next.
//!
//! The caller performs the actions: it sends the request, reads the body of
//! an answer, writes the log line and replies to the inbound caller. After
//! each of them it hands the outcome back as the next event.

use crate::message::{Message, MessageView};
use crate::telegram::{
    notification, send_message_url, OutboundRequest, OutboundRequestView, CHAT_ID,
};
use vstd::prelude::*;
use vstd::string::*;

verus! {

/// How far the handling of a message has come.
#[derive(Clone, Copy, Debug, PartialEq, Eq)]
pub enum Phase {
    /// Nothing has happened yet.
    Idle,
    /// The request is on its way.
    AwaitingResponse,
    /// The API refused the request and the body of its answer is being read.
    AwaitingBody,
    /// The inbound caller has its reply.
    Replied,
}

/// What happened.
#[derive(Clone, Debug, PartialEq, Eq)]
pub enum Event {
    /// A message arrived.
    Received(Message),
    /// The request did not get an answer; the text says why.
    SendFailed(String),
    /// The API answered with this HTTP status.
    Responded(u16),
    /// The body of the answer was read.
    BodyRead(String),
    /// The body of the answer could not be read.
    BodyUnreadable,
}

/// An event as plain values.
pub ghost enum EventView {
    Received(MessageView),
    SendFailed(Seq<char>),
    Responded(int),
    BodyRead(Seq<char>),
    BodyUnreadable,
}

impl View for Event {
    type V = EventView;

    open spec fn view(&self) -> EventView {
        match self {
            Event::Received(message) => EventView::Received(message@),
            Event::SendFailed(error) => EventView::SendFailed(error@),
            Event::Responded(status) => EventView::Responded(*status as int),
            Event::BodyRead(body) => EventView::BodyRead(body@),
            Event::BodyUnreadable => EventView::BodyUnreadable,
        }
    }
}

/// The reply to the inbound caller.
#[derive(Clone, Debug, PartialEq, Eq)]
pub struct Reply {
    pub status: u16,
    pub body: String,
}

/// A reply as plain values.
pub ghost struct ReplyView {
    pub status: int,
    pub body: Seq<char>,
}

impl View for Reply {
    type V = ReplyView;

    open spec fn view(&self) -> ReplyView {
        ReplyView { status: self.status as int, body: self.body@ }
    }
}

/// What to do next.
#[derive(Clone, Debug, PartialEq, Eq)]
pub enum Action {
    /// Send the request.
    Send(OutboundRequest),
    /// Read the body of the answer.
    ReadBody,
    /// Write the line, if there is one, to the log as an error, and reply to
    /// the inbound caller.
    Reply { log: Option<String>, reply: Reply },
}

/// An action as plain values.
pub ghost enum ActionView {
    Send(OutboundRequestView),
    ReadBody,
    Reply { log: Option<Seq<char>>, reply: ReplyView },
}

impl View for Action {
    type V = ActionView;

    open spec fn view(&self) -> ActionView {
        match self {
            Action::Send(request) => ActionView::Send(request@),
            Action::ReadBody => ActionView::ReadBody,
            Action::Reply { log, reply } => ActionView::Reply {
                log: match log {
                    Some(line) => Some(line@),
                    None => None,
                },
                reply: reply@,
            },
        }
    }
}

/// One move of the machine: the phase it enters and what the caller is to do.
#[derive(Clone, Debug, PartialEq, Eq)]
pub struct Step {
    pub next: Phase,
    pub action: Action,
}

/// A move as plain values.
pub ghost struct StepView {
    pub next: Phase,
    pub action: ActionView,
}

impl View for Step {
    type V = StepView;

    open spec fn view(&self) -> StepView {
        StepView { next: self.next, action: self.action@ }
    }
}

/// Whether an HTTP status reports success: the statuses from 200 to 299.
pub open spec fn is_success_status(status: int) -> bool {
    200 <= status <= 299
}

/// The reply that every inbound caller gets: status 200 and no body.
pub open spec fn ok_reply() -> ReplyView {
    ReplyView { status: 200, body: Seq::empty() }
}

/// The log line for a request that did not get an answer.
pub open spec fn send_failure_line(error: Seq<char>) -> Seq<char> {
    "Can not send a request to Telegram, error: "@ + error
}

/// The log line for a request that the API refused, with the body of its
/// answer where it could be read.
pub open spec fn refusal_line(body: Option<Seq<char>>) -> Seq<char> {
    match body {
        Some(text) => "Telegram API call was not success, "@ + text,
        None => "Telegram API call was not success, can not extract response text neither"@,
    }
}

/// The move that sends the request for `message` through the bot with the
/// given token.
pub open spec fn dispatch(bot_token: Seq<char>, message: MessageView) -> StepView {
    StepView {
        next: Phase::AwaitingResponse,
        action: ActionView::Send(
            OutboundRequestView { url: send_message_url(bot_token), body: notification(message) },
        ),
    }
}

/// The move that asks for the body of the answer.
pub open spec fn read_body() -> StepView {
    StepView { next: Phase::AwaitingBody, action: ActionView::ReadBody }
}

/// The last move of a handling: the line, if there is one, goes to the log
/// and the inbound caller gets its reply.
pub open spec fn finish(log: Option<Seq<char>>) -> StepView {
    StepView { next: Phase::Replied, action: ActionView::Reply { log, reply: ok_reply() } }
}

/// The move that the machine makes in `phase` on `event`, for the bot with
/// the given token; `None` where the phase does not expect the event, or
/// the message that arrived cannot be rendered.
pub open spec fn transition(bot_token: Seq<char>, phase: Phase, event: EventView) -> Option<
    StepView,
> {
    match (phase, event) {
        (Phase::Idle, EventView::Received(message)) => if message.renderable() {
            Some(dispatch(bot_token, message))
        } else {
            None
        },
        (Phase::AwaitingResponse, EventView::SendFailed(error)) => Some(
            finish(Some(send_failure_line(error))),
        ),
        (Phase::AwaitingResponse, EventView::Responded(status)) => if is_success_status(status) {
            Some(finish(None))
        } else {
            Some(read_body())
        },
        (Phase::AwaitingBody, EventView::BodyRead(body)) => Some(
            finish(Some(refusal_line(Some(body)))),
        ),
        (Phase::AwaitingBody, EventView::BodyUnreadable) => Some(
            finish(Some(refusal_line(None))),
        ),
        _ => None,
    }
}

/// Whether an HTTP status reports success.
pub fn is_success(status: u16) -> (b: bool)
    ensures
        b == is_success_status(status as int),
{
    200 <= status && status <= 299
}

/// The last move of a run, with the given line for the log.
fn finish_step(log: Option<String>) -> (r: Step)
    ensures
        r@ == finish(
            match log {
                Some(line) => Some(line@),
                None => None,
            },
        ),
{
    Step {
        next: Phase::Replied,
        action: Action::Reply { log, reply: Reply { status: 200, body: String::new() } },
    }
}

/// The relay: it forwards through the bot whose token it holds.
pub struct Relay {
    bot_token: String,
}

impl Relay {
    /// The token of the bot.
    pub closed spec fn bot_token(&self) -> Seq<char> {
        self.bot_token@
    }

    /// A relay for the bot with the given token.
    pub fn new(bot_token: String) -> (r: Relay)
        ensures
            r.bot_token() == bot_token@,
    {
        Relay { bot_token }
    }

    /// The move of the machine in `phase` on `event`.
    pub fn step(&self, phase: Phase, event: Event) -> (r: Option<Step>)
        ensures
            match r {
                Some(step) => transition(self.bot_token(), phase, event@) == Some(step@),
                None => transition(self.bot_token(), phase, event@) is None,
            },
    {
        match phase {
            Phase::Idle => match event {
                Event::Received(message) => {
                    if message.is_renderable() {
                        let request = OutboundRequest::new(self.bot_token.as_str(), &message);
                        Some(Step { next: Phase::AwaitingResponse, action: Action::Send(request) })
                    } else {
                        None
                    }
                },
                _ => None,
            },
            Phase::AwaitingResponse => match event {
                Event::SendFailed(error) => {
                    let mut line = String::from_str("Can not send a request to Telegram, error: ");
                    line.append(error.as_str());
                    Some(finish_step(Some(line)))
                },
                Event::Responded(status) => {
                    if is_success(status) {
                        Some(finish_step(None))
                    } else {
                        Some(Step { next: Phase::AwaitingBody, action: Action::ReadBody })
                    }
                },
                _ => None,
            },
            Phase::AwaitingBody => match event {
                Event::BodyRead(body) => {
                    let mut line = String::from_str("Telegram API call was not success, ");
                    line.append(body.as_str());
                    Some(finish_step(Some(line)))
                },
                Event::BodyUnreadable => {
                    let line = String::from_str(
                        "Telegram API call was not success, can not extract response text neither",
                    );
                    Some(finish_step(Some(line)))
                },
                _ => None,
            },
            Phase::Replied => None,
        }
    }
}

/// The phase in which move `i` of a handling is made: `Idle` for the first
/// move, and after that the phase that the move before it entered.
pub open spec fn phase_at(steps: Seq<StepView>, i: int) -> Phase {
    if i == 0 {
        Phase::Idle
    } else {
        steps[i - 1].next
    }
}

/// Whether `steps` are the moves that the machine makes on `events`, one
/// for each in order, from the phase `Idle` on.
pub open spec fn is_run(bot_token: Seq<char>, events: Seq<EventView>, steps: Seq<StepView>) -> bool {
    &&& steps.len() == events.len()
    &&& forall|i: int|
        0 <= i < events.len() ==> transition(bot_token, phase_at(steps, i), #[trigger] events[i])
            == Some(steps[i])
}

/// Whether `steps` are the moves of a whole handling on `events`: from the
/// phase `Idle` to the reply.
pub open spec fn is_handling(
    bot_token: Seq<char>,
    events: Seq<EventView>,
    steps: Seq<StepView>,
) -> bool {
    &&& is_run(bot_token, events, steps)
    &&& steps.len() > 0
    &&& steps.last().next == Phase::Replied
}

/// Whatever the phase and the event, a reply to the inbound caller has
/// status 200 and no body, and ends the handling.
pub proof fn lemma_every_reply_is_ok(bot_token: Seq<char>, phase: Phase, event: EventView)
    ensures
        transition(bot_token, phase, event) matches Some(step) ==> (step.action is Reply ==> {
            &&& step.action->reply == ok_reply()
            &&& step.next == Phase::Replied
        }),
{
}

/// A request is sent in answer to a message that arrives, and on nothing
/// else; it goes to the `sendMessage` address of the bot and carries the
/// rendered message for the fixed chat, whatever the message holds.
pub proof fn lemma_send_only_on_arrival(bot_token: Seq<char>, phase: Phase, event: EventView)
    ensures
        transition(bot_token, phase, event) matches Some(step) ==> (step.action is Send ==> {
            &&& phase == Phase::Idle
            &&& event matches EventView::Received(message)
            &&& step.action->Send_0.url == send_message_url(bot_token)
            &&& step.action->Send_0.body == notification(message)
            &&& step.action->Send_0.body.chat_id == CHAT_ID
        }),
{
}

/// What goes to the log and to the inbound caller does not depend on the
/// token of the bot.
pub proof fn lemma_token_stays_out_of_the_log(
    bot_token: Seq<char>,
    other_token: Seq<char>,
    phase: Phase,
    event: EventView,
)
    ensures
        transition(bot_token, phase, event) matches Some(step) ==> (step.action is Reply
            ==> transition(other_token, phase, event) == Some(step)),
{
}

/// While a message is being handled, the machine accepts every outcome of
/// the action it asked for: of sending, that there was no answer or an
/// answer with a status; of reading the body, that it was read or not.
pub proof fn lemma_outcomes_are_expected(bot_token: Seq<char>, event: EventView)
    ensures
        event is SendFailed || event is Responded ==> transition(
            bot_token,
            Phase::AwaitingResponse,
            event,
        ) is Some,
        event is BodyRead || event is BodyUnreadable ==> transition(
            bot_token,
            Phase::AwaitingBody,
            event,
        ) is Some,
{
}

/// Every handling began with a message that can be rendered, sent exactly
/// one request, the first thing it did, took one or two outcomes after
/// that, and ended with status 200 and no body for the inbound caller.
pub proof fn lemma_handling_replies_ok(
    bot_token: Seq<char>,
    events: Seq<EventView>,
    steps: Seq<StepView>,
)
    requires
        is_handling(bot_token, events, steps),
    ensures
        2 <= events.len() <= 3,
        events[0] matches EventView::Received(message) && message.renderable() && steps[0]
            == dispatch(bot_token, message),
        forall|i: int| 1 <= i < steps.len() ==> !(#[trigger] steps[i].action is Send),
        steps.last().action is Reply,
        steps.last().action->reply == ok_reply(),
{
    assert(transition(bot_token, phase_at(steps, 0), events[0]) == Some(steps[0]));
    assert(transition(bot_token, phase_at(steps, 1), events[1]) == Some(steps[1]));
    if steps.len() >= 3 {
        assert(transition(bot_token, phase_at(steps, 2), events[2]) == Some(steps[2]));
        if steps.len() >= 4 {
            assert(transition(bot_token, phase_at(steps, 3), events[3]) == Some(steps[3]));
        }
    }
}

/// A request that the API takes ends the handling with status 200 and no
/// body for the inbound caller, and nothing for the log.
pub proof fn lemma_success_replies_ok(bot_token: Seq<char>, message: MessageView, status: int)
    requires
        message.renderable(),
        is_success_status(status),
    ensures
        is_handling(
            bot_token,
            seq![EventView::Received(message), EventView::Responded(status)],
            seq![dispatch(bot_token, message), finish(None)],
        ),
{
}

/// A request that the API refuses does not change the reply to the inbound
/// caller: whatever the status outside 200 to 299, and whether or not the
/// body of the answer can be read, the handling ends with status 200 and no
/// body.
pub proof fn lemma_refusal_replies_ok(
    bot_token: Seq<char>,
    message: MessageView,
    status: int,
    body: Option<Seq<char>>,
)
    requires
        message.renderable(),
        !is_success_status(status),
    ensures
        is_handling(
            bot_token,
            seq![
                EventView::Received(message),
                EventView::Responded(status),
                match body {
                    Some(text) => EventView::BodyRead(text),
                    None => EventView::BodyUnreadable,
                },
            ],
            seq![dispatch(bot_token, message), read_body(), finish(Some(refusal_line(body)))],
        ),
{
}

/// A request that gets no answer does not change the reply to the inbound
/// caller: the handling ends at once with status 200 and no body.
pub proof fn lemma_send_failure_replies_ok(
    bot_token: Seq<char>,
    message: MessageView,
    error: Seq<char>,
)
    requires
        message.renderable(),
    ensures
        is_handling(
            bot_token,
            seq![EventView::Received(message), EventView::SendFailed(error)],
            seq![dispatch(bot_token, message), finish(Some(send_failure_line(error)))],
        ),
{
}

} // verus!
