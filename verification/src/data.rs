//! What the bot does once a decision is due: which reply a response makes,
//! what follows from an event on the configuration file, and the response
//! to a message at the present time.

use crate::config::{draw_bits, first_selected, Config};
use crate::gating::Draw;
use crate::response::{ContentView, Outcome, ResponseKind};
use rand::seq::SliceRandom;
use std::sync::Arc;
use vstd::prelude::*;

verus! {

/// What is sent back for a response.
#[derive(Debug)]
pub enum Reply {
    /// Nothing is sent.
    Nothing,
    /// A text is sent.
    Text { content: String },
    /// The image at a path is sent.
    Image { path: String },
    /// A text and the image at a path are sent.
    TextAndImage { content: String, path: String },
}

/// A reply as the contracts see it.
pub enum ReplyView {
    Nothing,
    Text { content: Seq<char> },
    Image { path: Seq<char> },
    TextAndImage { content: Seq<char>, path: Seq<char> },
}

impl View for Reply {
    type V = ReplyView;

    open spec fn view(&self) -> ReplyView {
        match *self {
            Reply::Nothing => ReplyView::Nothing,
            Reply::Text { content } => ReplyView::Text { content: content@ },
            Reply::Image { path } => ReplyView::Image { path: path@ },
            Reply::TextAndImage { content, path } => ReplyView::TextAndImage {
                content: content@,
                path: path@,
            },
        }
    }
}

/// Why no reply could be made.
#[derive(Clone, Copy, Debug, PartialEq, Eq, Structural)]
pub enum RespondError {
    /// A random text response holds no text to choose from.
    EmptyResponses,
}

/// The reply that a response makes, where `choice` is the text that was
/// chosen among those of a random text response, if any was.
pub open spec fn reply_of(kind: ContentView, choice: Option<Seq<char>>) -> Result<
    ReplyView,
    RespondError,
> {
    match kind {
        ContentView::Nothing => Ok(ReplyView::Nothing),
        ContentView::Text { content } => Ok(ReplyView::Text { content }),
        ContentView::RandomText { content } => match choice {
            Some(text) => Ok(ReplyView::Text { content: text }),
            None => Err(RespondError::EmptyResponses),
        },
        ContentView::Image { path } => Ok(ReplyView::Image { path }),
        ContentView::TextAndImage { content, path } => Ok(
            ReplyView::TextAndImage { content, path },
        ),
    }
}

/// The characters of a text that may be absent.
pub open spec fn choice_view(choice: Option<&String>) -> Option<Seq<char>> {
    match choice {
        Some(text) => Some(text@),
        None => None,
    }
}

/// One of the given texts, chosen at random. Calls
/// `rand::seq::SliceRandom::choose` with the generator of the thread. The
/// claim: nothing is returned for no texts, else one of the texts.
#[verifier::external_body]
fn choose_text(texts: &Vec<String>) -> (choice: Option<&String>)
    ensures
        choice is None <==> texts@.len() == 0,
        choice matches Some(text) ==> texts@.contains(*text),
{
    texts.choose(&mut rand::thread_rng())
}

/// The present time in milliseconds since the Unix epoch. Calls
/// `chrono::Utc::now` and reads the result with
/// `chrono::DateTime::timestamp_millis`. Nothing is claimed of the time.
#[verifier::external_body]
fn now_millis() -> (now: i64) {
    chrono::Utc::now().timestamp_millis()
}

/// The reply that a response makes once the choice among the texts of a
/// random text response has been made.
pub fn reply_for(kind: &ResponseKind, choice: Option<&String>) -> (r: Result<Reply, RespondError>)
    ensures
        match r {
            Ok(reply) => reply_of(kind@, choice_view(choice)) == Ok::<ReplyView, RespondError>(
                reply@,
            ),
            Err(e) => reply_of(kind@, choice_view(choice)) == Err::<ReplyView, RespondError>(e),
        },
{
    match kind {
        ResponseKind::Nothing => Ok(Reply::Nothing),
        ResponseKind::Text { content } => Ok(Reply::Text { content: content.clone() }),
        ResponseKind::RandomText { content: _ } => match choice {
            Some(text) => Ok(Reply::Text { content: text.clone() }),
            None => Err(RespondError::EmptyResponses),
        },
        ResponseKind::Image { path } => Ok(Reply::Image { path: path.clone() }),
        ResponseKind::TextAndImage { content, path } => Ok(
            Reply::TextAndImage { content: content.clone(), path: path.clone() },
        ),
    }
}

/// The reply that a response makes. A random text response replies with one
/// of its texts, chosen at random, and fails where it holds none; every
/// other response has one reply.
pub fn respond(message_response: &ResponseKind) -> (r: Result<Reply, RespondError>)
    ensures
        match message_response@ {
            ContentView::RandomText { content } => match r {
                Ok(reply) => reply@ matches ReplyView::Text { content: text } && content.contains(
                    text,
                ),
                Err(e) => content.len() == 0 && e == RespondError::EmptyResponses,
            },
            other => match r {
                Ok(reply) => reply_of(other, None) == Ok::<ReplyView, RespondError>(reply@),
                Err(_) => false,
            },
        },
{
    match message_response {
        ResponseKind::RandomText { content } => {
            let choice = choose_text(content);
            proof {
                if let Some(text) = choice {
                    let i = choose|i: int| 0 <= i < content@.len() && content@[i] == *text;
                    assert(content.deep_view()[i] == text@);
                }
            }
            reply_for(message_response, choice)
        },
        _ => reply_for(message_response, None),
    }
}

/// What the watcher of the configuration file reports.
#[derive(Clone, Copy, Debug, PartialEq, Eq, Structural)]
pub enum WatchSignal {
    /// A writer has closed the file.
    WriteCompleted,
    /// Anything else that happened to the file.
    Other,
    /// The watcher itself failed.
    Failed,
}

/// What the bot does about a report of the watcher.
#[derive(Clone, Copy, Debug, PartialEq, Eq, Structural)]
pub enum WatchAction {
    /// The configuration is read again.
    Reload,
    /// The failure is reported.
    Report,
    /// Nothing is done.
    Ignore,
}

/// What a report of the watcher calls for: a write that was completed calls
/// for a reload, a failure for a report, and nothing else for anything.
pub fn on_watch_signal(signal: WatchSignal) -> (action: WatchAction)
    ensures
        action == match signal {
            WatchSignal::WriteCompleted => WatchAction::Reload,
            WatchSignal::Failed => WatchAction::Report,
            WatchSignal::Other => WatchAction::Ignore,
        },
{
    match signal {
        WatchSignal::WriteCompleted => WatchAction::Reload,
        WatchSignal::Failed => WatchAction::Report,
        WatchSignal::Other => WatchAction::Ignore,
    }
}

/// What was found for a message that arrived at the present time.
#[derive(Debug)]
pub struct Found {
    /// The time that the clock showed, in milliseconds since the Unix epoch.
    pub now: i64,
    /// How each response that was tried fared, in their order.
    pub outcomes: Vec<Outcome>,
    /// What the response that was selected sends, if one was.
    pub response: Option<Arc<ResponseKind>>,
}

/// Finds the response to a message that arrives now: `Config::find_response`
/// at the time that the clock shows. The time is handed back with the
/// response, and with it how each response that was tried fared, as
/// `Config::outcomes` says for that time.
pub fn find_response_now(config: &mut Config, message: &str, draws: &Vec<Draw>) -> (r: Found)
    ensures
        match first_selected(
            old(config)@.responses,
            old(config)@.defaults,
            message@,
            r.now,
            draw_bits(draws@),
            0,
        ) {
            Some(hit) => r.response matches Some(content) && content@ == old(
                config,
            )@.responses[hit].content,
            None => r.response is None,
        },
        r.outcomes@ == old(config)@.outcomes(message@, r.now, draw_bits(draws@)),
        final(config)@ == old(config)@.after(message@, r.now, draw_bits(draws@)),
{
    let now = now_millis();
    let outcomes = config.outcomes(message, now, draws);
    let response = config.find_response(message, now, draws);
    Found { now, outcomes, response }
}

} // verus!
