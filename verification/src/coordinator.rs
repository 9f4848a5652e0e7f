//! The single-threaded owner of the transcript and input side.
//!
//! The coordinator accepts submissions, appends them to the conversation
//! log, hands out snapshots for background workers, and applies published
//! worker outcomes back to the log and the transcript.  It never performs
//! network I/O itself: dispatching a worker means returning a snapshot for
//! the surrounding application to run a request with, and a worker's
//! outcome reaches the coordinator as a plain value on the coordinator's
//! own thread.

use vstd::prelude::*;
use vstd::string::StringExecFns;

use crate::chat_log::ConversationLog;
use crate::decode::ChatError;
use crate::decode::WorkerOutcome;
use crate::message::Message;
use crate::message::MessageView;
use crate::message::Role;
use crate::message::views_of;
use crate::params::ParamsView;
use crate::params::RequestParams;

verus! {

/// The model of a user message holding `text`.
pub open spec fn user_message(text: Seq<char>) -> MessageView {
    MessageView { role: Role::User, content: text }
}

/// The model of an assistant message holding `text`.
pub open spec fn assistant_message(text: Seq<char>) -> MessageView {
    MessageView { role: Role::Assistant, content: text }
}

/// The log after a submission: unchanged for empty text, extended by the
/// one user message otherwise.
pub open spec fn submitted_log(log: Seq<MessageView>, text: Seq<char>) -> Seq<MessageView> {
    if text.len() == 0 {
        log
    } else {
        log.push(user_message(text))
    }
}

/// The log after a successful reply is applied: extended by the one
/// assistant message.
pub open spec fn replied_log(log: Seq<MessageView>, text: Seq<char>) -> Seq<MessageView> {
    log.push(assistant_message(text))
}

/// Owner of the conversation log, the rendered transcript and the request
/// configuration.  All its operations return without waiting on anything.
pub struct Coordinator {
    log: ConversationLog,
    transcript: String,
    params: RequestParams,
}

impl Coordinator {
    /// The model of the conversation log.
    pub closed spec fn log_view(&self) -> Seq<MessageView> {
        self.log@
    }

    /// The rendered transcript text.
    pub closed spec fn transcript_view(&self) -> Seq<char> {
        self.transcript@
    }

    /// The configured request parameters.
    pub closed spec fn params_view(&self) -> ParamsView {
        self.params@
    }

    /// A coordinator over an empty conversation.
    pub fn new(params: RequestParams) -> (c: Coordinator)
        ensures
            c.log_view() == Seq::<MessageView>::empty(),
            c.transcript_view() == Seq::<char>::empty(),
            c.params_view() == params@,
    {
        Coordinator { log: ConversationLog::new(), transcript: String::new(), params }
    }

    /// The configured parameters, for serializing a dispatched snapshot.
    pub fn params(&self) -> (p: &RequestParams)
        ensures
            p@ == self.params_view(),
    {
        &self.params
    }

    /// The transcript as rendered so far.
    pub fn transcript(&self) -> (t: &String)
        ensures
            t@ == self.transcript_view(),
    {
        &self.transcript
    }

    /// A point-in-time copy of the whole conversation log, for display.
    pub fn log_snapshot(&self) -> (copy: Vec<Message>)
        ensures
            views_of(copy@) == self.log_view(),
            copy@.len() == self.log_view().len(),
    {
        self.log.snapshot()
    }

    /// How many messages the conversation log holds.
    pub fn log_len(&self) -> (n: usize)
        ensures
            n == self.log_view().len(),
    {
        self.log.len()
    }

    /// Accepts one submission.  Empty text is a no-op: nothing is appended
    /// and no worker is dispatched.  Non-empty text is appended to the log
    /// as a user message, rendered onto the transcript, and a point-in-time
    /// snapshot of the log — submission included — is returned for a worker
    /// to be dispatched with.  Returns immediately in every case.
    pub fn on_submit(&mut self, text: String) -> (snapshot: Option<Vec<Message>>)
        ensures
            final(self).params_view() == old(self).params_view(),
            final(self).log_view() == submitted_log(old(self).log_view(), text@),
            text@.len() == 0 ==> final(self).transcript_view() == old(self).transcript_view()
                && snapshot is None,
            text@.len() > 0 ==> final(self).transcript_view() == old(self).transcript_view()
                + "\nYou: "@ + text@ && (snapshot matches Some(s) && views_of(s@)
                == final(self).log_view()),
    {
        if text.as_str().is_empty() {
            return None;
        }
        self.transcript.append("\nYou: ");
        self.transcript.append(text.as_str());
        self.log.append(Message::user(text));
        Some(self.log.snapshot())
    }

    /// Applies one published worker outcome.  A reply is appended to the
    /// log as an assistant message and rendered onto the transcript; a
    /// failure leaves both untouched — no synthetic assistant message — and
    /// is handed back for the surrounding surface to present.
    pub fn on_worker_result(&mut self, outcome: WorkerOutcome) -> (failure: Option<ChatError>)
        ensures
            final(self).params_view() == old(self).params_view(),
            outcome matches WorkerOutcome::Reply(t) ==> final(self).log_view()
                == replied_log(old(self).log_view(), t@) && final(self).transcript_view()
                == old(self).transcript_view() + "\nAssistant: "@ + t@ && failure is None,
            outcome matches WorkerOutcome::Failure(e) ==> final(self).log_view()
                == old(self).log_view() && final(self).transcript_view()
                == old(self).transcript_view() && (failure matches Some(f) && f == e),
    {
        match outcome {
            WorkerOutcome::Reply(text) => {
                self.transcript.append("\nAssistant: ");
                self.transcript.append(text.as_str());
                self.log.append(Message::assistant(text));
                None
            },
            WorkerOutcome::Failure(e) => Some(e),
        }
    }
}

} // verus!
