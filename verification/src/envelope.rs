//! The result envelope and the reply/completion protocol.
//!
//! Every command carries two sinks: a reply callback that is invoked exactly
//! once with `(code, error)` and a completion channel that unblocks the
//! foreign caller.  A zero or positive code means success; `-1` together
//! with an error text means failure.  Negative codes are reserved for
//! transport failures seen before a command could be dispatched.

use vstd::prelude::*;

verus! {

/// The canonical outcome of one command: a non-negative result code on
/// success (a handle, a row count, or zero), or the textual reason on
/// failure.
pub type CommandResult = Result<i64, String>;

/// The code that rides on the completion channel for `r`.
pub open spec fn spec_completion_code(r: CommandResult) -> i64 {
    match r {
        Ok(code) => code,
        Err(_) => -1i64,
    }
}

/// The message that rides on the completion channel for `r`.
pub open spec fn spec_completion_text(r: CommandResult) -> Seq<char> {
    match r {
        Ok(_) => Seq::<char>::empty(),
        Err(e) => e@,
    }
}

/// Folds an envelope into the `(code, message)` pair sent over a command's
/// completion channel: a success keeps its code and an empty message, a
/// failure becomes code `-1` with the failure text.
pub fn completion_message(r: CommandResult) -> (m: (i64, String))
    ensures
        m.0 == spec_completion_code(r),
        m.1@ == spec_completion_text(r),
{
    match r {
        Ok(code) => (code, String::new()),
        Err(e) => (-1, e),
    }
}

/// Rebuilds the envelope on the foreign-call side of the completion
/// channel: a negative code is a failure carrying the message, anything
/// else is the success code.  Together with [`completion_message`] this is
/// the synchronous half of the reply protocol.
pub fn final_reply(code: i64, message: String) -> (r: CommandResult)
    ensures
        code < 0 ==> (r is Err && r->Err_0 == message),
        code >= 0 ==> r == Ok::<i64, String>(code),
{
    if code < 0 {
        Err(message)
    } else {
        Ok(code)
    }
}

/// Where a command's delivery stands: still being handled, completed
/// towards the completion channel, or already replied to the host.
#[derive(Debug, Copy, Clone, PartialEq, Eq, Structural)]
pub enum ReplyPhase {
    /// The handler has not finished.
    Pending,
    /// The completion channel has fired; the reply callback has not.
    Completed,
    /// The reply callback has fired.  Terminal.
    Replied,
}

/// Tracks the single-shot reply discipline of one command.  The host's
/// reply callback must fire exactly once per command, after all other
/// output callbacks; the phases here only ever move forward, so a second
/// completion or a second reply is impossible.
pub struct ReplyTracker {
    phase: ReplyPhase,
}

impl ReplyTracker {
    /// The current phase.
    pub closed spec fn phase(self) -> ReplyPhase {
        self.phase
    }

    /// The phase the command is in.
    pub fn current(&self) -> (p: ReplyPhase)
        ensures
            p == self.phase(),
    {
        self.phase
    }

    /// A fresh tracker for a newly accepted command.
    pub fn new() -> (t: ReplyTracker)
        ensures
            t.phase() == ReplyPhase::Pending,
    {
        ReplyTracker { phase: ReplyPhase::Pending }
    }

    /// Records that the handler fired the completion channel.  Only a
    /// pending command can complete, so the channel fires at most once.
    pub fn complete(&mut self)
        requires
            old(self).phase() == ReplyPhase::Pending,
        ensures
            final(self).phase() == ReplyPhase::Completed,
            Some(final(self).phase()) == spec_reply_step(old(self).phase(), ReplyEvent::Complete),
    {
        self.phase = ReplyPhase::Completed;
    }

    /// Records that the reply callback fired.  Only a completed command
    /// can reply, so the callback fires at most once, and only after the
    /// completion channel.
    pub fn reply(&mut self)
        requires
            old(self).phase() == ReplyPhase::Completed,
        ensures
            final(self).phase() == ReplyPhase::Replied,
            Some(final(self).phase()) == spec_reply_step(old(self).phase(), ReplyEvent::Reply),
    {
        self.phase = ReplyPhase::Replied;
    }
}

/// One delivery event of a command: its completion channel firing, or its
/// reply callback firing.
#[derive(Debug, Copy, Clone, PartialEq, Eq, Structural)]
pub enum ReplyEvent {
    /// The handler fired the completion channel.
    Complete,
    /// The reply callback fired.
    Reply,
}

/// The phase after one delivery event, if the protocol allows the event
/// there: a pending command can complete, a completed command can reply,
/// and nothing else is allowed.
pub open spec fn spec_reply_step(p: ReplyPhase, e: ReplyEvent) -> Option<ReplyPhase> {
    match (p, e) {
        (ReplyPhase::Pending, ReplyEvent::Complete) => Some(ReplyPhase::Completed),
        (ReplyPhase::Completed, ReplyEvent::Reply) => Some(ReplyPhase::Replied),
        _ => None,
    }
}

/// The phase after a sequence of delivery events, or nothing as soon as
/// one event breaks the protocol.
pub open spec fn spec_reply_run(p: ReplyPhase, events: Seq<ReplyEvent>) -> Option<ReplyPhase>
    decreases events.len(),
{
    if events.len() == 0 {
        Some(p)
    } else {
        match spec_reply_step(p, events.first()) {
            Some(q) => spec_reply_run(q, events.drop_first()),
            None => None,
        }
    }
}

/// How often an event occurs in a run.
pub open spec fn spec_event_count(events: Seq<ReplyEvent>, e: ReplyEvent) -> nat
    decreases events.len(),
{
    if events.len() == 0 {
        0
    } else {
        (if events.first() == e {
            1nat
        } else {
            0nat
        }) + spec_event_count(events.drop_first(), e)
    }
}

/// Exactly-one reply: in every run of delivery events the protocol
/// admits for one command, the completion channel fires at most once and
/// the reply callback fires at most once, the reply never precedes the
/// completion, and a command that reached the replied phase saw each
/// exactly once.
pub proof fn lemma_reply_exactly_once(events: Seq<ReplyEvent>)
    requires
        spec_reply_run(ReplyPhase::Pending, events) is Some,
    ensures
        spec_event_count(events, ReplyEvent::Complete) <= 1,
        spec_event_count(events, ReplyEvent::Reply) <= spec_event_count(
            events,
            ReplyEvent::Complete,
        ),
        spec_reply_run(ReplyPhase::Pending, events) == Some(ReplyPhase::Replied) ==> (
        spec_event_count(events, ReplyEvent::Complete) == 1 && spec_event_count(
            events,
            ReplyEvent::Reply,
        ) == 1),
{
    if events.len() > 0 {
        assert(events.first() == ReplyEvent::Complete);
        lemma_reply_run_from_completed(events.drop_first());
    }
}

/// After the completion fired, the only admissible further event is one
/// reply, and then nothing.
proof fn lemma_reply_run_from_completed(events: Seq<ReplyEvent>)
    requires
        spec_reply_run(ReplyPhase::Completed, events) is Some,
    ensures
        spec_event_count(events, ReplyEvent::Complete) == 0,
        spec_event_count(events, ReplyEvent::Reply) <= 1,
        spec_reply_run(ReplyPhase::Completed, events) == Some(ReplyPhase::Replied)
            ==> spec_event_count(events, ReplyEvent::Reply) == 1,
{
    if events.len() > 0 {
        assert(events.first() == ReplyEvent::Reply);
        lemma_reply_run_from_replied(events.drop_first());
        assert(spec_event_count(events.drop_first(), ReplyEvent::Complete) == 0);
        assert(spec_event_count(events.drop_first(), ReplyEvent::Reply) == 0);
    } else {
        assert(spec_event_count(events, ReplyEvent::Complete) == 0);
        assert(spec_event_count(events, ReplyEvent::Reply) == 0);
    }
}

/// The replied phase is terminal: no further event is admissible.
proof fn lemma_reply_run_from_replied(events: Seq<ReplyEvent>)
    requires
        spec_reply_run(ReplyPhase::Replied, events) is Some,
    ensures
        events.len() == 0,
{
}

} // verus!
