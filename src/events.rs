//! Folding a session's event stream into one answer.
use vstd::prelude::*;
use vstd::string::StringExecFns;
use crate::copilot::{AssistantResponse, CopilotError};

verus! {

/// How long to wait for each next event, in seconds.
pub const EVENT_WAIT_SECS: u64 = 60;

/// An event of a conversational session.
#[derive(Debug)]
pub enum SessionEvent {
    /// An incremental fragment of the answer.
    Delta(String),
    /// The whole answer at once.
    Message(String),
    /// The assistant has finished responding.
    Idle,
    /// The session reported an error.
    Error(String),
    /// Any other kind of event.
    Other,
}

/// What one wait on the event stream produced.
#[derive(Debug)]
pub enum Received {
    Event(SessionEvent),
    /// The stream closed or failed before the assistant went idle.
    Closed,
    /// No event came within the watchdog window.
    TimedOut,
}

/// How a fold ends.
pub enum FoldOutcome {
    Answered(Seq<char>),
    Failed(Seq<char>),
    TimedOut,
}

/// The outcome that `r` ends the fold with, if it ends it.
pub open spec fn step_outcome(acc: Seq<char>, r: Received) -> Option<FoldOutcome> {
    match r {
        Received::Closed => Some(FoldOutcome::Answered(acc)),
        Received::TimedOut => Some(FoldOutcome::TimedOut),
        Received::Event(SessionEvent::Idle) => Some(FoldOutcome::Answered(acc)),
        Received::Event(SessionEvent::Error(m)) => Some(FoldOutcome::Failed(m@)),
        _ => None,
    }
}

/// The accumulated text after `r`, where `r` does not end the fold.
pub open spec fn step_acc(acc: Seq<char>, r: Received) -> Seq<char> {
    match r {
        Received::Event(SessionEvent::Delta(t)) => acc + t@,
        Received::Event(SessionEvent::Message(t)) => if acc.len() == 0 { t@ } else { acc },
        _ => acc,
    }
}

/// The outcome of folding `evs` onto the text `acc`; a stream that runs out
/// ends as a closed one does.
pub open spec fn fold_events(acc: Seq<char>, evs: Seq<Received>) -> FoldOutcome
    decreases evs.len(),
{
    if evs.len() == 0 {
        FoldOutcome::Answered(acc)
    } else {
        match step_outcome(acc, evs[0]) {
            Some(o) => o,
            None => fold_events(step_acc(acc, evs[0]), evs.drop_first()),
        }
    }
}

/// `r` is the result that the outcome `o` is reported as.
pub open spec fn reports(r: Result<AssistantResponse, CopilotError>, o: FoldOutcome) -> bool {
    match o {
        FoldOutcome::Answered(c) => r is Ok && r->Ok_0.content@ == c && r->Ok_0.tool_used is None,
        FoldOutcome::Failed(m) => r is Err && r->Err_0 is SendFailed && r->Err_0->SendFailed_0@ == m,
        FoldOutcome::TimedOut => r is Err && r->Err_0 is Timeout,
    }
}

/// The running state of a fold: the text gathered so far.
pub struct ResponseFold {
    content: String,
}

impl ResponseFold {
    /// The text gathered so far.
    pub closed spec fn text(&self) -> Seq<char> {
        self.content@
    }

    /// A fold that has gathered nothing.
    pub fn new() -> (r: Self)
        ensures
            r.text() == Seq::<char>::empty(),
    {
        ResponseFold { content: String::new() }
    }

    /// Takes in one wait's result. Returns the final result where it ends
    /// the fold, else `None` with the text updated.
    pub fn step(&mut self, r: &Received) -> (res: Option<Result<AssistantResponse, CopilotError>>)
        ensures
            match step_outcome(old(self).text(), *r) {
                Some(o) => res is Some && reports(res->Some_0, o),
                None => res is None && final(self).text() == step_acc(old(self).text(), *r),
            },
    {
        match r {
            Received::Closed => Some(Ok(self.answer())),
            Received::TimedOut => Some(Err(CopilotError::Timeout)),
            Received::Event(e) => match e {
                SessionEvent::Delta(t) => {
                    self.content.append(t.as_str());
                    None
                },
                SessionEvent::Message(t) => {
                    if self.content.as_str().unicode_len() == 0 {
                        self.content = String::from_str(t.as_str());
                    }
                    None
                },
                SessionEvent::Idle => Some(Ok(self.answer())),
                SessionEvent::Error(m) => Some(Err(CopilotError::SendFailed(String::from_str(m.as_str())))),
                SessionEvent::Other => None,
            },
        }
    }

    fn answer(&self) -> (r: AssistantResponse)
        ensures
            r.content@ == self.text(),
            r.tool_used is None,
    {
        AssistantResponse { content: String::from_str(self.content.as_str()), tool_used: None }
    }
}

/// Folds a finite sequence of wait results into the final result.
pub fn collect_response(events: &Vec<Received>) -> (r: Result<AssistantResponse, CopilotError>)
    ensures
        reports(r, fold_events(Seq::empty(), events@)),
{
    let mut fold = ResponseFold::new();
    let mut i: usize = 0;
    assert(events@.subrange(0, events@.len() as int) =~= events@);
    while i < events.len()
        invariant
            i <= events@.len(),
            fold_events(Seq::empty(), events@) == fold_events(fold.text(), events@.subrange(i as int, events@.len() as int)),
        decreases events@.len() - i,
    {
        let ghost before = fold.text();
        let ghost rest = events@.subrange(i as int, events@.len() as int);
        assert(rest.drop_first() =~= events@.subrange(i + 1, events@.len() as int));
        match fold.step(&events[i]) {
            Some(res) => {
                return res;
            },
            None => {},
        }
        i = i + 1;
    }
    assert(events@.subrange(i as int, events@.len() as int).len() == 0);
    Ok(fold.answer())
}

/// An error event ends the fold at once with its message; what was gathered
/// and what follows are dropped.
pub proof fn error_event_ends_fold(acc: Seq<char>, m: String, rest: Seq<Received>)
    ensures
        fold_events(acc, seq![Received::Event(SessionEvent::Error(m))] + rest) == FoldOutcome::Failed(m@),
{
    assert((seq![Received::Event(SessionEvent::Error(m))] + rest)[0] == Received::Event(SessionEvent::Error(m)));
}

/// A wait that times out ends the fold with a timeout, whatever was gathered.
pub proof fn timeout_ends_fold(acc: Seq<char>, rest: Seq<Received>)
    ensures
        fold_events(acc, seq![Received::TimedOut] + rest) == FoldOutcome::TimedOut,
{
    assert((seq![Received::TimedOut] + rest)[0] == Received::TimedOut);
}

/// Deltas are appended to what was gathered, in arrival order.
pub proof fn delta_appends(acc: Seq<char>, t: String, rest: Seq<Received>)
    ensures
        fold_events(acc, seq![Received::Event(SessionEvent::Delta(t))] + rest) == fold_events(acc + t@, rest),
{
    let s = seq![Received::Event(SessionEvent::Delta(t))] + rest;
    assert(s[0] == Received::Event(SessionEvent::Delta(t)));
    assert(s.drop_first() =~= rest);
}

/// A whole message sets the text only while nothing has been gathered; it is
/// never appended.
pub proof fn message_is_fallback(acc: Seq<char>, t: String, rest: Seq<Received>)
    ensures
        fold_events(acc, seq![Received::Event(SessionEvent::Message(t))] + rest)
            == fold_events(if acc.len() == 0 { t@ } else { acc }, rest),
{
    let s = seq![Received::Event(SessionEvent::Message(t))] + rest;
    assert(s[0] == Received::Event(SessionEvent::Message(t)));
    assert(s.drop_first() =~= rest);
}

} // verus!
