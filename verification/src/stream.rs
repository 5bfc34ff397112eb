//! The stream-consumption loop: pull messages one at a time from an
//! open stream, render each, and terminate by the configured policy —
//! after the first message (bounded) or at end-of-stream or error
//! (unbounded). The decision per pulled event is a verified step
//! function; a whole pre-recorded event sequence can be consumed by the
//! verified loop below, which tests and callers without a live stream
//! use.

use vstd::prelude::*;

use crate::kinds::StreamKind;
use crate::messages::IncomingMessage;
use crate::render::RenderedRecord;
use crate::render::is_render_of;
use crate::render::render_message;

verus! {

/// When the consumption loop stops: after the first rendered message,
/// or only at end-of-stream or error.
#[derive(Clone, Copy, Debug, PartialEq, Eq)]
pub enum TerminationPolicy {
    Bounded,
    Unbounded,
}

/// One pull from an open stream: a message, a clean end-of-stream, or a
/// stream error with its cause.
pub enum StreamEvent {
    Item(IncomingMessage),
    End,
    Failed(String),
}

/// How a consumed stream ended: cleanly (end-of-stream, bounded stop,
/// or exhaustion of a recorded sequence), or with the error the stream
/// yielded.
#[derive(Debug, PartialEq, Eq)]
pub enum StreamOutcome {
    Completed,
    Failed(String),
}

/// What the loop does with one pulled event.
#[derive(Debug)]
pub enum StepDecision {
    /// Render this record; pull again unless `stop`.
    Emit { record: RenderedRecord, stop: bool },
    /// Clean end-of-stream: stop, reporting success.
    Finish,
    /// Stream error: stop, surfacing the cause.
    Fail { cause: String },
}

/// Decides the loop's reaction to one pulled event: a message is
/// rendered, and the loop goes on exactly when the policy is unbounded;
/// end-of-stream completes the run; an error stops it at once with its
/// cause preserved.
pub fn consume_step(kind: &StreamKind, policy: &TerminationPolicy, event: StreamEvent) -> (r:
    StepDecision)
    ensures
        event matches StreamEvent::Item(m) ==> (r matches StepDecision::Emit { record, stop }
            && is_render_of(*kind, m, record) && stop == (*policy is Bounded)),
        event is End ==> r is Finish,
        event matches StreamEvent::Failed(c) ==> (r matches StepDecision::Fail { cause }
            && cause == c),
{
    match event {
        StreamEvent::Item(m) => {
            let record = render_message(kind, &m);
            let stop = match policy {
                TerminationPolicy::Bounded => true,
                TerminationPolicy::Unbounded => false,
            };
            StepDecision::Emit { record, stop }
        },
        StreamEvent::End => StepDecision::Finish,
        StreamEvent::Failed(c) => StepDecision::Fail { cause: c },
    }
}

/// What one consumed stream produced: the rendered records in arrival
/// order, how many events were pulled from the stream, and how the
/// consumption ended.
#[derive(Debug)]
pub struct ConsumeReport {
    pub rendered: Vec<RenderedRecord>,
    pub pulls: usize,
    pub outcome: StreamOutcome,
}

/// The cause text a consumption outcome surfaces: none on success, the
/// stream error's cause otherwise.
pub open spec fn outcome_failure(o: StreamOutcome) -> Option<Seq<char>> {
    match o {
        StreamOutcome::Completed => Option::None,
        StreamOutcome::Failed(c) => Option::Some(c@),
    }
}

/// The report owed under the bounded policy: exactly one pull; the first
/// event alone decides — a message is rendered and the stream is closed
/// with no second pull, a clean end completes with nothing rendered, an
/// error surfaces its cause. An empty recorded sequence completes with
/// no pull.
pub open spec fn bounded_shape(events: Seq<StreamEvent>, rendered_len: int, pulls: int, failure: Option<Seq<char>>) -> bool {
    if events.len() == 0 {
        rendered_len == 0 && pulls == 0 && failure is None
    } else {
        &&& pulls == 1
        &&& match events[0] {
            StreamEvent::Item(_) => rendered_len == 1 && failure is None,
            StreamEvent::End => rendered_len == 0 && failure is None,
            StreamEvent::Failed(c) => rendered_len == 0 && failure == Option::Some(c@),
        }
    }
}

/// The report owed under the unbounded policy: every message before the
/// first terminator is rendered, then that terminator decides — clean
/// end completes, an error surfaces its cause and stops further pulls.
/// A recorded sequence that runs out of events completes.
pub open spec fn unbounded_shape(events: Seq<StreamEvent>, rendered_len: int, pulls: int, failure: Option<Seq<char>>) -> bool {
    &&& 0 <= rendered_len <= events.len()
    &&& (rendered_len == events.len() ==> pulls == rendered_len && failure is None)
    &&& (rendered_len < events.len() ==> {
        &&& pulls == rendered_len + 1
        &&& match events[rendered_len] {
            StreamEvent::Item(_) => false,
            StreamEvent::End => failure is None,
            StreamEvent::Failed(c) => failure == Option::Some(c@),
        }
    })
}

/// The full report owed for consuming a recorded event sequence: the
/// rendered records are exactly the renderings, in arrival order, of
/// the leading messages the policy admits, and pulls and outcome follow
/// the policy's shape.
pub open spec fn consume_shape(
    kind: StreamKind,
    policy: TerminationPolicy,
    events: Seq<StreamEvent>,
    r: ConsumeReport,
) -> bool {
    &&& r.rendered@.len() <= events.len()
    &&& forall|j: int| 0 <= j < r.rendered@.len() ==> events[j] is Item
    &&& forall|j: int|
        0 <= j < r.rendered@.len() ==> #[trigger] is_render_of(kind, events[j]->Item_0, r.rendered@[j])
    &&& (policy is Bounded ==> bounded_shape(
        events,
        r.rendered@.len() as int,
        r.pulls as int,
        outcome_failure(r.outcome),
    ))
    &&& (policy is Unbounded ==> unbounded_shape(
        events,
        r.rendered@.len() as int,
        r.pulls as int,
        outcome_failure(r.outcome),
    ))
}

/// Consumes a recorded event sequence under the given policy: pulls
/// events in order, renders each message, and stops as the policy
/// directs. Messages rendered before a mid-stream error stay in the
/// report; nothing is pulled past the stopping point.
pub fn consume_events(
    kind: &StreamKind,
    policy: &TerminationPolicy,
    events: &Vec<StreamEvent>,
) -> (r: ConsumeReport)
    ensures
        consume_shape(*kind, *policy, events@, r),
{
    let mut rendered: Vec<RenderedRecord> = Vec::new();
    let mut pulls: usize = 0;
    let mut i: usize = 0;
    while i < events.len()
        invariant
            i <= events.len(),
            pulls == i,
            rendered@.len() == i,
            forall|j: int| 0 <= j < i ==> events@[j] is Item,
            forall|j: int|
                0 <= j < i ==> #[trigger] is_render_of(*kind, events@[j]->Item_0, rendered@[j]),
            *policy is Bounded ==> i == 0,
        decreases events.len() - i,
    {
        pulls = pulls + 1;
        match &events[i] {
            StreamEvent::Item(m) => {
                let record = render_message(kind, m);
                rendered.push(record);
                let stop = match policy {
                    TerminationPolicy::Bounded => true,
                    TerminationPolicy::Unbounded => false,
                };
                if stop {
                    return ConsumeReport { rendered, pulls, outcome: StreamOutcome::Completed };
                }
            },
            StreamEvent::End => {
                return ConsumeReport { rendered, pulls, outcome: StreamOutcome::Completed };
            },
            StreamEvent::Failed(c) => {
                let cause = c.clone();
                return ConsumeReport { rendered, pulls, outcome: StreamOutcome::Failed(cause) };
            },
        }
        i = i + 1;
    }
    ConsumeReport { rendered, pulls, outcome: StreamOutcome::Completed }
}

} // verus!
