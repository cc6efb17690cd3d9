use vstd::prelude::*;
use crate::story::{StoryArc, empty_arc};
use crate::fetch::{FetchError, Reply, arc_url, arc_url_spec, outcome_spec, is_success_spec};

verus! {

/// An event that the update cycle handles.
#[derive(Clone, Debug, PartialEq, Eq)]
pub enum Msg {
    /// Request the arc with this identifier.
    FetchArc(String),
    /// A fetch brought this arc.
    FetchArcComplete(StoryArc),
    /// A fetch failed for this reason.
    Error(FetchError),
}

/// What the surrounding program is to do after an event was handled.
#[derive(Clone, Debug, PartialEq, Eq)]
pub enum Cmd {
    /// Start a fetch of this address; its outcome comes back as an event.
    Fetch(String),
    /// The arc was replaced: draw it again.
    Render,
    /// Report this failure; nothing changed, so nothing needs drawing.
    Report(FetchError),
}

/// The arc held after handling `msg` while holding `model`.
pub open spec fn next_spec(msg: Msg, model: StoryArc) -> StoryArc {
    match msg {
        Msg::FetchArcComplete(arc) => arc,
        _ => model,
    }
}

/// The arc held after handling `msgs` in order, starting from `model`.
pub open spec fn run_spec(msgs: Seq<Msg>, model: StoryArc) -> StoryArc
    decreases msgs.len(),
{
    if msgs.len() == 0 {
        model
    } else {
        next_spec(msgs.last(), run_spec(msgs.drop_last(), model))
    }
}

/// The event that the outcome of a fetch turns into.
pub open spec fn message_spec(res: Result<StoryArc, FetchError>) -> Msg {
    match res {
        Ok(arc) => Msg::FetchArcComplete(arc),
        Err(e) => Msg::Error(e),
    }
}

/// The state the viewer starts in: the empty arc.
pub fn init() -> (r: StoryArc)
    ensures
        r@ == empty_arc(),
{
    StoryArc::default()
}

/// Turns the outcome of a fetch into the event that reports it, keeping the
/// kind of a failure.
pub fn message_of(res: Result<StoryArc, FetchError>) -> (r: Msg)
    ensures
        r == message_spec(res),
{
    match res {
        Ok(arc) => Msg::FetchArcComplete(arc),
        Err(e) => Msg::Error(e),
    }
}

/// Handles one event. A request leaves the arc alone and asks for a fetch of
/// its address; a completed fetch replaces the arc wholesale; a failure leaves
/// the arc alone and asks for it to be reported.
pub fn update(msg: Msg, model: &mut StoryArc) -> (r: Cmd)
    ensures
        *final(model) == next_spec(msg, *old(model)),
        match msg {
            Msg::FetchArc(arc) => r matches Cmd::Fetch(url) && url@ == arc_url_spec(arc@),
            Msg::FetchArcComplete(_) => r == Cmd::Render,
            Msg::Error(e) => r == Cmd::Report(e),
        },
{
    match msg {
        Msg::FetchArc(arc) => Cmd::Fetch(arc_url(arc.as_str())),
        Msg::FetchArcComplete(arc) => {
            *model = arc;
            Cmd::Render
        },
        Msg::Error(e) => Cmd::Report(e),
    }
}

/// Picking the option at `index` of `arc` requests the arc it leads to; an
/// index past the options picks nothing.
pub fn pick_option(arc: &StoryArc, index: usize) -> (r: Option<Msg>)
    ensures
        index < arc.options@.len() ==> r == Some(Msg::FetchArc(arc.options@[index as int].arc)),
        index >= arc.options@.len() ==> r is None,
{
    if index < arc.options.len() {
        Some(Msg::FetchArc(arc.options[index].arc.clone()))
    } else {
        None
    }
}

/// Before any fetch completes the arc held is the empty one: from the empty
/// arc, events that bring no arc leave it empty.
pub proof fn lemma_empty_until_complete(msgs: Seq<Msg>, model: StoryArc)
    requires
        model@ == empty_arc(),
        forall|i: int| 0 <= i < msgs.len() ==> !(#[trigger] msgs[i] is FetchArcComplete),
    ensures
        run_spec(msgs, model)@ == empty_arc(),
    decreases msgs.len(),
{
    if msgs.len() > 0 {
        let rest = msgs.drop_last();
        assert forall|i: int| 0 <= i < rest.len() implies !(#[trigger] rest[i] is FetchArcComplete) by {
            assert(rest[i] == msgs[i]);
        }
        lemma_empty_until_complete(rest, model);
        assert(!(msgs[msgs.len() - 1] is FetchArcComplete));
    }
}

/// After a successful fetch the arc held has exactly the title, paragraphs and
/// options of the decoded arc, whatever was held before: nothing is merged.
pub proof fn lemma_success_replaces(status: u16, arc: StoryArc, model: StoryArc)
    requires
        is_success_spec(status),
    ensures
        ({
            let held = next_spec(
                message_spec(outcome_spec(Reply::Answered { status, body: Some(arc) })),
                model,
            );
            &&& held@.title == arc@.title
            &&& held@.story == arc@.story
            &&& held@.options == arc@.options
            &&& held == arc
        }),
{
}

/// A failed fetch, whether the backend was unreachable, answered with a
/// non-success status, or sent a body that is not an arc, leaves the arc held
/// exactly as it was.
pub proof fn lemma_failure_keeps(reply: Reply, model: StoryArc)
    requires
        match reply {
            Reply::Unreachable => true,
            Reply::Answered { status, body } => !is_success_spec(status) || body is None,
        },
    ensures
        outcome_spec(reply) is Err,
        next_spec(message_spec(outcome_spec(reply)), model) == model,
{
}

} // verus!
