//! The live stream of one client: what is passed on to the client of all that its
//! subscription to the bus receives.
//!
//! A subscription sees the events of every project. The stream passes on those of the one
//! project that the client asked for, drops the others, goes on after it has fallen behind,
//! and ends when the bus closes or the server shuts down.

use vstd::prelude::*;
use crate::events::{SubtitleEvent, SubtitleEventView};

verus! {

/// What a subscription hands over when it is read once.
#[derive(Clone, Debug, PartialEq, Eq)]
pub enum Received {
    /// The next event.
    Message(SubtitleEvent),
    /// The subscription fell behind, and this many events were lost to it.
    Lagged(u64),
    /// The bus is gone.
    Closed,
    /// The server is shutting down.
    Shutdown,
}

/// What a [`Received`] is to a contract.
pub enum ReceivedView {
    Message(SubtitleEventView),
    Lagged(u64),
    Closed,
    Shutdown,
}

impl DeepView for Received {
    type V = ReceivedView;

    open spec fn deep_view(&self) -> ReceivedView {
        match self {
            Received::Message(event) => ReceivedView::Message(event@),
            Received::Lagged(missed) => ReceivedView::Lagged(*missed),
            Received::Closed => ReceivedView::Closed,
            Received::Shutdown => ReceivedView::Shutdown,
        }
    }
}

impl View for Received {
    type V = ReceivedView;

    open spec fn view(&self) -> ReceivedView {
        self.deep_view()
    }
}

/// What the stream does with what it has received.
#[derive(Clone, Debug, PartialEq, Eq)]
pub enum Relay {
    /// Send the event to the client under the tag `name`, and read on.
    Emit { name: &'static str, event: SubtitleEvent },
    /// Send nothing, and read on.
    Skip,
    /// End the stream.
    Stop,
}

/// What a [`Relay`] is to a contract.
pub enum RelayView {
    Emit { name: Seq<char>, event: SubtitleEventView },
    Skip,
    Stop,
}

impl DeepView for Relay {
    type V = RelayView;

    open spec fn deep_view(&self) -> RelayView {
        match self {
            Relay::Emit { name, event } => RelayView::Emit { name: name@, event: event@ },
            Relay::Skip => RelayView::Skip,
            Relay::Stop => RelayView::Stop,
        }
    }
}

impl View for Relay {
    type V = RelayView;

    open spec fn view(&self) -> RelayView {
        self.deep_view()
    }
}

/// What [`events`] does with one receipt.
pub open spec fn spec_events(project_id: i32, received: ReceivedView) -> RelayView {
    match received {
        ReceivedView::Message(event) => if event.project == project_id {
            RelayView::Emit { name: event.info.name(), event }
        } else {
            RelayView::Skip
        },
        ReceivedView::Lagged(_) => RelayView::Skip,
        ReceivedView::Closed => RelayView::Stop,
        ReceivedView::Shutdown => RelayView::Stop,
    }
}

/// Decides what the stream for the project `project_id` does with what its subscription
/// has handed over: an event of the project is sent on under the tag of its kind, an event of
/// another project is dropped, a gap is passed over, and the stream ends with the bus or the
/// server.
pub fn events(project_id: i32, received: Received) -> (relay: Relay)
    ensures
        relay@ == spec_events(project_id, received@),
{
    match received {
        Received::Message(event) => if event.project == project_id {
            let name = event.info.name();
            Relay::Emit { name, event }
        } else {
            Relay::Skip
        },
        Received::Lagged(_) => Relay::Skip,
        Received::Closed => Relay::Stop,
        Received::Shutdown => Relay::Stop,
    }
}

/// Where in `inbox`, a run of receipts, the events stand that the stream for `project_id`
/// sends on, in the order in which it sends them.
pub open spec fn spec_emitted_at(project_id: i32, inbox: Seq<ReceivedView>) -> Seq<int>
    decreases inbox.len(),
{
    if inbox.len() == 0 {
        Seq::empty()
    } else {
        let later = spec_emitted_at(project_id, inbox.drop_first()).map_values(|at: int| at + 1);
        match spec_events(project_id, inbox.first()) {
            RelayView::Emit { .. } => seq![0int] + later,
            RelayView::Skip => later,
            RelayView::Stop => Seq::empty(),
        }
    }
}

/// The first `upto` receipts of `inbox` hold nothing that ends the stream.
pub open spec fn spec_live_before(inbox: Seq<ReceivedView>, upto: int) -> bool {
    forall|k: int|
        0 <= k < upto && k < inbox.len() ==> !((#[trigger] inbox[k]) is Closed)
            && !(inbox[k] is Shutdown)
}

/// The receipt at `at` is reached by the stream, and is an event of the project.
pub open spec fn spec_is_sent_on(project_id: i32, inbox: Seq<ReceivedView>, at: int) -> bool {
    &&& 0 <= at < inbox.len()
    &&& spec_live_before(inbox, at)
    &&& inbox[at] matches ReceivedView::Message(event)
    &&& event.project == project_id
}

/// Over a whole run of receipts, the stream sends on exactly the events of its project
/// that come before the bus closes or the server shuts down: each of them once, none of
/// another project, and in the order in which they were received. A gap ends nothing: what
/// is received after it is sent on like what came before.
pub proof fn lemma_stream_sends_the_projects_events_in_order(
    project_id: i32,
    inbox: Seq<ReceivedView>,
)
    ensures
        forall|k: int|
            0 <= k < spec_emitted_at(project_id, inbox).len() ==> spec_is_sent_on(
                project_id,
                inbox,
                #[trigger] spec_emitted_at(project_id, inbox)[k],
            ),
        forall|j: int, k: int|
            0 <= j < k < spec_emitted_at(project_id, inbox).len() ==> spec_emitted_at(
                project_id,
                inbox,
            )[j] < spec_emitted_at(project_id, inbox)[k],
        forall|at: int| #[trigger]
            spec_is_sent_on(project_id, inbox, at) ==> spec_emitted_at(project_id, inbox).contains(at),
    decreases inbox.len(),
{
    let emitted = spec_emitted_at(project_id, inbox);
    if inbox.len() > 0 {
        let rest = inbox.drop_first();
        let inner = spec_emitted_at(project_id, rest);
        let later = inner.map_values(|at: int| at + 1);
        lemma_stream_sends_the_projects_events_in_order(project_id, rest);
        let first = spec_events(project_id, inbox.first());
        assert forall|k: int| 0 <= k < later.len() implies spec_is_sent_on(
            project_id,
            inbox,
            #[trigger] later[k],
        ) || first is Stop by {
            let at = inner[k];
            assert(spec_is_sent_on(project_id, rest, at));
            if !(first is Stop) {
                assert forall|i: int| 0 <= i < at + 1 && i < inbox.len() implies !((
                #[trigger] inbox[i]) is Closed) && !(inbox[i] is Shutdown) by {
                    if i > 0 {
                        assert(inbox[i] == rest[i - 1]);
                    }
                }
                assert(inbox[at + 1] == rest[at]);
            }
        }
        assert forall|at: int| #[trigger]
            spec_is_sent_on(project_id, inbox, at) implies emitted.contains(at) by {
            if at == 0 {
                assert(emitted[0] == 0);
            } else {
                assert(!(inbox[0] is Closed) && !(inbox[0] is Shutdown));
                assert forall|i: int| 0 <= i < at - 1 && i < rest.len() implies !((
                #[trigger] rest[i]) is Closed) && !(rest[i] is Shutdown) by {
                    assert(rest[i] == inbox[i + 1]);
                }
                assert(rest[at - 1] == inbox[at]);
                assert(spec_is_sent_on(project_id, rest, at - 1));
                let k = choose|k: int| 0 <= k < inner.len() && inner[k] == at - 1;
                assert(later[k] == at);
                if first is Emit {
                    assert(emitted[k + 1] == at);
                } else {
                    assert(emitted[k] == at);
                }
            }
        }
    }
}

/// A gap changes nothing in what the stream sends on of the receipts that follow it.
pub proof fn lemma_stream_goes_on_after_a_gap(
    project_id: i32,
    missed: u64,
    after: Seq<ReceivedView>,
)
    ensures
        spec_emitted_at(project_id, seq![ReceivedView::Lagged(missed)] + after)
            == spec_emitted_at(project_id, after).map_values(|at: int| at + 1),
{
    let inbox = seq![ReceivedView::Lagged(missed)] + after;
    assert(inbox.drop_first() =~= after);
}

} // verus!
