//! Runs of events: what a bridge has become after a whole sequence of
//! dispatches, and what holds of every such run.

use crate::bridge::BridgeModel;
use crate::event::{Action, Outcome, PlatformEvent, outcome_of};
use crate::window::{ResizeEvent, WindowId};
use vstd::prelude::*;

verus! {

impl BridgeModel {
    /// The bridge after every event of `events`, dispatched in order.
    pub open spec fn run(self, events: Seq<PlatformEvent>) -> Self
        decreases events.len(),
    {
        if events.len() == 0 {
            self
        } else {
            self.run(events.drop_last()).step(events.last())
        }
    }
}

/// The record that the window `id` queues for the resize `event`.
pub open spec fn record_of(id: WindowId, event: PlatformEvent) -> ResizeEvent
    recommends
        event is Resize,
{
    ResizeEvent { id, width: event->width, height: event->height }
}

/// The resizes among `events`, in their order.
pub open spec fn resizes(events: Seq<PlatformEvent>) -> Seq<PlatformEvent> {
    events.filter(|e: PlatformEvent| e is Resize)
}

/// The records that the window `id` queues over `events`: one for each
/// resize, in the order of the resizes.
pub open spec fn resize_records(id: WindowId, events: Seq<PlatformEvent>) -> Seq<ResizeEvent> {
    resizes(events).map_values(|e: PlatformEvent| record_of(id, e))
}

/// The answers to `events`, one for each, in order.
pub open spec fn answers(single_poll: bool, events: Seq<PlatformEvent>) -> Seq<Outcome> {
    events.map_values(|e: PlatformEvent| outcome_of(single_poll, e))
}

/// A run changes neither the window's identity nor its title, nor the
/// bridge's mode.
pub proof fn lemma_run_keeps_identity(s: BridgeModel, events: Seq<PlatformEvent>)
    ensures
        s.run(events).window.id == s.window.id,
        s.run(events).window.title == s.window.title,
        s.run(events).single_poll == s.single_poll,
    decreases events.len(),
{
    if events.len() > 0 {
        lemma_run_keeps_identity(s, events.drop_last());
    }
}

/// One dispatch keeps a well-formed bridge well-formed.
pub proof fn lemma_step_keeps_wf(s: BridgeModel, event: PlatformEvent)
    requires
        s.wf(),
    ensures
        s.step(event).wf(),
{
}

/// A run keeps a well-formed bridge well-formed: whatever was dispatched,
/// every pending record names the window, and the newest carries its size.
pub proof fn lemma_run_keeps_wf(s: BridgeModel, events: Seq<PlatformEvent>)
    requires
        s.wf(),
    ensures
        s.run(events).wf(),
    decreases events.len(),
{
    if events.len() > 0 {
        lemma_run_keeps_wf(s, events.drop_last());
        lemma_step_keeps_wf(s.run(events.drop_last()), events.last());
    }
}

/// After a run, the window has the size of the last resize in it: if
/// `events[last]` is a resize and none follows it, the window is as wide and
/// as high as that event says. So a frame started by an `EventsDrained` at
/// the end of `events` sees every resize that came before it.
pub proof fn lemma_size_is_last_resize(s: BridgeModel, events: Seq<PlatformEvent>, last: int)
    requires
        0 <= last < events.len(),
        events[last] is Resize,
        forall|j: int| last < j < events.len() ==> !(#[trigger] events[j] is Resize),
    ensures
        s.run(events).window.width == events[last]->width,
        s.run(events).window.height == events[last]->height,
    decreases events.len(),
{
    if last < events.len() - 1 {
        let init = events.drop_last();
        assert(!(events[events.len() - 1] is Resize));
        assert(forall|j: int| last < j < init.len() ==> !(#[trigger] init[j] is Resize)) by {
            assert(forall|j: int| 0 <= j < init.len() ==> init[j] == events[j]);
        }
        lemma_size_is_last_resize(s, init, last);
    }
}

/// After a run of resizes only, the window has the size of the last of them.
pub proof fn lemma_resizes_end_at_last(s: BridgeModel, events: Seq<PlatformEvent>)
    requires
        events.len() > 0,
        forall|i: int| 0 <= i < events.len() ==> #[trigger] events[i] is Resize,
    ensures
        s.run(events).window.width == events.last()->width,
        s.run(events).window.height == events.last()->height,
{
    lemma_size_is_last_resize(s, events, events.len() - 1);
}

/// A run without a resize changes nothing.
pub proof fn lemma_no_resize_no_change(s: BridgeModel, events: Seq<PlatformEvent>)
    requires
        forall|i: int| 0 <= i < events.len() ==> !(#[trigger] events[i] is Resize),
    ensures
        s.run(events) == s,
    decreases events.len(),
{
    if events.len() > 0 {
        let init = events.drop_last();
        assert(!(events[events.len() - 1] is Resize));
        assert(forall|i: int| 0 <= i < init.len() ==> !(#[trigger] init[i] is Resize)) by {
            assert(forall|i: int| 0 <= i < init.len() ==> init[i] == events[i]);
        }
        lemma_no_resize_no_change(s, init);
    }
}

/// A run queues exactly one record for each resize in it, in order and
/// behind what was pending, each with the window's identity and the size of
/// its resize.
pub proof fn lemma_run_queues_each_resize(s: BridgeModel, events: Seq<PlatformEvent>)
    ensures
        s.run(events).pending == s.pending + resize_records(s.window.id, events),
        s.run(events).pending.len() == s.pending.len() + resizes(events).len(),
    decreases events.len(),
{
    reveal(Seq::filter);
    let id = s.window.id;
    if events.len() == 0 {
        assert(s.run(events).pending =~= s.pending + resize_records(id, events));
    } else {
        let init = events.drop_last();
        let last = events.last();
        lemma_run_queues_each_resize(s, init);
        lemma_run_keeps_identity(s, init);
        if last is Resize {
            assert(resizes(events) == resizes(init).push(last));
            assert(resize_records(id, events) =~= resize_records(id, init).push(
                record_of(id, last),
            ));
            assert(s.run(events).pending =~= s.pending + resize_records(id, events));
        } else {
            assert(resizes(events) == resizes(init));
        }
    }
}

/// Counted from the last time the records were taken, as many records are
/// pending as resizes were dispatched.
pub proof fn lemma_pending_counts_resizes(s: BridgeModel, events: Seq<PlatformEvent>)
    ensures
        s.drained().run(events).pending == resize_records(s.window.id, events),
        s.drained().run(events).pending.len() == resizes(events).len(),
{
    lemma_run_queues_each_resize(s.drained(), events);
    assert(Seq::<ResizeEvent>::empty() + resize_records(s.window.id, events)
        =~= resize_records(s.window.id, events));
}

/// Over any run, the engine is asked to update once for each `EventsDrained`
/// and never for another event: the answer to an event asks for an update
/// exactly if the event is `EventsDrained`, and so the answers that ask for
/// one are as many as the `EventsDrained` among the events.
pub proof fn lemma_one_update_per_drain(single_poll: bool, events: Seq<PlatformEvent>)
    ensures
        answers(single_poll, events).len() == events.len(),
        forall|i: int|
            0 <= i < events.len() ==> ((#[trigger] answers(single_poll, events)[i]).action
                == Action::Update <==> events[i] == PlatformEvent::EventsDrained),
        answers(single_poll, events).filter(|o: Outcome| o.action == Action::Update).len()
            == events.filter(|e: PlatformEvent| e == PlatformEvent::EventsDrained).len(),
    decreases events.len(),
{
    reveal(Seq::filter);
    if events.len() > 0 {
        let init = events.drop_last();
        lemma_one_update_per_drain(single_poll, init);
        assert(answers(single_poll, events).drop_last() =~= answers(single_poll, init));
    }
}

} // verus!
