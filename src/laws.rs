use vstd::prelude::*;
use crate::acquirer::{AcquireStep, AcquirerModel};
use crate::ready_set::ReadySetModel;
use crate::renderer::{action_for, Action, Key, RendererModel};
use crate::shutdown::{shutdown_next, ShutdownStage};

verus! {

/// A change that the slideshow sees: an item appended to the ready set, a key
/// press, or a tick at a given time.
pub ghost enum ShowEvent {
    Append(String),
    Press(Key),
    Tick(nat),
}

/// The ready set and renderer after `events`, in order; a tick advances over
/// the length of the set as it stands at that moment.
pub open spec fn replay_show(
    set: ReadySetModel,
    r: RendererModel,
    events: Seq<ShowEvent>,
) -> (ReadySetModel, RendererModel)
    decreases events.len(),
{
    if events.len() == 0 {
        (set, r)
    } else {
        let (set1, r1) = match events[0] {
            ShowEvent::Append(item) => (set.append(item), r),
            ShowEvent::Press(k) => (set, r.after_key(k)),
            ShowEvent::Tick(now) => (set, r.after_tick(set.items.len(), now)),
        };
        replay_show(set1, r1, events.drop_first())
    }
}

/// The ready set after appending `xs`, in order.
pub open spec fn appends(set: ReadySetModel, xs: Seq<String>) -> ReadySetModel
    decreases xs.len(),
{
    if xs.len() == 0 {
        set
    } else {
        appends(set, xs.drop_last()).append(xs.last())
    }
}

/// A set that holds only the placeholder `p`.
pub open spec fn placeholder_set(p: String) -> ReadySetModel {
    ReadySetModel { items: seq![p], placeholder: true }
}

/// An append never shrinks a well-formed set and keeps it well formed.
pub proof fn lemma_append_grows(set: ReadySetModel, item: String)
    requires
        set.wf(),
    ensures
        set.append(item).wf(),
        set.append(item).items.len() >= set.items.len(),
{
}

/// Whatever items are appended and however often the slideshow ticks, the
/// ready set is never empty and the cursor stays inside it.
pub proof fn lemma_cursor_in_range(set: ReadySetModel, r: RendererModel, events: Seq<ShowEvent>)
    requires
        set.wf(),
        r.cursor < set.items.len(),
    ensures
        replay_show(set, r, events).0.wf(),
        replay_show(set, r, events).1.cursor < replay_show(set, r, events).0.items.len(),
    decreases events.len(),
{
    if events.len() > 0 {
        match events[0] {
            ShowEvent::Append(item) => {
                lemma_append_grows(set, item);
                lemma_cursor_in_range(set.append(item), r, events.drop_first());
            },
            ShowEvent::Press(k) => {
                lemma_cursor_in_range(set, r.after_key(k), events.drop_first());
            },
            ShowEvent::Tick(now) => {
                lemma_cursor_in_range(
                    set,
                    r.after_tick(set.items.len(), now),
                    events.drop_first(),
                );
            },
        }
    }
}

/// Starting from the placeholder alone, the placeholder stays exactly as long
/// as nothing was appended, and goes with the first real item: after appending
/// `xs` the set holds the placeholder if `xs` is empty and exactly `xs`
/// otherwise, and is never empty.
pub proof fn lemma_placeholder_evicted_once(p: String, xs: Seq<String>)
    ensures
        appends(placeholder_set(p), xs).wf(),
        appends(placeholder_set(p), xs).placeholder <==> xs.len() == 0,
        xs.len() == 0 ==> appends(placeholder_set(p), xs).items == seq![p],
        xs.len() > 0 ==> appends(placeholder_set(p), xs).items == xs,
    decreases xs.len(),
{
    if xs.len() > 0 {
        lemma_placeholder_evicted_once(p, xs.drop_last());
        if xs.len() == 1 {
            assert(xs =~= seq![xs.last()]);
        } else {
            assert(xs =~= xs.drop_last().push(xs.last()));
        }
    }
}

/// Appending `xs` to a well-formed set adds exactly `xs` after the real items
/// already there, in the order appended: nothing is reordered, repeated or
/// lost.
pub proof fn lemma_appends_keep_order(set: ReadySetModel, xs: Seq<String>)
    requires
        set.wf(),
    ensures
        appends(set, xs).wf(),
        appends(set, xs).real_items() == set.real_items() + xs,
    decreases xs.len(),
{
    if xs.len() == 0 {
        assert(set.real_items() + xs =~= set.real_items());
    } else {
        lemma_appends_keep_order(set, xs.drop_last());
        let before = appends(set, xs.drop_last());
        assert(xs =~= xs.drop_last().push(xs.last()));
        if before.placeholder {
            assert(set.real_items() + xs.drop_last() =~= Seq::<String>::empty());
            assert(set.real_items() + xs =~= seq![xs.last()]);
        } else {
            assert(set.real_items() + xs =~= (set.real_items() + xs.drop_last()).push(xs.last()));
        }
    }
}

/// The toggle key flips the display mode and leaves the cursor and the tick
/// clock alone; between ticks, the pass of the loop that handles it redraws at
/// once in the new mode without advancing.
pub proof fn lemma_toggle_keeps_cursor(r: RendererModel, len: nat, now: nat)
    ensures
        r.after_key(Key::Toggle).cursor == r.cursor,
        r.after_key(Key::Toggle).last_tick_ms == r.last_tick_ms,
        r.after_key(Key::Toggle).mode == r.mode.flipped(),
        !r.tick_due(now) ==> r.after_step(Some(Key::Toggle), len, now) == r.after_key(Key::Toggle),
        action_for(Some(Key::Toggle)) == Action::Draw,
{
}

/// Two toggles between ticks bring the mode back to where it was, each one
/// redrawing once, with neither the cursor nor the tick clock moved.
pub proof fn lemma_double_toggle(r: RendererModel, len: nat, now1: nat, now2: nat)
    requires
        !r.tick_due(now1),
        !r.tick_due(now2),
    ensures
        r.after_step(Some(Key::Toggle), len, now1).after_step(Some(Key::Toggle), len, now2) == r,
        action_for(Some(Key::Toggle)) == Action::Draw,
{
    let r1 = r.after_step(Some(Key::Toggle), len, now1);
    assert(r1.tick_due(now2) == r.tick_due(now2));
}

/// A step of the acquisition task: asking for the next step with the stop
/// signal as read, handing over a produced item, or reporting a failure.
pub ghost enum AcquireEvent {
    Begin(bool),
    Complete(String),
    Fail,
}

/// The task and the ready set after `events`, in order.
pub open spec fn replay_acquire(
    a: AcquirerModel,
    set: ReadySetModel,
    events: Seq<AcquireEvent>,
) -> (AcquirerModel, ReadySetModel)
    decreases events.len(),
{
    if events.len() == 0 {
        (a, set)
    } else {
        let (a1, set1) = match events[0] {
            AcquireEvent::Begin(stop) => (a.after_begin(stop), set),
            AcquireEvent::Complete(item) => (a.after_complete(), a.set_after_complete(set, item)),
            AcquireEvent::Fail => (a.after_fail(), set),
        };
        replay_acquire(a1, set1, events.drop_first())
    }
}

/// Once the stop signal is seen at the start of an iteration, no item is
/// begun: the task is finished at once, and whatever happens afterwards appends
/// nothing and produces no further item.
pub proof fn lemma_stop_ends_acquisition(
    a: AcquirerModel,
    set: ReadySetModel,
    events: Seq<AcquireEvent>,
)
    ensures
        a.begin_step(true) == AcquireStep::Finish,
        a.after_begin(true).finished(),
        replay_acquire(a.after_begin(true), set, events).1 == set,
        replay_acquire(a.after_begin(true), set, events).0.next == a.next,
        replay_acquire(a.after_begin(true), set, events).0.finished(),
    decreases events.len(),
{
    lemma_finished_is_final(a.after_begin(true), set, events);
}

/// A finished task stays as it is and leaves the set alone.
pub proof fn lemma_finished_is_final(a: AcquirerModel, set: ReadySetModel, events: Seq<AcquireEvent>)
    requires
        a.finished(),
    ensures
        replay_acquire(a, set, events) == (a, set),
    decreases events.len(),
{
    if events.len() > 0 {
        lemma_finished_is_final(a, set, events.drop_first());
    }
}

/// The shutdown stage after the coordinator was asked once for each reading in
/// `readings`, each a pair of whether acquisition reported itself finished and
/// whether its task had terminated.
pub open spec fn replay_shutdown(stage: ShutdownStage, readings: Seq<(bool, bool)>) -> ShutdownStage
    decreases readings.len(),
{
    if readings.len() == 0 {
        stage
    } else {
        replay_shutdown(
            shutdown_next(stage, readings[0].0, readings[0].1).0,
            readings.drop_first(),
        )
    }
}

/// The process is let go only once the acquisition task has terminated: from
/// the start of the handshake, whenever the coordinator has reached the stage
/// from which it says exit, some reading along the way saw the task
/// terminated.
pub proof fn lemma_exit_only_after_termination(readings: Seq<(bool, bool)>)
    ensures
        replay_shutdown(ShutdownStage::Begun, readings) == ShutdownStage::Done ==> exists|i: int|
            0 <= i < readings.len() && #[trigger] readings[i].1,
{
    lemma_done_needs_termination(ShutdownStage::Begun, readings);
}

/// Reaching the last stage from any earlier one needs a terminated reading.
pub proof fn lemma_done_needs_termination(stage: ShutdownStage, readings: Seq<(bool, bool)>)
    ensures
        stage != ShutdownStage::Done && replay_shutdown(stage, readings) == ShutdownStage::Done
            ==> exists|i: int| 0 <= i < readings.len() && #[trigger] readings[i].1,
    decreases readings.len(),
{
    if readings.len() > 0 {
        let next = shutdown_next(stage, readings[0].0, readings[0].1).0;
        lemma_done_needs_termination(next, readings.drop_first());
        if stage != ShutdownStage::Done && replay_shutdown(stage, readings) == ShutdownStage::Done {
            if !readings[0].1 {
                assert(next != ShutdownStage::Done);
                let i = choose|i: int| 0 <= i < readings.drop_first().len() && #[trigger] readings.drop_first()[i].1;
                assert(readings[i + 1].1);
            } else {
                assert(readings[0].1);
            }
        }
    }
}

} // verus!
