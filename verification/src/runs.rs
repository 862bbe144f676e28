//! Laws over whole runs of the coordinator.
//!
//! [`crate::laws`] speaks about single steps; this module folds
//! [`spec_step`] over an event sequence and proves the redraw guarantee in
//! its history-dependent form: a redraw happens exactly when the triple is
//! complete and a display field changed since the last redraw.

use vstd::prelude::*;

use crate::commands::CommandModel;
use crate::coordinator::{spec_step, CoordinatorModel};
use crate::events::EventModel;
use crate::laws::lemma_render_iff_complete_and_changed;

verus! {

/// The three fields the screen shows.
pub open spec fn spec_triple(s: CoordinatorModel) -> (
    Option<Seq<char>>,
    Option<Seq<char>>,
    Option<Seq<char>>,
) {
    (s.bench, s.software, s.description)
}

/// The state after a whole event sequence, one step per event, in order.
pub open spec fn spec_run(s: CoordinatorModel, events: Seq<EventModel>) -> CoordinatorModel
    decreases events.len(),
{
    if events.len() == 0 {
        s
    } else {
        spec_run(spec_step(s, events[0]).0, events.drop_first())
    }
}

/// Whether a command sequence orders a redraw.
pub open spec fn spec_orders_render(cmds: Seq<CommandModel>) -> bool {
    exists|k: int| 0 <= k < cmds.len() && cmds[k] is Render
}

/// The state a run reaches just before step `i`.
pub open spec fn spec_state_at(
    s0: CoordinatorModel,
    events: Seq<EventModel>,
    i: int,
) -> CoordinatorModel {
    spec_run(s0, events.take(i))
}

/// Whether step `i` of a run orders a redraw.
pub open spec fn spec_renders_at(s0: CoordinatorModel, events: Seq<EventModel>, i: int) -> bool {
    spec_orders_render(spec_step(spec_state_at(s0, events, i), events[i]).1)
}

/// Whether step `i` of a run changes one of the three display fields.
pub open spec fn spec_changes_at(s0: CoordinatorModel, events: Seq<EventModel>, i: int) -> bool {
    spec_triple(spec_state_at(s0, events, i + 1)) != spec_triple(spec_state_at(s0, events, i))
}

/// The last step before `i` that ordered a redraw; -1 when none did yet.
pub open spec fn spec_last_render_before(
    s0: CoordinatorModel,
    events: Seq<EventModel>,
    i: int,
) -> int
    decreases i,
{
    if i <= 0 {
        -1
    } else if spec_renders_at(s0, events, i - 1) {
        i - 1
    } else {
        spec_last_render_before(s0, events, i - 1)
    }
}

/// The last redraw before step `i` lies before `i`, or there is none.
proof fn lemma_last_render_before_bounds(s0: CoordinatorModel, events: Seq<EventModel>, i: int)
    requires
        0 <= i,
    ensures
        -1 <= spec_last_render_before(s0, events, i) < i,
    decreases i,
{
    if i > 0 && !spec_renders_at(s0, events, i - 1) {
        lemma_last_render_before_bounds(s0, events, i - 1);
    }
}

/// Extending a run by one event is one step on its final state.
proof fn lemma_run_snoc(s: CoordinatorModel, events: Seq<EventModel>, e: EventModel)
    ensures
        spec_run(s, events.push(e)) == spec_step(spec_run(s, events), e).0,
    decreases events.len(),
{
    reveal_with_fuel(spec_run, 2);
    if events.len() == 0 {
        assert(events.push(e)[0] == e);
        assert(events.push(e).drop_first() =~= Seq::<EventModel>::empty());
    } else {
        assert(events.push(e)[0] == events[0]);
        assert(events.push(e).drop_first() =~= events.drop_first().push(e));
        lemma_run_snoc(spec_step(s, events[0]).0, events.drop_first(), e);
    }
}

/// The state before step `i + 1` is one step past the state before `i`.
proof fn lemma_state_at_step(s0: CoordinatorModel, events: Seq<EventModel>, i: int)
    requires
        0 <= i < events.len(),
    ensures
        spec_state_at(s0, events, i + 1) == spec_step(spec_state_at(s0, events, i), events[i]).0,
{
    assert(events.take(i + 1) =~= events.take(i).push(events[i]));
    lemma_run_snoc(s0, events.take(i), events[i]);
}

/// Well-formedness carries through a whole run.
pub proof fn lemma_run_preserves_wf(s: CoordinatorModel, events: Seq<EventModel>)
    requires
        s.wf(),
    ensures
        spec_run(s, events).wf(),
    decreases events.len(),
{
    if events.len() > 0 {
        lemma_run_preserves_wf(spec_step(s, events[0]).0, events.drop_first());
    }
}

/// A step changes the state exactly when it changes the display triple:
/// the binding table only ever moves together with the bench field.
proof fn lemma_change_is_triple_change(s: CoordinatorModel, e: EventModel)
    requires
        s.wf(),
    ensures
        spec_step(s, e).0 != s <==> spec_triple(spec_step(s, e).0) != spec_triple(s),
{
}

/// While the triple is complete, every change since the last redraw
/// happened at the redraw itself: a complete state never carries an
/// unseen change.
proof fn lemma_complete_means_settled(s0: CoordinatorModel, events: Seq<EventModel>, i: int)
    requires
        s0.wf(),
        !s0.complete(),
        0 <= i <= events.len(),
    ensures
        spec_state_at(s0, events, i).complete() ==> forall|j: int|
            spec_last_render_before(s0, events, i) < j < i ==> !spec_changes_at(s0, events, j),
    decreases i,
{
    if i == 0 {
        assert(events.take(0) =~= Seq::<EventModel>::empty());
    } else {
        lemma_complete_means_settled(s0, events, i - 1);
        lemma_state_at_step(s0, events, i - 1);
        lemma_run_preserves_wf(s0, events.take(i - 1));
        let s_prev = spec_state_at(s0, events, i - 1);
        let s_cur = spec_state_at(s0, events, i);
        if spec_renders_at(s0, events, i - 1) {
            assert(spec_last_render_before(s0, events, i) == i - 1);
        } else if s_cur.complete() {
            lemma_render_iff_complete_and_changed(s_prev, events[i - 1]);
            assert(s_cur == s_prev);
            lemma_change_is_triple_change(s_prev, events[i - 1]);
            assert(!spec_changes_at(s0, events, i - 1));
            assert(spec_last_render_before(s0, events, i) == spec_last_render_before(
                s0,
                events,
                i - 1,
            ));
        }
    }
}

/// The redraw guarantee over any run from a fresh session state: step `i`
/// orders a redraw exactly when all three display fields are set after it
/// and at least one of them changed since the last redraw — since the
/// start of the session when no redraw happened yet.
pub proof fn lemma_render_iff_dirty(s0: CoordinatorModel, events: Seq<EventModel>, i: int)
    requires
        s0.wf(),
        !s0.complete(),
        0 <= i < events.len(),
    ensures
        spec_renders_at(s0, events, i) <==> (spec_state_at(s0, events, i + 1).complete()
            && exists|j: int|
            spec_last_render_before(s0, events, i) < j <= i && spec_changes_at(s0, events, j)),
{
    lemma_run_preserves_wf(s0, events.take(i));
    lemma_state_at_step(s0, events, i);
    let s_i = spec_state_at(s0, events, i);
    let s_next = spec_state_at(s0, events, i + 1);
    lemma_render_iff_complete_and_changed(s_i, events[i]);
    lemma_change_is_triple_change(s_i, events[i]);
    if spec_renders_at(s0, events, i) {
        lemma_last_render_before_bounds(s0, events, i);
        assert(spec_changes_at(s0, events, i));
        assert(spec_last_render_before(s0, events, i) < i <= i && spec_changes_at(s0, events, i));
    } else if s_next.complete() {
        assert(s_next == s_i);
        lemma_complete_means_settled(s0, events, i + 1);
        assert(spec_last_render_before(s0, events, i + 1) == spec_last_render_before(
            s0,
            events,
            i,
        ));
        assert(forall|j: int|
            spec_last_render_before(s0, events, i) < j <= i ==> !spec_changes_at(s0, events, j));
    }
}

} // verus!
