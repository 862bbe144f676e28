//! Laws of the coordinator, proved once and for all over [`spec_step`].
//!
//! Each proof function states one guarantee of the state machine for every
//! well-formed state and every event, not merely for chosen values.

use vstd::prelude::*;

use crate::commands::CommandModel;
use crate::coordinator::{spec_rebind, spec_step, CoordinatorModel};
use crate::events::EventModel;
use crate::topics::{spec_description_topic, spec_software_topic};

verus! {

/// Every step keeps the state well-formed.
pub proof fn lemma_step_preserves_wf(s: CoordinatorModel, e: EventModel)
    requires
        s.wf(),
    ensures
        spec_step(s, e).0.wf(),
{
}

/// A display field changes exactly when the payload differs from the value
/// stored for that purpose: a message on the active description binding
/// leaves the state untouched and orders nothing if it repeats the stored
/// description, and otherwise changes the description field and nothing
/// else.
pub proof fn lemma_description_change_iff_differs(
    s: CoordinatorModel,
    topic: Seq<char>,
    payload: Seq<char>,
)
    requires
        s.wf(),
        topic != s.bench_topic,
        s.description_topic == Some(topic),
    ensures
        s.description == Some(payload) ==> spec_step(s, EventModel::Received(topic, payload)) == (
            s,
            Seq::<CommandModel>::empty(),
        ),
        s.description != Some(payload) ==> spec_step(s, EventModel::Received(topic, payload)).0
            == (CoordinatorModel { description: Some(payload), ..s }),
{
}

/// The software counterpart of
/// [`lemma_description_change_iff_differs`]: the software field changes
/// exactly when the payload differs from the stored value.
pub proof fn lemma_software_change_iff_differs(
    s: CoordinatorModel,
    topic: Seq<char>,
    payload: Seq<char>,
)
    requires
        s.wf(),
        topic != s.bench_topic,
        s.description_topic != Some(topic),
        s.software_topic == Some(topic),
    ensures
        s.software == Some(payload) ==> spec_step(s, EventModel::Received(topic, payload)) == (
            s,
            Seq::<CommandModel>::empty(),
        ),
        s.software != Some(payload) ==> spec_step(s, EventModel::Received(topic, payload)).0 == (
            CoordinatorModel { software: Some(payload), ..s }
        ),
{
}

/// Processing any received message twice in a row is the same as
/// processing it once: the second occurrence leaves the state untouched
/// and orders no command at all.
pub proof fn lemma_received_idempotent(s: CoordinatorModel, topic: Seq<char>, payload: Seq<char>)
    requires
        s.wf(),
    ensures
        ({
            let s1 = spec_step(s, EventModel::Received(topic, payload)).0;
            spec_step(s1, EventModel::Received(topic, payload)) == (
                s1,
                Seq::<CommandModel>::empty(),
            )
        }),
{
}

/// Receiving the bound bench identity again produces no further
/// subscribe or unsubscribe cycle: after a bench identity was processed,
/// its repetition is a no-op.
pub proof fn lemma_bench_repeat_no_cycle(s: CoordinatorModel, id: Seq<char>)
    requires
        s.wf(),
    ensures
        ({
            let s1 = spec_step(s, EventModel::Received(s.bench_topic, id)).0;
            spec_step(s1, EventModel::Received(s.bench_topic, id)) == (
                s1,
                Seq::<CommandModel>::empty(),
            )
        }),
{
}

/// A bench change from a bound identifier to a different one orders
/// exactly: unsubscribe the old description channel, unsubscribe the old
/// software channel, subscribe the new description channel, subscribe the
/// new software channel — the teardown strictly before the new
/// subscriptions.
pub proof fn lemma_bench_change_order(s: CoordinatorModel, id: Seq<char>)
    requires
        s.wf(),
        s.bench is Some,
        s.bench != Some(id),
    ensures
        ({
            let old_id = s.bench.unwrap();
            spec_step(s, EventModel::Received(s.bench_topic, id)).1 =~= seq![
                CommandModel::Unsubscribe(spec_description_topic(old_id)),
                CommandModel::Unsubscribe(spec_software_topic(old_id)),
                CommandModel::Subscribe(spec_description_topic(id)),
                CommandModel::Subscribe(spec_software_topic(id)),
            ]
        }),
        forall|i: int, j: int|
            0 <= i < spec_step(s, EventModel::Received(s.bench_topic, id)).1.len() && 0 <= j
                < spec_step(s, EventModel::Received(s.bench_topic, id)).1.len() && spec_step(
                s,
                EventModel::Received(s.bench_topic, id),
            ).1[i] is Unsubscribe && spec_step(s, EventModel::Received(s.bench_topic, id)).1[j]
                is Subscribe ==> i < j,
{
    assert(spec_step(s, EventModel::Received(s.bench_topic, id)).1 =~= seq![
        CommandModel::Unsubscribe(spec_description_topic(s.bench.unwrap())),
        CommandModel::Unsubscribe(spec_software_topic(s.bench.unwrap())),
        CommandModel::Subscribe(spec_description_topic(id)),
        CommandModel::Subscribe(spec_software_topic(id)),
    ]);
}

/// A redraw is ordered by a step exactly when the step changed a display
/// field and afterwards all three fields are set; the redraw then shows
/// precisely the new triple, and it is the only command of that step.
pub proof fn lemma_render_iff_complete_and_changed(s: CoordinatorModel, e: EventModel)
    requires
        s.wf(),
    ensures
        ({
            let (s1, cmds) = spec_step(s, e);
            ((exists|i: int| 0 <= i < cmds.len() && cmds[i] is Render) <==> (s1.complete() && s1
                != s)) && ((s1.complete() && s1 != s) ==> cmds =~= seq![
                CommandModel::Render {
                    bench: s1.bench.unwrap(),
                    software: s1.software.unwrap(),
                    description: s1.description.unwrap(),
                },
            ])
        }),
{
    let (s1, cmds) = spec_step(s, e);
    match e {
        EventModel::Connected => {
            assert(s1 == s);
            assert(forall|i: int| 0 <= i < cmds.len() ==> !(cmds[i] is Render));
        },
        EventModel::Received(topic, payload) => {
            if topic == s.bench_topic {
                if s.bench == Some(payload) {
                } else {
                    assert(s1 == spec_rebind(s, payload).0);
                    assert(!s1.complete());
                    assert(forall|i: int| 0 <= i < cmds.len() ==> !(cmds[i] is Render));
                }
            } else if s.description_topic == Some(topic) {
                if s.description != Some(payload) {
                    assert(s1 != s);
                    if s1.complete() {
                        assert(cmds[0] is Render);
                    }
                }
            } else if s.software_topic == Some(topic) {
                if s.software != Some(payload) {
                    assert(s1 != s);
                    if s1.complete() {
                        assert(cmds[0] is Render);
                    }
                }
            } else {
            }
        },
    }
}

/// One `Connected` event orders exactly one subscription to the bootstrap
/// bench channel followed by exactly one publish of the device address,
/// marked retained, and leaves the state untouched.
pub proof fn lemma_connected_commands(s: CoordinatorModel)
    requires
        s.wf(),
    ensures
        spec_step(s, EventModel::Connected).0 == s,
        spec_step(s, EventModel::Connected).1 =~= seq![
            CommandModel::Subscribe(s.bench_topic),
            CommandModel::Publish { topic: s.ip_topic, payload: s.ip, retained: true },
        ],
        forall|i: int|
            0 <= i < spec_step(s, EventModel::Connected).1.len() ==> (spec_step(
                s,
                EventModel::Connected,
            ).1[i] is Publish <==> i == 1),
{
}

/// A message on a channel matching neither the bootstrap channel nor an
/// active binding is discarded: no state change and no command.
pub proof fn lemma_unmatched_discarded(s: CoordinatorModel, topic: Seq<char>, payload: Seq<char>)
    requires
        s.wf(),
        topic != s.bench_topic,
        s.description_topic != Some(topic),
        s.software_topic != Some(topic),
    ensures
        spec_step(s, EventModel::Received(topic, payload)) == (s, Seq::<CommandModel>::empty()),
{
}

} // verus!
