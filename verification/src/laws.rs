use vstd::prelude::*;
use crate::engine::{
    spec_fetch_error_log, spec_filter_for, spec_item_error_log, spec_parse_error_log, spec_step,
    ActionView, EventView, ItemStage, Mode, PhaseView, StepOutputView,
};
use crate::instance::{spec_composite, spec_parse_composite, InstanceIdView};
use crate::model::{NotificationView, OutboundInviteNotificationView, RequestError};
use crate::requests::{
    spec_accept_request, spec_hide_request, spec_invite_request, spec_list_request,
    RequestBodyView,
};
use crate::wire::NotificationType;

verus! {

/// Run the engine over a whole sequence of events, collecting the phase it
/// ends in and the output of every step, in order.
pub open spec fn spec_run(m: Mode, phase: PhaseView, evs: Seq<EventView>) -> (
    PhaseView,
    Seq<StepOutputView>,
)
    decreases evs.len(),
{
    if evs.len() == 0 {
        (phase, Seq::empty())
    } else {
        let first = spec_step(m, phase, evs[0]);
        let rest = spec_run(m, first.0, evs.drop_first());
        (rest.0, seq![first.1] + rest.1)
    }
}

/// accept mode, from item `idx` on: however each accept call turns out, the
/// cycle walks the remaining items one by one — a failed item is reported in
/// that step's log and the next item is still dispatched — and ends sleeping.
pub proof fn lemma_accept_items_from(
    items: Seq<NotificationView>,
    idx: int,
    outcomes: Seq<EventView>,
)
    requires
        0 <= idx < items.len(),
        outcomes.len() == items.len() - idx,
        forall|i: int|
            0 <= i < outcomes.len() ==> outcomes[i] is ActionOk || outcomes[i] is ActionFailed,
    ensures
        ({
            let r = spec_run(
                Mode::Accept,
                PhaseView::Acting { items, idx, stage: ItemStage::Accepting },
                outcomes,
            );
            &&& r.0 == PhaseView::Sleeping
            &&& r.1.len() == outcomes.len()
            &&& forall|j: int|
                0 <= j < outcomes.len() - 1 ==> (#[trigger] r.1[j]).action == ActionView::Dispatch(
                    spec_accept_request(items[idx + 1 + j].id),
                )
            &&& r.1[outcomes.len() - 1].action == ActionView::Sleep
            &&& forall|j: int|
                0 <= j < outcomes.len() && outcomes[j] is ActionFailed ==> (#[trigger] r.1[j]).logs[0]
                    == spec_item_error_log(outcomes[j]->ActionFailed_0)
        }),
    decreases outcomes.len(),
{
    let r = spec_run(
        Mode::Accept,
        PhaseView::Acting { items, idx, stage: ItemStage::Accepting },
        outcomes,
    );
    let first = spec_step(
        Mode::Accept,
        PhaseView::Acting { items, idx, stage: ItemStage::Accepting },
        outcomes[0],
    );
    if idx + 1 == items.len() {
        assert(outcomes.len() == 1);
        assert(first.0 == PhaseView::Sleeping);
        assert(outcomes.drop_first().len() == 0);
        assert(spec_run(Mode::Accept, first.0, outcomes.drop_first()).1
            == Seq::<StepOutputView>::empty());
        assert(r.1 =~= seq![first.1]);
    } else {
        let rest_outcomes = outcomes.drop_first();
        assert(forall|i: int|
            0 <= i < rest_outcomes.len() ==> rest_outcomes[i] is ActionOk
                || rest_outcomes[i] is ActionFailed);
        lemma_accept_items_from(items, idx + 1, rest_outcomes);
        let rr = spec_run(Mode::Accept, first.0, rest_outcomes);
        assert(r.1 =~= seq![first.1] + rr.1);
        assert(forall|j: int|
            1 <= j < outcomes.len() ==> r.1[j] == rr.1[j - 1] && outcomes[j] == rest_outcomes[j
                - 1]);
    }
}

/// accept mode, one full cycle: a fetched list of items leads to exactly one
/// accept request per item, in list order, whatever the outcome of every
/// single call; each failure is reported in the following step's log; the
/// cycle ends sleeping. One bad item never aborts the rest of the batch.
pub proof fn lemma_accept_cycle_processes_all(
    items: Seq<NotificationView>,
    outcomes: Seq<EventView>,
)
    requires
        outcomes.len() == items.len(),
        forall|i: int|
            0 <= i < outcomes.len() ==> outcomes[i] is ActionOk || outcomes[i] is ActionFailed,
    ensures
        ({
            let r = spec_run(
                Mode::Accept,
                PhaseView::Fetching,
                seq![EventView::FetchOk(items)] + outcomes,
            );
            &&& r.0 == PhaseView::Sleeping
            &&& r.1.len() == items.len() + 1
            &&& forall|i: int|
                0 <= i < items.len() ==> (#[trigger] r.1[i]).action == ActionView::Dispatch(
                    spec_accept_request(items[i].id),
                )
            &&& r.1[items.len() as int].action == ActionView::Sleep
            &&& forall|i: int|
                0 <= i < items.len() && outcomes[i] is ActionFailed ==> (#[trigger] r.1[i
                    + 1]).logs[0] == spec_item_error_log(outcomes[i]->ActionFailed_0)
        }),
{
    let evs = seq![EventView::FetchOk(items)] + outcomes;
    assert(evs[0] == EventView::FetchOk(items));
    assert(evs.drop_first() =~= outcomes);
    let r = spec_run(Mode::Accept, PhaseView::Fetching, evs);
    let first = spec_step(Mode::Accept, PhaseView::Fetching, evs[0]);
    if items.len() == 0 {
        assert(outcomes.len() == 0);
        assert(spec_run(Mode::Accept, first.0, outcomes).1 == Seq::<StepOutputView>::empty());
        assert(r.1 =~= seq![first.1]);
    } else {
        lemma_accept_items_from(items, 0, outcomes);
        let rr = spec_run(Mode::Accept, first.0, outcomes);
        assert(r.1 =~= seq![first.1] + rr.1);
        assert(forall|i: int|
            1 <= i < r.1.len() ==> r.1[i] == rr.1[i - 1]);
        assert(forall|i: int|
            0 <= i < items.len() - 1 ==> (#[trigger] rr.1[i]).action == ActionView::Dispatch(
                spec_accept_request(items[0 + 1 + i].id),
            ));
    }
}

/// invite mode: the first request dispatched for any item is its hide. Taken
/// together with `lemma_send_only_after_hide`, the hide of an item always
/// precedes its invite send.
pub proof fn lemma_invite_item_starts_with_hide(
    items: Seq<NotificationView>,
    idx: int,
    logs: Seq<Seq<char>>,
)
    requires
        0 <= idx < items.len(),
    ensures
        crate::engine::spec_start_items(Mode::Invite, items, idx, logs).1.action
            == ActionView::Dispatch(spec_hide_request(items[idx].id)),
{
}

/// An invite send is dispatched only by the step that saw the item's hide
/// call succeed and the item's `details` decode to an instance id; the body
/// it sends carries the decoded id back in composite form together with the
/// item's original message.
pub proof fn lemma_send_only_after_hide(m: Mode, phase: PhaseView, ev: EventView)
    ensures
        match spec_step(m, phase, ev).1.action {
            ActionView::Dispatch(req) => req.body is Invite ==> {
                &&& ev == EventView::ActionOk
                &&& match phase {
                    PhaseView::Acting { items, idx, stage } => {
                        &&& stage == ItemStage::Hiding
                        &&& spec_parse_composite(items[idx].details) is Some
                        &&& req == spec_invite_request(
                            items[idx].sender_user_id,
                            spec_parse_composite(items[idx].details)->Some_0,
                            items[idx].message,
                        )
                    },
                    _ => false,
                }
            },
            ActionView::Sleep => true,
        },
{
}

/// invite mode: when the hide succeeded and the details decode, the very
/// next dispatched request is the invite send for this item, and its body is
/// the composite form of the decoded instance id with the original message.
pub proof fn lemma_invite_sends_after_hide(
    items: Seq<NotificationView>,
    idx: int,
    v: InstanceIdView,
)
    requires
        0 <= idx < items.len(),
        spec_parse_composite(items[idx].details) == Option::Some(v),
    ensures
        ({
            let r = spec_step(
                Mode::Invite,
                PhaseView::Acting { items, idx, stage: ItemStage::Hiding },
                EventView::ActionOk,
            );
            &&& r.0 == PhaseView::Acting { items, idx, stage: ItemStage::Sending }
            &&& r.1.action == ActionView::Dispatch(
                spec_invite_request(items[idx].sender_user_id, v, items[idx].message),
            )
            &&& spec_invite_request(items[idx].sender_user_id, v, items[idx].message).body
                == RequestBodyView::Invite(
                OutboundInviteNotificationView {
                    message_type: NotificationType::Invite,
                    details: spec_composite(v),
                    message: items[idx].message,
                },
            )
        }),
{
}

/// invite mode: when the hide succeeded but the details do not decode, the
/// item is given up with a report — no send is dispatched for it and it is
/// not retried this cycle — and the loop moves on to the next item, or ends
/// the cycle when it was the last.
pub proof fn lemma_malformed_details_skips_item(items: Seq<NotificationView>, idx: int)
    requires
        0 <= idx < items.len(),
        spec_parse_composite(items[idx].details) is None,
    ensures
        ({
            let r = spec_step(
                Mode::Invite,
                PhaseView::Acting { items, idx, stage: ItemStage::Hiding },
                EventView::ActionOk,
            );
            &&& r.1.logs[0] == spec_parse_error_log(items[idx].details)
            &&& idx + 1 < items.len() ==> r.0 == (PhaseView::Acting {
                items,
                idx: idx + 1,
                stage: ItemStage::Hiding,
            }) && r.1.action == ActionView::Dispatch(spec_hide_request(items[idx + 1].id))
            &&& idx + 1 == items.len() ==> r.0 == PhaseView::Sleeping && r.1.action
                == ActionView::Sleep
        }),
{
}

/// While working a batch, the engine never steps back: the item list stays
/// what the fetch returned and the index never decreases. It stays on one
/// item only to move from its hide to its send; otherwise it moves forward
/// or ends the cycle. So no notification is processed twice in a cycle.
pub proof fn lemma_items_never_revisited(
    m: Mode,
    items: Seq<NotificationView>,
    idx: int,
    stage: ItemStage,
    ev: EventView,
)
    requires
        ev is ActionOk || ev is ActionFailed,
        0 <= idx < items.len(),
    ensures
        ({
            let next = spec_step(m, PhaseView::Acting { items, idx, stage }, ev).0;
            match next {
                PhaseView::Acting { items: items2, idx: idx2, stage: stage2 } => {
                    &&& items2 == items
                    &&& (idx2 == idx + 1 || (idx2 == idx && stage == ItemStage::Hiding && stage2
                        == ItemStage::Sending && ev is ActionOk))
                },
                PhaseView::Sleeping => true,
                PhaseView::Fetching => false,
            }
        }),
{
}

/// invite mode, from item `idx` on (its hide already dispatched on entering
/// this phase), when every call succeeds and every item's details decode:
/// the requests go out strictly alternating — the send of one item, then
/// the hide of the next — and the cycle ends sleeping. Each send carries the
/// item's own decoded instance id and message.
pub proof fn lemma_invite_items_happy_path(
    items: Seq<NotificationView>,
    idx: int,
    outcomes: Seq<EventView>,
)
    requires
        0 <= idx < items.len(),
        outcomes.len() == 2 * (items.len() - idx),
        forall|i: int| 0 <= i < outcomes.len() ==> outcomes[i] == EventView::ActionOk,
        forall|i: int| idx <= i < items.len() ==> spec_parse_composite(#[trigger] items[i].details) is Some,
    ensures
        ({
            let r = spec_run(
                Mode::Invite,
                PhaseView::Acting { items, idx, stage: ItemStage::Hiding },
                outcomes,
            );
            &&& r.0 == PhaseView::Sleeping
            &&& r.1.len() == outcomes.len()
            &&& forall|k: int|
                0 <= k < items.len() - idx ==> (#[trigger] r.1[2 * k]).action
                    == ActionView::Dispatch(
                    spec_invite_request(
                        items[idx + k].sender_user_id,
                        spec_parse_composite(items[idx + k].details)->Some_0,
                        items[idx + k].message,
                    ),
                )
            &&& forall|k: int|
                0 <= k < items.len() - idx - 1 ==> (#[trigger] r.1[2 * k + 1]).action
                    == ActionView::Dispatch(spec_hide_request(items[idx + k + 1].id))
            &&& r.1[outcomes.len() - 1].action == ActionView::Sleep
        }),
    decreases items.len() - idx,
{
    let phase0 = PhaseView::Acting { items, idx, stage: ItemStage::Hiding };
    let r = spec_run(Mode::Invite, phase0, outcomes);
    assert(outcomes[0] == EventView::ActionOk);
    let first = spec_step(Mode::Invite, phase0, outcomes[0]);
    let phase1 = first.0;
    assert(spec_parse_composite(items[idx].details) is Some);
    assert(phase1 == PhaseView::Acting { items, idx, stage: ItemStage::Sending });
    let rest1 = outcomes.drop_first();
    assert(rest1.len() == outcomes.len() - 1);
    assert(rest1[0] == outcomes[1]);
    assert(rest1[0] == EventView::ActionOk);
    let second = spec_step(Mode::Invite, phase1, rest1[0]);
    let rest2 = rest1.drop_first();
    let mid = spec_run(Mode::Invite, phase1, rest1);
    let rr = spec_run(Mode::Invite, second.0, rest2);
    assert(r.1 == seq![first.1] + mid.1);
    assert(mid.1 == seq![second.1] + rr.1);
    assert(r.1 =~= seq![first.1] + (seq![second.1] + rr.1));
    if idx + 1 == items.len() {
        assert(second.0 == PhaseView::Sleeping);
        assert(rest2.len() == 0);
        assert(rr.1 == Seq::<StepOutputView>::empty());
        assert(r.1.len() == 2);
        assert(r.1[0] == first.1);
        assert(r.1[1] == second.1);
    } else {
        assert(second.0 == PhaseView::Acting { items, idx: idx + 1, stage: ItemStage::Hiding });
        assert(forall|i: int| 0 <= i < rest2.len() ==> rest2[i] == outcomes[i + 2]);
        lemma_invite_items_happy_path(items, idx + 1, rest2);
        assert(forall|j: int| 0 <= j < rr.1.len() ==> r.1[j + 2] == rr.1[j]);
        assert forall|k: int| 1 <= k < items.len() - idx implies (#[trigger] r.1[2 * k]).action
            == ActionView::Dispatch(
            spec_invite_request(
                items[idx + k].sender_user_id,
                spec_parse_composite(items[idx + k].details)->Some_0,
                items[idx + k].message,
            ),
        ) by {
            assert(r.1[2 * k] == rr.1[2 * (k - 1)]);
        }
        assert forall|k: int| 1 <= k < items.len() - idx - 1 implies (#[trigger] r.1[2 * k
            + 1]).action == ActionView::Dispatch(spec_hide_request(items[idx + k + 1].id)) by {
            assert(r.1[2 * k + 1] == rr.1[2 * (k - 1) + 1]);
        }
        assert(r.1[outcomes.len() - 1] == rr.1[rest2.len() - 1]);
    }
}

/// invite mode, one full cycle with every call succeeding and every item's
/// details decoding: after the one fetch, the hide of each item goes out
/// before its send, the items are worked in list order, and the cycle ends
/// sleeping.
pub proof fn lemma_invite_cycle_happy_path(
    items: Seq<NotificationView>,
    outcomes: Seq<EventView>,
)
    requires
        outcomes.len() == 2 * items.len(),
        forall|i: int| 0 <= i < outcomes.len() ==> outcomes[i] == EventView::ActionOk,
        forall|i: int|
            0 <= i < items.len() ==> spec_parse_composite(#[trigger] items[i].details) is Some,
    ensures
        ({
            let r = spec_run(
                Mode::Invite,
                PhaseView::Fetching,
                seq![EventView::FetchOk(items)] + outcomes,
            );
            &&& r.0 == PhaseView::Sleeping
            &&& r.1.len() == outcomes.len() + 1
            &&& forall|k: int|
                0 <= k < items.len() ==> (#[trigger] r.1[2 * k]).action == ActionView::Dispatch(
                    spec_hide_request(items[k].id),
                )
            &&& forall|k: int|
                0 <= k < items.len() ==> (#[trigger] r.1[2 * k + 1]).action
                    == ActionView::Dispatch(
                    spec_invite_request(
                        items[k].sender_user_id,
                        spec_parse_composite(items[k].details)->Some_0,
                        items[k].message,
                    ),
                )
            &&& r.1[outcomes.len() as int].action == ActionView::Sleep
        }),
{
    let evs = seq![EventView::FetchOk(items)] + outcomes;
    assert(evs[0] == EventView::FetchOk(items));
    assert(evs.drop_first() =~= outcomes);
    let r = spec_run(Mode::Invite, PhaseView::Fetching, evs);
    let first = spec_step(Mode::Invite, PhaseView::Fetching, evs[0]);
    if items.len() == 0 {
        assert(outcomes.len() == 0);
        assert(spec_run(Mode::Invite, first.0, outcomes).1 == Seq::<StepOutputView>::empty());
        assert(r.1 =~= seq![first.1]);
    } else {
        assert(first.0 == PhaseView::Acting { items, idx: 0, stage: ItemStage::Hiding });
        assert(first.1.action == ActionView::Dispatch(spec_hide_request(items[0].id)));
        lemma_invite_items_happy_path(items, 0, outcomes);
        let rr = spec_run(Mode::Invite, first.0, outcomes);
        assert(r.1 =~= seq![first.1] + rr.1);
        assert(forall|j: int| 0 <= j < rr.1.len() ==> r.1[j + 1] == rr.1[j]);
        assert forall|k: int| 1 <= k < items.len() implies (#[trigger] r.1[2 * k]).action
            == ActionView::Dispatch(spec_hide_request(items[k].id)) by {
            assert(r.1[2 * k] == rr.1[2 * (k - 1) + 1]);
        }
        assert forall|k: int| 0 <= k < items.len() implies (#[trigger] r.1[2 * k + 1]).action
            == ActionView::Dispatch(
            spec_invite_request(
                items[k].sender_user_id,
                spec_parse_composite(items[k].details)->Some_0,
                items[k].message,
            ),
        ) by {
            assert(r.1[2 * k + 1] == rr.1[2 * k]);
        }
        assert(r.1[outcomes.len() as int] == rr.1[outcomes.len() - 1]);
    }
}

/// A failed list fetch aborts the cycle at once: no item is processed, the
/// failure is reported, the engine sleeps — and the next wake fetches again,
/// so the loop goes on.
pub proof fn lemma_fetch_failure_aborts_cycle(m: Mode, e: RequestError)
    ensures
        ({
            let r = spec_step(m, PhaseView::Fetching, EventView::FetchFailed(e));
            &&& r.0 == PhaseView::Sleeping
            &&& r.1.action == ActionView::Sleep
            &&& r.1.logs == seq![spec_fetch_error_log(e)]
        }),
        ({
            let r = spec_step(m, PhaseView::Sleeping, EventView::Wake);
            &&& r.0 == PhaseView::Fetching
            &&& r.1.action == ActionView::Dispatch(spec_list_request(spec_filter_for(m)))
            &&& r.1.logs == Seq::<Seq<char>>::empty()
        }),
{
}

} // verus!
