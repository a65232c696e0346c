use vstd::prelude::*;
use crate::instance::{spec_parse_composite, InstanceId};
use crate::model::{spec_describe, Notification, NotificationList, NotificationView, RequestError};
use crate::requests::{
    accept_request, hide_request, invite_request, list_request, spec_accept_request,
    spec_hide_request, spec_invite_request, spec_list_request, HttpRequest, HttpRequestView,
};
use crate::wire::NotificationType;

verus! {

/// The two operating modes, chosen once at startup.
#[derive(Clone, Copy, PartialEq, Eq, Structural, Debug)]
pub enum Mode {
    Accept,
    Invite,
}

/// Where an item under work stands: awaiting its accept call (accept mode),
/// or awaiting its hide or its invite send (invite mode, in that order).
#[derive(Clone, Copy, PartialEq, Eq, Structural, Debug)]
pub enum ItemStage {
    Accepting,
    Hiding,
    Sending,
}

/// What the engine is waiting for.
#[derive(Clone, Copy, PartialEq, Eq, Structural, Debug)]
pub enum PhaseTag {
    Sleeping,
    Fetching,
    Acting,
}

/// The abstract phase of the engine: idle between cycles, awaiting the list
/// response, or working through the fetched items one at a time.
#[verifier::ext_equal]
pub enum PhaseView {
    Sleeping,
    Fetching,
    Acting { items: Seq<NotificationView>, idx: int, stage: ItemStage },
}

/// What the surrounding process reports back to the engine: the sleep ended,
/// the list call returned or failed, or the last per-item call returned or
/// failed.
pub enum Event {
    Wake,
    FetchOk(NotificationList),
    FetchFailed(RequestError),
    ActionOk,
    ActionFailed(RequestError),
}

/// The mathematical model of an `Event`.
#[verifier::ext_equal]
pub enum EventView {
    Wake,
    FetchOk(Seq<NotificationView>),
    FetchFailed(RequestError),
    ActionOk,
    ActionFailed(RequestError),
}

impl View for Event {
    type V = EventView;

    open spec fn view(&self) -> EventView {
        match self {
            Event::Wake => EventView::Wake,
            Event::FetchOk(list) => EventView::FetchOk(list@),
            Event::FetchFailed(e) => EventView::FetchFailed(*e),
            Event::ActionOk => EventView::ActionOk,
            Event::ActionFailed(e) => EventView::ActionFailed(*e),
        }
    }
}

/// What the engine asks the surrounding process to do next: dispatch one
/// request, or sleep out the fixed inter-cycle delay.
pub enum Action {
    Dispatch(HttpRequest),
    Sleep,
}

/// The mathematical model of an `Action`.
#[verifier::ext_equal]
pub enum ActionView {
    Dispatch(HttpRequestView),
    Sleep,
}

impl View for Action {
    type V = ActionView;

    open spec fn view(&self) -> ActionView {
        match self {
            Action::Dispatch(r) => ActionView::Dispatch(r@),
            Action::Sleep => ActionView::Sleep,
        }
    }
}

/// One step's outcome: the log lines to print, then the action to perform.
pub struct StepOutput {
    pub logs: Vec<String>,
    pub action: Action,
}

/// The mathematical model of a `StepOutput`.
#[verifier::ext_equal]
pub struct StepOutputView {
    pub logs: Seq<Seq<char>>,
    pub action: ActionView,
}

impl View for StepOutput {
    type V = StepOutputView;

    open spec fn view(&self) -> StepOutputView {
        StepOutputView {
            logs: self.logs@.map_values(|s: String| s@),
            action: self.action@,
        }
    }
}

/// The server-side filter each mode lists with.
pub open spec fn spec_filter_for(m: Mode) -> NotificationType {
    match m {
        Mode::Accept => NotificationType::FriendRequest,
        Mode::Invite => NotificationType::RequestInvite,
    }
}

/// The stage every item starts in: in invite mode the hide comes first, so
/// that a failure later in the item cannot make the next cycle send the same
/// invite twice.
pub open spec fn spec_start_stage(m: Mode) -> ItemStage {
    match m {
        Mode::Accept => ItemStage::Accepting,
        Mode::Invite => ItemStage::Hiding,
    }
}

/// The log line announcing one item.
pub open spec fn spec_item_log(m: Mode, n: NotificationView) -> Seq<char> {
    match m {
        Mode::Accept => "accepting friend request from "@ + n.sender_user_name,
        Mode::Invite => "handling invite request from "@ + n.sender_user_name,
    }
}

/// The log line of a failed list fetch.
pub open spec fn spec_fetch_error_log(e: RequestError) -> Seq<char> {
    "error while running loop: "@ + spec_describe(e)
}

/// The log line of a failed per-item call.
pub open spec fn spec_item_error_log(e: RequestError) -> Seq<char> {
    "error while handling notification: "@ + spec_describe(e)
}

/// The log line of a `details` payload that does not hold an instance id.
pub open spec fn spec_parse_error_log(details: Seq<char>) -> Seq<char> {
    "could not parse an instance id from details: "@ + details
}

/// The first request dispatched for one item.
pub open spec fn spec_first_request(m: Mode, n: NotificationView) -> HttpRequestView {
    match m {
        Mode::Accept => spec_accept_request(n.id),
        Mode::Invite => spec_hide_request(n.id),
    }
}

/// Move to item `idx` of `items`, carrying the log lines gathered so far:
/// announce and dispatch the item's first request, or, when every item is
/// done, end the cycle and sleep.
pub open spec fn spec_start_items(
    m: Mode,
    items: Seq<NotificationView>,
    idx: int,
    logs: Seq<Seq<char>>,
) -> (PhaseView, StepOutputView) {
    if idx < items.len() {
        (
            PhaseView::Acting { items, idx, stage: spec_start_stage(m) },
            StepOutputView {
                logs: logs.push(spec_item_log(m, items[idx])),
                action: ActionView::Dispatch(spec_first_request(m, items[idx])),
            },
        )
    } else {
        (PhaseView::Sleeping, StepOutputView { logs, action: ActionView::Sleep })
    }
}

/// The transition relation of the processing loop, one event at a time.
///
/// A fetch failure ends the cycle at once; a per-item failure is reported
/// and only that item is given up; in invite mode the hide precedes the
/// decode of `details` and the invite send, and a `details` that does not
/// decode skips just that item. An event that does not fit the phase parks
/// the engine sleeping, so the next wake starts a clean cycle.
pub open spec fn spec_step(m: Mode, phase: PhaseView, ev: EventView) -> (
    PhaseView,
    StepOutputView,
) {
    match (phase, ev) {
        (PhaseView::Sleeping, EventView::Wake) => (
            PhaseView::Fetching,
            StepOutputView {
                logs: Seq::empty(),
                action: ActionView::Dispatch(spec_list_request(spec_filter_for(m))),
            },
        ),
        (PhaseView::Fetching, EventView::FetchOk(items)) => spec_start_items(
            m,
            items,
            0,
            Seq::empty(),
        ),
        (PhaseView::Fetching, EventView::FetchFailed(e)) => (
            PhaseView::Sleeping,
            StepOutputView { logs: seq![spec_fetch_error_log(e)], action: ActionView::Sleep },
        ),
        (PhaseView::Acting { items, idx, stage }, EventView::ActionOk) => match stage {
            ItemStage::Hiding => match spec_parse_composite(items[idx].details) {
                Option::Some(v) => (
                    PhaseView::Acting { items, idx, stage: ItemStage::Sending },
                    StepOutputView {
                        logs: Seq::empty(),
                        action: ActionView::Dispatch(
                            spec_invite_request(items[idx].sender_user_id, v, items[idx].message),
                        ),
                    },
                ),
                Option::None => spec_start_items(
                    m,
                    items,
                    idx + 1,
                    seq![spec_parse_error_log(items[idx].details)],
                ),
            },
            _ => spec_start_items(m, items, idx + 1, Seq::empty()),
        },
        (PhaseView::Acting { items, idx, stage }, EventView::ActionFailed(e)) => spec_start_items(
            m,
            items,
            idx + 1,
            seq![spec_item_error_log(e)],
        ),
        _ => (PhaseView::Sleeping, StepOutputView { logs: Seq::empty(), action: ActionView::Sleep }),
    }
}

/// Build the log line announcing one item.
fn item_log(m: Mode, n: &Notification) -> (r: String)
    ensures
        r@ == spec_item_log(m, n@),
{
    let mut s = match m {
        Mode::Accept => String::from_str("accepting friend request from "),
        Mode::Invite => String::from_str("handling invite request from "),
    };
    s.append(n.sender_user_name.as_str());
    s
}

/// Build the log line of a failed list fetch.
fn fetch_error_log(e: RequestError) -> (r: String)
    ensures
        r@ == spec_fetch_error_log(e),
{
    let mut s = String::from_str("error while running loop: ");
    s.append(e.describe().as_str());
    s
}

/// Build the log line of a failed per-item call.
fn item_error_log(e: RequestError) -> (r: String)
    ensures
        r@ == spec_item_error_log(e),
{
    let mut s = String::from_str("error while handling notification: ");
    s.append(e.describe().as_str());
    s
}

/// Build the log line of a `details` payload without an instance id.
fn parse_error_log(details: &str) -> (r: String)
    ensures
        r@ == spec_parse_error_log(details@),
{
    let mut s = String::from_str("could not parse an instance id from details: ");
    s.append(details);
    s
}

/// The engine: the mode and the current phase. `items`, `idx` and `stage`
/// carry meaning only while the phase is `Acting`.
pub struct Engine {
    pub mode: Mode,
    pub phase_tag: PhaseTag,
    pub items: Vec<Notification>,
    pub idx: usize,
    pub stage: ItemStage,
}

impl Engine {
    /// The abstract phase this engine is in.
    pub open spec fn phase_view(&self) -> PhaseView {
        match self.phase_tag {
            PhaseTag::Sleeping => PhaseView::Sleeping,
            PhaseTag::Fetching => PhaseView::Fetching,
            PhaseTag::Acting => PhaseView::Acting {
                items: self.items@.map_values(|n: Notification| n@),
                idx: self.idx as int,
                stage: self.stage,
            },
        }
    }

    /// Internal consistency: while acting, the index points at an item and
    /// the stage belongs to the mode.
    pub open spec fn wf(&self) -> bool {
        self.phase_tag == PhaseTag::Acting ==> {
            &&& self.idx < self.items.len()
            &&& match self.mode {
                Mode::Accept => self.stage == ItemStage::Accepting,
                Mode::Invite => self.stage == ItemStage::Hiding || self.stage
                    == ItemStage::Sending,
            }
        }
    }

    /// A fresh engine, idle until the first wake.
    pub fn new(mode: Mode) -> (r: Engine)
        ensures
            r.wf(),
            r.mode == mode,
            r.phase_view() == PhaseView::Sleeping,
    {
        Engine {
            mode,
            phase_tag: PhaseTag::Sleeping,
            items: Vec::new(),
            idx: 0,
            stage: ItemStage::Accepting,
        }
    }

    /// Move to item `idx`, or end the cycle when every item is done.
    fn start_items(&mut self, idx: usize, logs: Vec<String>) -> (r: StepOutput)
        requires
            idx <= old(self).items.len(),
        ensures
            final(self).mode == old(self).mode,
            final(self).items == old(self).items,
            final(self).wf(),
            (final(self).phase_view(), r@) == spec_start_items(
                old(self).mode,
                old(self).items@.map_values(|n: Notification| n@),
                idx as int,
                logs@.map_values(|s: String| s@),
            ),
    {
        let ghost items_view = self.items@.map_values(|n: Notification| n@);
        let ghost logs_view = logs@.map_values(|s: String| s@);
        if idx < self.items.len() {
            let n = &self.items[idx];
            let line = item_log(self.mode, n);
            let req = match self.mode {
                Mode::Accept => accept_request(n.id.as_str()),
                Mode::Invite => hide_request(n.id.as_str()),
            };
            let mut logs2 = logs;
            logs2.push(line);
            self.phase_tag = PhaseTag::Acting;
            self.idx = idx;
            self.stage = match self.mode {
                Mode::Accept => ItemStage::Accepting,
                Mode::Invite => ItemStage::Hiding,
            };
            let out = StepOutput { logs: logs2, action: Action::Dispatch(req) };
            proof {
                assert(out@.logs =~= logs_view.push(spec_item_log(self.mode, items_view[idx as int])));
            }
            out
        } else {
            self.phase_tag = PhaseTag::Sleeping;
            StepOutput { logs, action: Action::Sleep }
        }
    }

    /// Park sleeping after an event that does not fit the phase.
    fn recover(&mut self) -> (r: StepOutput)
        ensures
            final(self).mode == old(self).mode,
            final(self).wf(),
            final(self).phase_view() == PhaseView::Sleeping,
            r@ == (StepOutputView { logs: Seq::empty(), action: ActionView::Sleep }),
    {
        self.phase_tag = PhaseTag::Sleeping;
        let out = StepOutput { logs: Vec::new(), action: Action::Sleep };
        proof {
            assert(out@.logs =~= Seq::<Seq<char>>::empty());
        }
        out
    }

    /// Feed one event in; the engine answers with the log lines to print and
    /// the next action, exactly as `spec_step` says.
    pub fn step(&mut self, ev: Event) -> (r: StepOutput)
        requires
            old(self).wf(),
        ensures
            final(self).wf(),
            final(self).mode == old(self).mode,
            (final(self).phase_view(), r@) == spec_step(
                old(self).mode,
                old(self).phase_view(),
                ev@,
            ),
    {
        let ghost pre_phase = self.phase_view();
        match self.phase_tag {
            PhaseTag::Sleeping => match ev {
                Event::Wake => {
                    self.phase_tag = PhaseTag::Fetching;
                    let filter = match self.mode {
                        Mode::Accept => NotificationType::FriendRequest,
                        Mode::Invite => NotificationType::RequestInvite,
                    };
                    let out = StepOutput {
                        logs: Vec::new(),
                        action: Action::Dispatch(list_request(filter)),
                    };
                    proof {
                        assert(out@.logs =~= Seq::<Seq<char>>::empty());
                    }
                    out
                },
                _ => self.recover(),
            },
            PhaseTag::Fetching => match ev {
                Event::FetchOk(list) => {
                    self.items = list.items;
                    self.start_items(0, Vec::new())
                },
                Event::FetchFailed(e) => {
                    self.phase_tag = PhaseTag::Sleeping;
                    let mut logs = Vec::new();
                    logs.push(fetch_error_log(e));
                    let out = StepOutput { logs, action: Action::Sleep };
                    proof {
                        assert(out@.logs =~= seq![spec_fetch_error_log(e)]);
                    }
                    out
                },
                _ => self.recover(),
            },
            PhaseTag::Acting => match ev {
                Event::ActionOk => match self.stage {
                    ItemStage::Hiding => {
                        let parsed = InstanceId::parse(self.items[self.idx].details.as_str());
                        match parsed {
                            Some(inst) => {
                                let n = &self.items[self.idx];
                                let req = invite_request(
                                    n.sender_user_id.as_str(),
                                    &inst,
                                    n.message.as_str(),
                                );
                                self.stage = ItemStage::Sending;
                                let out = StepOutput {
                                    logs: Vec::new(),
                                    action: Action::Dispatch(req),
                                };
                                proof {
                                    assert(out@.logs =~= Seq::<Seq<char>>::empty());
                                }
                                out
                            },
                            None => {
                                let mut logs = Vec::new();
                                logs.push(parse_error_log(self.items[self.idx].details.as_str()));
                                let next = self.idx + 1;
                                proof {
                                    assert(logs@.map_values(|s: String| s@) =~= seq![
                                        spec_parse_error_log(self.items[self.idx as int]@.details),
                                    ]);
                                }
                                self.start_items(next, logs)
                            },
                        }
                    },
                    _ => {
                        let next = self.idx + 1;
                        let logs: Vec<String> = Vec::new();
                        proof {
                            assert(logs@.map_values(|s: String| s@) =~= Seq::<Seq<char>>::empty());
                        }
                        self.start_items(next, logs)
                    },
                },
                Event::ActionFailed(e) => {
                    let mut logs = Vec::new();
                    logs.push(item_error_log(e));
                    let next = self.idx + 1;
                    proof {
                        assert(logs@.map_values(|s: String| s@) =~= seq![spec_item_error_log(e)]);
                    }
                    self.start_items(next, logs)
                },
                _ => self.recover(),
            },
        }
    }
}

} // verus!
