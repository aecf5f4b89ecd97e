//! The update relay: translates low-level network notifications into the
//! small stream of events the UI consumes.
//!
//! The network library pushes a notification for every internal change; the
//! relay forwards application messages (decoded as UTF-8) and attachment
//! changes, tags each forwarded event with a monotonically increasing
//! identifier, and drops everything else. A message whose payload is not
//! valid UTF-8 is dropped rather than surfaced as an error, so a bad
//! payload can never destabilize the session.

use vstd::prelude::*;
use vstd::utf8::{decode_utf8, valid_utf8};

use crate::session::AttachmentState;
use crate::text::utf8_to_text;

verus! {

/// A notification kind the relay understands, as handed over by the
/// network library: an application message with its raw payload, an
/// attachment change with its readiness flags, a route change, or anything
/// else.
pub enum NetworkEvent {
    AppMessage(Vec<u8>),
    AttachmentChanged {
        state: AttachmentState,
        public_internet_ready: bool,
        local_network_ready: bool,
    },
    RouteChanged,
    Other,
}

/// The mathematical value of a `NetworkEvent`: the payload bytes as a
/// sequence.
pub enum EventView {
    AppMessage(Seq<u8>),
    AttachmentChanged {
        state: AttachmentState,
        public_internet_ready: bool,
        local_network_ready: bool,
    },
    RouteChanged,
    Other,
}

impl View for NetworkEvent {
    type V = EventView;

    open spec fn view(&self) -> EventView {
        match self {
            NetworkEvent::AppMessage(bytes) => EventView::AppMessage(bytes@),
            NetworkEvent::AttachmentChanged {
                state,
                public_internet_ready,
                local_network_ready,
            } => EventView::AttachmentChanged {
                state: *state,
                public_internet_ready: *public_internet_ready,
                local_network_ready: *local_network_ready,
            },
            NetworkEvent::RouteChanged => EventView::RouteChanged,
            NetworkEvent::Other => EventView::Other,
        }
    }
}

/// The kind-specific payload of a forwarded event: decoded message text,
/// or the new attachment state with its readiness flags.
pub enum UiBody {
    AppMessage(String),
    VeilidConnected {
        state: AttachmentState,
        public_internet_ready: bool,
        local_network_ready: bool,
    },
}

/// The mathematical value of a `UiBody`.
pub enum UiBodyView {
    AppMessage(Seq<char>),
    VeilidConnected {
        state: AttachmentState,
        public_internet_ready: bool,
        local_network_ready: bool,
    },
}

impl View for UiBody {
    type V = UiBodyView;

    open spec fn view(&self) -> UiBodyView {
        match self {
            UiBody::AppMessage(text) => UiBodyView::AppMessage(text@),
            UiBody::VeilidConnected {
                state,
                public_internet_ready,
                local_network_ready,
            } => UiBodyView::VeilidConnected {
                state: *state,
                public_internet_ready: *public_internet_ready,
                local_network_ready: *local_network_ready,
            },
        }
    }
}

/// A forwarded event: a monotonically increasing identifier, and the
/// kind-specific payload whose variant is the event-kind tag.
pub struct UiEvent {
    pub id: u64,
    pub body: UiBody,
}

/// The mathematical value of a `UiEvent`.
pub struct UiEventView {
    pub id: u64,
    pub body: UiBodyView,
}

impl View for UiEvent {
    type V = UiEventView;

    open spec fn view(&self) -> UiEventView {
        UiEventView { id: self.id, body: self.body@ }
    }
}

impl UiEvent {
    /// The name under which the UI subscribes to this event.
    pub fn event_name(&self) -> (r: &'static str)
        ensures
            self.body is AppMessage ==> r@ == "app-message"@,
            self.body is VeilidConnected ==> r@ == "veilid_connected"@,
    {
        match &self.body {
            UiBody::AppMessage(_) => "app-message",
            UiBody::VeilidConnected { .. } => "veilid_connected",
        }
    }
}

/// What the relay forwards for one notification: the decoded text of a
/// valid-UTF-8 application message, the new state of every attachment
/// change (repeated identical states included), and nothing for anything
/// else.
pub open spec fn relayed_body(ev: EventView) -> Option<UiBodyView> {
    match ev {
        EventView::AppMessage(bytes) => if valid_utf8(bytes) {
            Some(UiBodyView::AppMessage(decode_utf8(bytes)))
        } else {
            None
        },
        EventView::AttachmentChanged {
            state,
            public_internet_ready,
            local_network_ready,
        } => Some(
            UiBodyView::VeilidConnected { state, public_internet_ready, local_network_ready },
        ),
        EventView::RouteChanged => None,
        EventView::Other => None,
    }
}

/// The identifier counter after one forwarded event: one higher, saturating
/// at the largest representable value.
pub open spec fn bumped(id: u64) -> u64 {
    if id < u64::MAX {
        (id + 1) as u64
    } else {
        id
    }
}

/// The relay's only state: the identifier the next forwarded event gets.
pub struct Relay {
    pub next_id: u64,
}

impl Relay {
    /// A fresh relay, numbering forwarded events from zero.
    pub fn new() -> (r: Relay)
        ensures
            r.next_id == 0,
    {
        Relay { next_id: 0 }
    }

    fn emit(&mut self, body: UiBody) -> (e: UiEvent)
        ensures
            e@ == (UiEventView { id: old(self).next_id, body: body@ }),
            final(self).next_id == bumped(old(self).next_id),
    {
        let id = self.next_id;
        if self.next_id < u64::MAX {
            self.next_id = self.next_id + 1;
        }
        UiEvent { id, body }
    }

    /// Handles one notification: returns the event to forward to the UI,
    /// or nothing when the notification is dropped. Every attachment
    /// change is forwarded, without de-duplication; an application message
    /// is forwarded exactly when its payload is valid UTF-8; route changes
    /// and unknown kinds are dropped. A forwarded event takes the current
    /// identifier, which then increases.
    pub fn relay(&mut self, ev: NetworkEvent) -> (out: Option<UiEvent>)
        ensures
            match relayed_body(ev@) {
                Some(body) => {
                    &&& out matches Some(e) && e@ == (UiEventView {
                        id: old(self).next_id,
                        body,
                    })
                    &&& final(self).next_id == bumped(old(self).next_id)
                },
                None => {
                    &&& out is None
                    &&& *final(self) == *old(self)
                },
            },
    {
        match ev {
            NetworkEvent::AppMessage(bytes) => match utf8_to_text(bytes) {
                Some(text) => Some(self.emit(UiBody::AppMessage(text))),
                None => None,
            },
            NetworkEvent::AttachmentChanged {
                state,
                public_internet_ready,
                local_network_ready,
            } => Some(
                self.emit(
                    UiBody::VeilidConnected { state, public_internet_ready, local_network_ready },
                ),
            ),
            NetworkEvent::RouteChanged => None,
            NetworkEvent::Other => None,
        }
    }

    /// Handles a whole sequence of notifications in delivery order and
    /// returns the forwarded events, in that same order.
    pub fn relay_batch(&mut self, evs: Vec<NetworkEvent>) -> (out: Vec<UiEvent>)
        ensures
            views_of(out@) == relay_all(evs@, old(self).next_id),
    {
        let ghost evs0 = evs@;
        let ghost id0 = self.next_id;
        let mut pending = evs;
        let mut out: Vec<UiEvent> = Vec::new();
        proof {
            assert(views_of(out@) =~= Seq::<UiEventView>::empty());
        }
        while pending.len() > 0
            invariant
                relay_all(evs0, id0) == views_of(out@) + relay_all(pending@, self.next_id),
            decreases pending.len(),
        {
            let ghost before = pending@;
            let ghost nid = self.next_id;
            let ev = pending.remove(0);
            proof {
                assert(pending@ =~= before.drop_first());
            }
            match self.relay(ev) {
                Some(e) => {
                    let ghost out_before = out@;
                    out.push(e);
                    proof {
                        assert(views_of(out@) =~= views_of(out_before) + seq![e@]);
                        assert(views_of(out@) + relay_all(pending@, self.next_id) =~= relay_all(
                            evs0,
                            id0,
                        ));
                    }
                },
                None => {},
            }
        }
        proof {
            assert(relay_all(pending@, self.next_id) =~= Seq::<UiEventView>::empty());
            assert(views_of(out@) =~= relay_all(evs0, id0));
        }
        out
    }
}

/// The mathematical values of a sequence of forwarded events.
pub open spec fn views_of(s: Seq<UiEvent>) -> Seq<UiEventView> {
    s.map_values(|e: UiEvent| e@)
}

/// The events forwarded for a whole sequence of notifications, in delivery
/// order, numbering from `id`.
pub open spec fn relay_all(evs: Seq<NetworkEvent>, id: u64) -> Seq<UiEventView>
    decreases evs.len(),
{
    if evs.len() == 0 {
        Seq::empty()
    } else {
        match relayed_body(evs[0]@) {
            Some(body) => seq![UiEventView { id, body }] + relay_all(evs.drop_first(), bumped(id)),
            None => relay_all(evs.drop_first(), id),
        }
    }
}

/// The relay forwards notifications without reordering: it never forwards
/// more events than were delivered, every forwarded identifier stays
/// within the window the sequence consumes, and identifiers increase
/// strictly in delivery order.
pub proof fn lemma_relay_preserves_delivery_order(evs: Seq<NetworkEvent>, id: u64)
    requires
        id + evs.len() <= u64::MAX,
    ensures
        relay_all(evs, id).len() <= evs.len(),
        forall|i: int|
            0 <= i < relay_all(evs, id).len() ==> id <= #[trigger] relay_all(evs, id)[i].id
                < id + evs.len(),
        forall|i: int, j: int|
            0 <= i < j < relay_all(evs, id).len() ==> relay_all(evs, id)[i].id < relay_all(
                evs,
                id,
            )[j].id,
    decreases evs.len(),
{
    if evs.len() > 0 {
        let rest = evs.drop_first();
        match relayed_body(evs[0]@) {
            Some(_) => {
                lemma_relay_preserves_delivery_order(rest, (id + 1) as u64);
            },
            None => {
                lemma_relay_preserves_delivery_order(rest, id);
            },
        }
    }
}

/// Attachment changes are forwarded one for one: a sequence of
/// `AttachmentChanged` notifications produces exactly as many forwarded
/// events, the i-th forwarded event carries the i-th notification's state
/// and readiness flags, and the identifiers increase strictly in delivery
/// order — no de-duplication, no reordering.
pub proof fn lemma_attachment_changes_all_forwarded(evs: Seq<NetworkEvent>, id: u64)
    requires
        forall|i: int| 0 <= i < evs.len() ==> evs[i]@ is AttachmentChanged,
        id + evs.len() <= u64::MAX,
    ensures
        relay_all(evs, id).len() == evs.len(),
        forall|i: int| 0 <= i < evs.len() ==> #[trigger] relay_all(evs, id)[i].id == id + i,
        forall|i: int|
            0 <= i < evs.len() ==> (relayed_body(evs[i]@) matches Some(body) && #[trigger] relay_all(
                evs,
                id,
            )[i].body == body),
    decreases evs.len(),
{
    if evs.len() > 0 {
        assert(evs[0]@ is AttachmentChanged);
        let rest = evs.drop_first();
        assert(forall|i: int| 0 <= i < rest.len() ==> #[trigger] rest[i]@ is AttachmentChanged)
            by {
            assert(forall|i: int| 0 <= i < rest.len() ==> rest[i] == evs[i + 1]);
        }
        lemma_attachment_changes_all_forwarded(rest, (id + 1) as u64);
        assert(forall|i: int| 1 <= i < evs.len() ==> evs[i] == rest[i - 1]);
    }
}

} // verus!
