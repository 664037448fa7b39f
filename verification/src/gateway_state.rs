//! What a running gateway remembers: registration times, errors, the last
//! delivery, its inbox and a bounded log of events; and the answers it builds
//! from them.
use crate::model::{ChatMessageEnvelopeModel, ChatMessageView, opt_str_view};
use crate::text::{push_str, str_eq, string_of};
use vstd::prelude::*;

verus! {

/// The most events a gateway keeps.
pub const MAX_EVENTS: usize = 256;

/// A message in a gateway's inbox.
#[derive(Debug, Clone)]
pub struct InboxEntryModel {
    pub received_at_unix_ms: u64,
    pub peer_id: String,
    pub payload: ChatMessageEnvelopeModel,
}

/// The view of an [`InboxEntryModel`].
pub struct InboxEntryView {
    pub received_at_unix_ms: u64,
    pub peer_id: Seq<char>,
    pub payload: ChatMessageView,
}

impl View for InboxEntryModel {
    type V = InboxEntryView;

    open spec fn view(&self) -> InboxEntryView {
        InboxEntryView { received_at_unix_ms: self.received_at_unix_ms, peer_id: self.peer_id@, payload: self.payload@ }
    }
}

impl InboxEntryModel {
    /// A copy of this entry.
    pub fn duplicate(&self) -> (r: Self)
        ensures
            r@ == self@,
    {
        InboxEntryModel {
            received_at_unix_ms: self.received_at_unix_ms,
            peer_id: self.peer_id.clone(),
            payload: self.payload.duplicate(),
        }
    }
}

/// An event shown to a gateway's user.
#[derive(Debug, Clone)]
pub struct UiEventModel {
    pub id: u64,
    pub kind: String,
    pub message: String,
    pub created_at_unix_ms: u64,
}

/// The view of a [`UiEventModel`].
pub struct EventView {
    pub id: u64,
    pub kind: Seq<char>,
    pub message: Seq<char>,
    pub created_at_unix_ms: u64,
}

impl View for UiEventModel {
    type V = EventView;

    open spec fn view(&self) -> EventView {
        EventView { id: self.id, kind: self.kind@, message: self.message@, created_at_unix_ms: self.created_at_unix_ms }
    }
}

impl UiEventModel {
    /// A copy of this event.
    pub fn duplicate(&self) -> (r: Self)
        ensures
            r@ == self@,
    {
        UiEventModel {
            id: self.id,
            kind: self.kind.clone(),
            message: self.message.clone(),
            created_at_unix_ms: self.created_at_unix_ms,
        }
    }
}

/// The views of a sequence of events.
pub open spec fn events_view(s: Seq<UiEventModel>) -> Seq<EventView> {
    s.map_values(|e: UiEventModel| e@)
}

/// The views of a sequence of inbox entries.
pub open spec fn inbox_view(s: Seq<InboxEntryModel>) -> Seq<InboxEntryView> {
    s.map_values(|e: InboxEntryModel| e@)
}

/// The last `n` elements of `s` (all of `s` when it is shorter).
pub open spec fn keep_last<T>(s: Seq<T>, n: nat) -> Seq<T> {
    if s.len() > n {
        s.subrange(s.len() - n, s.len() as int)
    } else {
        s
    }
}

/// The events after `since`, in order.
pub open spec fn events_after(s: Seq<EventView>, since: u64) -> Seq<EventView>
    decreases s.len(),
{
    if s.len() == 0 {
        s
    } else if s.last().id > since {
        events_after(s.drop_last(), since).push(s.last())
    } else {
        events_after(s.drop_last(), since)
    }
}

/// A gateway's memory.
#[derive(Debug, Clone)]
pub struct GatewayRuntimeState {
    pub last_registered_at_unix_ms: Option<u64>,
    pub last_heartbeat_at_unix_ms: Option<u64>,
    pub lease_seconds: Option<u64>,
    pub last_error: Option<String>,
    pub last_delivery_mode: Option<String>,
    pub last_delivery_summary: Option<String>,
    pub inbox: Vec<InboxEntryModel>,
    pub events: Vec<UiEventModel>,
    pub next_event_id: u64,
    pub direct_sent_count: usize,
    pub relay_sent_count: usize,
    pub direct_received_count: usize,
    pub relay_received_count: usize,
}

/// The view of a [`GatewayRuntimeState`].
pub struct GatewayStateView {
    pub last_registered_at_unix_ms: Option<u64>,
    pub last_heartbeat_at_unix_ms: Option<u64>,
    pub lease_seconds: Option<u64>,
    pub last_error: Option<Seq<char>>,
    pub last_delivery_mode: Option<Seq<char>>,
    pub last_delivery_summary: Option<Seq<char>>,
    pub inbox: Seq<InboxEntryView>,
    pub events: Seq<EventView>,
    pub next_event_id: u64,
    pub direct_sent_count: usize,
    pub relay_sent_count: usize,
    pub direct_received_count: usize,
    pub relay_received_count: usize,
}

impl View for GatewayRuntimeState {
    type V = GatewayStateView;

    open spec fn view(&self) -> GatewayStateView {
        GatewayStateView {
            last_registered_at_unix_ms: self.last_registered_at_unix_ms,
            last_heartbeat_at_unix_ms: self.last_heartbeat_at_unix_ms,
            lease_seconds: self.lease_seconds,
            last_error: opt_str_view(self.last_error),
            last_delivery_mode: opt_str_view(self.last_delivery_mode),
            last_delivery_summary: opt_str_view(self.last_delivery_summary),
            inbox: inbox_view(self.inbox@),
            events: events_view(self.events@),
            next_event_id: self.next_event_id,
            direct_sent_count: self.direct_sent_count,
            relay_sent_count: self.relay_sent_count,
            direct_received_count: self.direct_received_count,
            relay_received_count: self.relay_received_count,
        }
    }
}

/// The state of a gateway's connection to the hub, as shown to its user.
pub open spec fn heartbeat_state_spec(s: GatewayStateView) -> Seq<char> {
    if s.last_error is Some {
        "error"@
    } else if s.last_heartbeat_at_unix_ms is Some {
        "online"@
    } else if s.last_registered_at_unix_ms is Some {
        "registered"@
    } else {
        "starting"@
    }
}

/// The summary of a received message.
pub open spec fn received_summary(mode: Seq<char>, from: Seq<char>) -> Seq<char> {
    "Received "@ + mode + " message from "@ + from + "."@
}

/// The state after recording an event: the event gets the next identifier,
/// and only the newest [`MAX_EVENTS`] events are kept.
pub open spec fn record_event_spec(s: GatewayStateView, e: EventView) -> GatewayStateView {
    GatewayStateView {
        events: keep_last(s.events.push(e), MAX_EVENTS as nat),
        next_event_id: (s.next_event_id + 1) as u64,
        ..s
    }
}

/// The state after recording an event of `kind` with `message` at `now`.
pub open spec fn with_event(s: GatewayStateView, kind: Seq<char>, message: Seq<char>, now: u64) -> GatewayStateView {
    record_event_spec(s, EventView { id: s.next_event_id, kind, message, created_at_unix_ms: now })
}

/// The state after recording `error`: it becomes the last error and is
/// recorded as an `error` event.
pub open spec fn with_error(s: GatewayStateView, error: Seq<char>, now: u64) -> GatewayStateView {
    with_event(GatewayStateView { last_error: Some(error), ..s }, "error"@, error, now)
}

/// The state after a message was sent in `mode` with `summary`; the send
/// counters count the modes `direct_tcp` and `relay`.
pub open spec fn remembered_spec(s: GatewayStateView, mode: Seq<char>, summary: Seq<char>) -> GatewayStateView {
    GatewayStateView {
        last_delivery_mode: Some(mode),
        last_delivery_summary: Some(summary),
        direct_sent_count: if mode == "direct_tcp"@ {
            (s.direct_sent_count + 1) as usize
        } else {
            s.direct_sent_count
        },
        relay_sent_count: if mode == "relay"@ {
            (s.relay_sent_count + 1) as usize
        } else {
            s.relay_sent_count
        },
        ..s
    }
}

impl GatewayRuntimeState {
    /// The state of a gateway that starts with the stored `inbox` and
    /// `events`: event identifiers continue after the last stored one.
    pub fn new(inbox: Vec<InboxEntryModel>, events: Vec<UiEventModel>) -> (r: Self)
        requires
            events@.len() > 0 ==> events@.last().id < u64::MAX,
        ensures
            r@ == (GatewayStateView {
                last_registered_at_unix_ms: None,
                last_heartbeat_at_unix_ms: None,
                lease_seconds: None,
                last_error: None,
                last_delivery_mode: None,
                last_delivery_summary: None,
                inbox: inbox_view(inbox@),
                events: events_view(events@),
                next_event_id: if events@.len() > 0 { (events@.last().id + 1) as u64 } else { 1 },
                direct_sent_count: 0,
                relay_sent_count: 0,
                direct_received_count: 0,
                relay_received_count: 0,
            }),
    {
        let next_event_id = if events.len() > 0 {
            events[events.len() - 1].id + 1
        } else {
            1
        };
        GatewayRuntimeState {
            last_registered_at_unix_ms: None,
            last_heartbeat_at_unix_ms: None,
            lease_seconds: None,
            last_error: None,
            last_delivery_mode: None,
            last_delivery_summary: None,
            inbox,
            events,
            next_event_id,
            direct_sent_count: 0,
            relay_sent_count: 0,
            direct_received_count: 0,
            relay_received_count: 0,
        }
    }

    /// The state of the gateway's connection to the hub.
    pub fn heartbeat_state(&self) -> (r: String)
        ensures
            r@ == heartbeat_state_spec(self@),
    {
        if self.last_error.is_some() {
            return "error".to_owned();
        }
        if self.last_heartbeat_at_unix_ms.is_some() {
            return "online".to_owned();
        }
        if self.last_registered_at_unix_ms.is_some() {
            return "registered".to_owned();
        }
        "starting".to_owned()
    }

    /// Records an event of `kind` with `message` at `now_unix_ms`, and
    /// returns it.
    pub fn record_event(&mut self, kind: String, message: String, now_unix_ms: u64) -> (r: UiEventModel)
        requires
            old(self).next_event_id < u64::MAX,
        ensures
            r@ == (EventView { id: old(self).next_event_id, kind: kind@, message: message@, created_at_unix_ms: now_unix_ms }),
            final(self)@ == record_event_spec(old(self)@, r@),
    {
        let event = UiEventModel {
            id: self.next_event_id,
            kind,
            message,
            created_at_unix_ms: now_unix_ms,
        };
        let copy = event.duplicate();
        self.next_event_id = self.next_event_id + 1;
        let mut events: Vec<UiEventModel> = Vec::new();
        std::mem::swap(&mut events, &mut self.events);
        let ghost pushed = events@.push(event);
        events.push(event);
        let ghost full = events@;
        assert(full.subrange(0, full.len() as int) == full);
        while events.len() > MAX_EVENTS
            invariant
                full.len() > MAX_EVENTS ==> events@.len() >= MAX_EVENTS,
                full.len() <= MAX_EVENTS ==> events@.len() == full.len(),
                events@.len() <= full.len(),
                events@ == full.subrange(full.len() - events@.len(), full.len() as int),
            decreases events@.len(),
        {
            events.remove(0);
            assert(events@ =~= full.subrange(full.len() - events@.len(), full.len() as int));
        }
        proof {
            if full.len() > MAX_EVENTS {
                assert(events@.len() == MAX_EVENTS);
                assert(events_view(events@) =~= keep_last(events_view(full), MAX_EVENTS as nat));
            } else {
                assert(events@ =~= full);
            }
            assert(events_view(pushed) =~= events_view(old(self).events@).push(copy@));
        }
        self.events = events;
        copy
    }

    /// Records `error` as the last error, and as an `error` event at
    /// `now_unix_ms`, which it returns.
    pub fn record_error(&mut self, error: String, now_unix_ms: u64) -> (r: UiEventModel)
        requires
            old(self).next_event_id < u64::MAX,
        ensures
            r@ == (EventView { id: old(self).next_event_id, kind: "error"@, message: error@, created_at_unix_ms: now_unix_ms }),
            final(self)@ == with_error(old(self)@, error@, now_unix_ms),
    {
        self.last_error = Some(error.clone());
        self.record_event("error".to_owned(), error, now_unix_ms)
    }

    /// Records a successful registration at `now_unix_ms` with a lease of
    /// `lease_seconds`; it also counts as a heartbeat and clears the error.
    pub fn record_registered(&mut self, now_unix_ms: u64, lease_seconds: u64)
        ensures
            final(self)@ == (GatewayStateView {
                last_registered_at_unix_ms: Some(now_unix_ms),
                last_heartbeat_at_unix_ms: Some(now_unix_ms),
                lease_seconds: Some(lease_seconds),
                last_error: None,
                ..old(self)@
            }),
    {
        self.last_registered_at_unix_ms = Some(now_unix_ms);
        self.last_heartbeat_at_unix_ms = Some(now_unix_ms);
        self.lease_seconds = Some(lease_seconds);
        self.last_error = None;
    }

    /// Records a successful heartbeat at `now_unix_ms` with a lease of
    /// `lease_seconds`, and clears the error.
    pub fn record_heartbeat(&mut self, now_unix_ms: u64, lease_seconds: u64)
        ensures
            final(self)@ == (GatewayStateView {
                last_heartbeat_at_unix_ms: Some(now_unix_ms),
                lease_seconds: Some(lease_seconds),
                last_error: None,
                ..old(self)@
            }),
    {
        self.last_heartbeat_at_unix_ms = Some(now_unix_ms);
        self.lease_seconds = Some(lease_seconds);
        self.last_error = None;
    }

    /// Records a message sent in `delivery_mode` with `summary`; the send
    /// counters count the modes `direct_tcp` and `relay`.
    pub fn remember_delivery(&mut self, delivery_mode: &str, summary: String)
        requires
            delivery_mode@ == "direct_tcp"@ ==> old(self).direct_sent_count < usize::MAX,
            delivery_mode@ == "relay"@ ==> old(self).relay_sent_count < usize::MAX,
        ensures
            final(self)@ == remembered_spec(old(self)@, delivery_mode@, summary@),
    {
        proof {
            reveal_strlit("direct_tcp");
            reveal_strlit("relay");
            assert("direct_tcp"@.len() != "relay"@.len());
        }
        self.last_delivery_mode = Some(delivery_mode.to_owned());
        self.last_delivery_summary = Some(summary);
        if str_eq(delivery_mode, "direct_tcp") {
            self.direct_sent_count = self.direct_sent_count + 1;
        } else if str_eq(delivery_mode, "relay") {
            self.relay_sent_count = self.relay_sent_count + 1;
        }
    }

    /// Records a message received in `delivery_mode`: it joins the inbox,
    /// becomes the last delivery, and counts as received in its mode.
    pub fn record_received(&mut self, entry: InboxEntryModel, delivery_mode: &str)
        requires
            delivery_mode@ == "direct_tcp"@ ==> old(self).direct_received_count < usize::MAX,
            delivery_mode@ == "relay"@ ==> old(self).relay_received_count < usize::MAX,
        ensures
            final(self)@ == (GatewayStateView {
                inbox: old(self)@.inbox.push(entry@),
                last_delivery_mode: Some(delivery_mode@),
                last_delivery_summary: Some(received_summary(delivery_mode@, entry.payload.from_peer_id@)),
                direct_received_count: if delivery_mode@ == "direct_tcp"@ {
                    (old(self).direct_received_count + 1) as usize
                } else {
                    old(self).direct_received_count
                },
                relay_received_count: if delivery_mode@ == "relay"@ {
                    (old(self).relay_received_count + 1) as usize
                } else {
                    old(self).relay_received_count
                },
                ..old(self)@
            }),
    {
        let mut summary: Vec<char> = Vec::new();
        push_str(&mut summary, "Received ");
        push_str(&mut summary, delivery_mode);
        push_str(&mut summary, " message from ");
        push_str(&mut summary, entry.payload.from_peer_id.as_str());
        push_str(&mut summary, ".");
        proof {
            reveal_strlit("direct_tcp");
            reveal_strlit("relay");
        }
        let ghost before = self.inbox@;
        let ghost e = entry@;
        self.inbox.push(entry);
        assert(inbox_view(self.inbox@) == inbox_view(before).push(e));
        self.last_delivery_mode = Some(delivery_mode.to_owned());
        self.last_delivery_summary = Some(string_of(summary.as_slice()));
        if str_eq(delivery_mode, "direct_tcp") {
            self.direct_received_count = self.direct_received_count + 1;
        } else if str_eq(delivery_mode, "relay") {
            self.relay_received_count = self.relay_received_count + 1;
        }
    }

    /// A copy of the inbox.
    pub fn list_inbox(&self) -> (r: Vec<InboxEntryModel>)
        ensures
            inbox_view(r@) == self@.inbox,
    {
        let mut r: Vec<InboxEntryModel> = Vec::new();
        for i in 0..self.inbox.len()
            invariant
                inbox_view(r@) == inbox_view(self.inbox@.take(i as int)),
        {
            r.push(self.inbox[i].duplicate());
            assert(inbox_view(self.inbox@.take(i + 1)) == inbox_view(self.inbox@.take(i as int)).push(self.inbox@[i as int]@));
        }
        assert(self.inbox@.take(self.inbox@.len() as int) == self.inbox@);
        r
    }

    /// The events after `since_event_id`, or all events when it is absent.
    pub fn events_since(&self, since_event_id: Option<u64>) -> (r: Vec<UiEventModel>)
        ensures
            events_view(r@) == match since_event_id {
                Some(since) => events_after(self@.events, since),
                None => self@.events,
            },
    {
        let ev = &self.events;
        let mut r: Vec<UiEventModel> = Vec::new();
        let n = ev.len();
        for i in 0..n
            invariant
                n == ev@.len(),
                events_view(r@) == match since_event_id {
                    Some(since) => events_after(events_view(ev@.take(i as int)), since),
                    None => events_view(ev@.take(i as int)),
                },
        {
            let ghost before = r@;
            assert(events_view(ev@.take(i + 1)).drop_last() == events_view(ev@.take(i as int)));
            assert(events_view(ev@.take(i + 1)).last() == ev@[i as int]@);
            let keep = match since_event_id {
                Some(since) => ev[i].id > since,
                None => true,
            };
            if keep {
                r.push(ev[i].duplicate());
                assert(events_view(r@) == events_view(before).push(ev@[i as int]@));
            }
            assert(events_view(ev@.take(i + 1)) == events_view(ev@.take(i as int)).push(ev@[i as int]@));
        }
        assert(ev@.take(n as int) == ev@);
        r
    }
}

} // verus!
