//! The event channel registry: one persistent channel per native event
//! category, created at handle-creation time. The sending halves are handed
//! to the native side, whose trampolines push fire-and-forget notifications;
//! the receiving halves stay with the handle for the application to drain at
//! its own cadence.

use vstd::prelude::*;

use crate::channel::{event_queue_len, new_event_channel, try_recv_event, try_send_event};

verus! {

/// The fixed set of native event categories, each with its own channel.
#[derive(Clone, Copy, Debug, PartialEq, Eq, Structural)]
pub enum EventCategory {
    Activities,
    Lobbies,
    Networking,
    Overlay,
    Relationships,
    Store,
    Users,
    Voice,
}

/// One fire-and-forget notification pushed by a native event trampoline,
/// one variant per category, carrying the notification's plain payload.
#[derive(Clone, Debug, PartialEq, Eq)]
pub enum Event {
    ActivityJoin { secret: String },
    LobbyUpdate { lobby_id: i64 },
    NetworkRouteUpdate { route: String },
    OverlayToggle { opened: bool },
    RelationshipRefresh,
    StoreEntitlementCreate { entitlement_id: i64 },
    UserCurrentUpdate,
    VoiceSettingsUpdate,
}

impl Event {
    /// The category whose channel carries this notification.
    pub open spec fn spec_category(self) -> EventCategory {
        match self {
            Event::ActivityJoin { .. } => EventCategory::Activities,
            Event::LobbyUpdate { .. } => EventCategory::Lobbies,
            Event::NetworkRouteUpdate { .. } => EventCategory::Networking,
            Event::OverlayToggle { .. } => EventCategory::Overlay,
            Event::RelationshipRefresh => EventCategory::Relationships,
            Event::StoreEntitlementCreate { .. } => EventCategory::Store,
            Event::UserCurrentUpdate => EventCategory::Users,
            Event::VoiceSettingsUpdate => EventCategory::Voice,
        }
    }

    /// The category whose channel carries this notification.
    pub fn category(&self) -> (r: EventCategory)
        ensures
            r == self.spec_category(),
    {
        match self {
            Event::ActivityJoin { .. } => EventCategory::Activities,
            Event::LobbyUpdate { .. } => EventCategory::Lobbies,
            Event::NetworkRouteUpdate { .. } => EventCategory::Networking,
            Event::OverlayToggle { .. } => EventCategory::Overlay,
            Event::RelationshipRefresh => EventCategory::Relationships,
            Event::StoreEntitlementCreate { .. } => EventCategory::Store,
            Event::UserCurrentUpdate => EventCategory::Users,
            Event::VoiceSettingsUpdate => EventCategory::Voice,
        }
    }
}

/// The sending halves of every event channel: the per-handle context block
/// handed to the native side at creation.
pub struct EventSenders {
    pub activities: crossbeam_channel::Sender<Event>,
    pub lobbies: crossbeam_channel::Sender<Event>,
    pub networking: crossbeam_channel::Sender<Event>,
    pub overlay: crossbeam_channel::Sender<Event>,
    pub relationships: crossbeam_channel::Sender<Event>,
    pub store: crossbeam_channel::Sender<Event>,
    pub users: crossbeam_channel::Sender<Event>,
    pub voice: crossbeam_channel::Sender<Event>,
}

/// The receiving halves of every event channel, owned by the handle and
/// exposed read-only to the application.
pub struct EventReceivers {
    pub activities: crossbeam_channel::Receiver<Event>,
    pub lobbies: crossbeam_channel::Receiver<Event>,
    pub networking: crossbeam_channel::Receiver<Event>,
    pub overlay: crossbeam_channel::Receiver<Event>,
    pub relationships: crossbeam_channel::Receiver<Event>,
    pub store: crossbeam_channel::Receiver<Event>,
    pub users: crossbeam_channel::Receiver<Event>,
    pub voice: crossbeam_channel::Receiver<Event>,
}

/// Creates the fixed registry: one fresh channel pair per event category.
pub fn create_channels() -> (r: (EventSenders, EventReceivers)) {
    let (activities_s, activities_r) = new_event_channel();
    let (lobbies_s, lobbies_r) = new_event_channel();
    let (networking_s, networking_r) = new_event_channel();
    let (overlay_s, overlay_r) = new_event_channel();
    let (relationships_s, relationships_r) = new_event_channel();
    let (store_s, store_r) = new_event_channel();
    let (users_s, users_r) = new_event_channel();
    let (voice_s, voice_r) = new_event_channel();
    (
        EventSenders {
            activities: activities_s,
            lobbies: lobbies_s,
            networking: networking_s,
            overlay: overlay_s,
            relationships: relationships_s,
            store: store_s,
            users: users_s,
            voice: voice_s,
        },
        EventReceivers {
            activities: activities_r,
            lobbies: lobbies_r,
            networking: networking_r,
            overlay: overlay_r,
            relationships: relationships_r,
            store: store_r,
            users: users_r,
            voice: voice_r,
        },
    )
}

impl EventSenders {
    /// The sending half of one category's channel.
    pub open spec fn spec_sender_for(self, category: EventCategory) -> crossbeam_channel::Sender<
        Event,
    > {
        match category {
            EventCategory::Activities => self.activities,
            EventCategory::Lobbies => self.lobbies,
            EventCategory::Networking => self.networking,
            EventCategory::Overlay => self.overlay,
            EventCategory::Relationships => self.relationships,
            EventCategory::Store => self.store,
            EventCategory::Users => self.users,
            EventCategory::Voice => self.voice,
        }
    }

    /// The sending half for one category.
    pub fn sender_for(&self, category: EventCategory) -> (r: &crossbeam_channel::Sender<Event>)
        ensures
            *r == self.spec_sender_for(category),
    {
        match category {
            EventCategory::Activities => &self.activities,
            EventCategory::Lobbies => &self.lobbies,
            EventCategory::Networking => &self.networking,
            EventCategory::Overlay => &self.overlay,
            EventCategory::Relationships => &self.relationships,
            EventCategory::Store => &self.store,
            EventCategory::Users => &self.users,
            EventCategory::Voice => &self.voice,
        }
    }

    /// Event trampoline: routes one notification onto the channel of its own
    /// category — the one `spec_sender_for(ev.spec_category())` names —
    /// without blocking; a notification whose receiver is already gone is
    /// dropped, never surfaced.
    pub fn deliver(&self, ev: Event) {
        let category = ev.category();
        try_send_event(self.sender_for(category), ev);
    }
}

impl EventReceivers {
    /// Drains and discards the events buffered on one channel at the moment
    /// of the call, as many as the channel then reports.
    fn drain_one(r: &crossbeam_channel::Receiver<Event>) {
        let n = event_queue_len(r);
        let mut i: usize = 0;
        while i < n
            invariant
                i <= n,
            decreases n - i,
        {
            let _discarded = try_recv_event(r);
            i += 1;
        }
    }

    /// Drains and discards every pending event on every category's channel
    /// without processing any of them. Never fails: the receivers live
    /// exactly as long as the owning handle.
    pub fn empty_channels(&self) {
        Self::drain_one(&self.activities);
        Self::drain_one(&self.lobbies);
        Self::drain_one(&self.networking);
        Self::drain_one(&self.overlay);
        Self::drain_one(&self.relationships);
        Self::drain_one(&self.store);
        Self::drain_one(&self.users);
        Self::drain_one(&self.voice);
    }
}

} // verus!
