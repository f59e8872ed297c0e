//! The event channel registry: routing, draining, bulk discarding.

use discord_game_sdk::discord::Discord;
use discord_game_sdk::event::{Event, EventCategory};

#[test]
fn events_route_to_their_category() {
    let d = Discord::new(10).unwrap();
    d.event_senders().deliver(Event::OverlayToggle { opened: true });
    d.event_senders().deliver(Event::LobbyUpdate { lobby_id: 77 });

    let receivers = d.event_receivers();
    assert_eq!(
        receivers.overlay.try_recv(),
        Ok(Event::OverlayToggle { opened: true })
    );
    assert_eq!(receivers.lobbies.try_recv(), Ok(Event::LobbyUpdate { lobby_id: 77 }));
    assert!(receivers.activities.try_recv().is_err());
    assert!(receivers.networking.try_recv().is_err());
    assert!(receivers.relationships.try_recv().is_err());
    assert!(receivers.store.try_recv().is_err());
    assert!(receivers.users.try_recv().is_err());
    assert!(receivers.voice.try_recv().is_err());
}

#[test]
fn events_keep_arrival_order_per_category() {
    let d = Discord::new(11).unwrap();
    d.event_senders().deliver(Event::LobbyUpdate { lobby_id: 1 });
    d.event_senders().deliver(Event::LobbyUpdate { lobby_id: 2 });
    let receivers = d.event_receivers();
    assert_eq!(receivers.lobbies.try_recv(), Ok(Event::LobbyUpdate { lobby_id: 1 }));
    assert_eq!(receivers.lobbies.try_recv(), Ok(Event::LobbyUpdate { lobby_id: 2 }));
}

#[test]
fn empty_event_receivers_discards_all() {
    // K pending events across the categories are all removed, and no
    // callback fires: the pending entries are untouched.
    let mut d = Discord::new(12).unwrap();
    let (_token, _sender) =
        d.register_callback(discord_game_sdk::callbacks::CallbackShape::Unit);

    d.event_senders().deliver(Event::ActivityJoin { secret: String::from("s") });
    d.event_senders().deliver(Event::OverlayToggle { opened: false });
    d.event_senders().deliver(Event::RelationshipRefresh);
    d.event_senders().deliver(Event::StoreEntitlementCreate { entitlement_id: 3 });
    d.event_senders().deliver(Event::UserCurrentUpdate);
    d.event_senders().deliver(Event::VoiceSettingsUpdate);
    d.event_senders().deliver(Event::NetworkRouteUpdate { route: String::from("r") });
    d.event_senders().deliver(Event::LobbyUpdate { lobby_id: 9 });
    d.event_senders().deliver(Event::LobbyUpdate { lobby_id: 10 });

    d.empty_event_receivers();

    let receivers = d.event_receivers();
    assert!(receivers.activities.try_recv().is_err());
    assert!(receivers.lobbies.try_recv().is_err());
    assert!(receivers.networking.try_recv().is_err());
    assert!(receivers.overlay.try_recv().is_err());
    assert!(receivers.relationships.try_recv().is_err());
    assert!(receivers.store.try_recv().is_err());
    assert!(receivers.users.try_recv().is_err());
    assert!(receivers.voice.try_recv().is_err());
    assert_eq!(d.pending_len(), 1);
}

#[test]
fn event_category_mapping() {
    assert_eq!(
        Event::ActivityJoin { secret: String::new() }.category(),
        EventCategory::Activities
    );
    assert_eq!(Event::LobbyUpdate { lobby_id: 0 }.category(), EventCategory::Lobbies);
    assert_eq!(
        Event::NetworkRouteUpdate { route: String::new() }.category(),
        EventCategory::Networking
    );
    assert_eq!(Event::OverlayToggle { opened: true }.category(), EventCategory::Overlay);
    assert_eq!(Event::RelationshipRefresh.category(), EventCategory::Relationships);
    assert_eq!(
        Event::StoreEntitlementCreate { entitlement_id: 1 }.category(),
        EventCategory::Store
    );
    assert_eq!(Event::UserCurrentUpdate.category(), EventCategory::Users);
    assert_eq!(Event::VoiceSettingsUpdate.category(), EventCategory::Voice);
}
