//! Handle creation, parameter block, error projection, file metadata.

use discord_game_sdk::discord::{
    create_params, CreateFlags, Discord, ManagerKind, ACTIVITY_MANAGER_VERSION,
    DISCORD_VERSION, LOBBY_MANAGER_VERSION, NETWORK_MANAGER_VERSION, OVERLAY_MANAGER_VERSION,
    RELATIONSHIP_MANAGER_VERSION, STORE_MANAGER_VERSION, USER_MANAGER_VERSION,
    VOICE_MANAGER_VERSION,
};
use discord_game_sdk::error::{project_result, DiscordError};
use discord_game_sdk::file_stat::FileStat;

#[test]
fn new_handle_records_client_id() {
    let d = Discord::new(1_234_567).unwrap();
    assert_eq!(d.client_id(), 1_234_567);
    assert_eq!(d.pending_len(), 0);
}

#[test]
fn create_params_wire_the_event_categories() {
    let p = create_params(42, CreateFlags::NoRequireDiscord);
    assert_eq!(p.client_id, 42);
    assert_eq!(p.flags, 1);
    assert_eq!(p.version, DISCORD_VERSION);

    // Exactly the categories that deliver events carry a table.
    assert!(!p.application_events_wired);
    assert!(!p.image_events_wired);
    assert!(!p.storage_events_wired);
    assert!(!p.achievement_events_wired);
    assert!(p.user_events_wired);
    assert!(p.activity_events_wired);
    assert!(p.relationship_events_wired);
    assert!(p.lobby_events_wired);
    assert!(p.network_events_wired);
    assert!(p.overlay_events_wired);
    assert!(p.store_events_wired);
    assert!(p.voice_events_wired);

    assert_eq!(p.user_version, USER_MANAGER_VERSION);
    assert_eq!(p.activity_version, ACTIVITY_MANAGER_VERSION);
    assert_eq!(p.relationship_version, RELATIONSHIP_MANAGER_VERSION);
    assert_eq!(p.lobby_version, LOBBY_MANAGER_VERSION);
    assert_eq!(p.network_version, NETWORK_MANAGER_VERSION);
    assert_eq!(p.overlay_version, OVERLAY_MANAGER_VERSION);
    assert_eq!(p.store_version, STORE_MANAGER_VERSION);
    assert_eq!(p.voice_version, VOICE_MANAGER_VERSION);
}

#[test]
fn default_flags_require_the_client() {
    assert_eq!(CreateFlags::default(), CreateFlags::Normal);
    assert_eq!(CreateFlags::Normal.bits(), 0);
    assert_eq!(CreateFlags::NoRequireDiscord.bits(), 1);
    let d = Discord::new(9).unwrap();
    assert_eq!(d.creation_params().flags, 0);
}

#[test]
fn kickstart_order_prioritizes_event_sources() {
    let order = Discord::kickstart_managers();
    assert_eq!(
        order,
        vec![
            ManagerKind::Network,
            ManagerKind::Overlay,
            ManagerKind::Relationship,
            ManagerKind::User,
            ManagerKind::Activity,
            ManagerKind::Lobby,
            ManagerKind::Store,
        ]
    );
    // The voice manager is never kickstarted.
    assert!(!order.contains(&ManagerKind::Voice));
}

#[test]
fn status_codes_project_to_their_error_kind() {
    assert_eq!(project_result(0), Ok(()));
    assert_eq!(project_result(1), Err(DiscordError::NetworkError));
    assert_eq!(project_result(2), Err(DiscordError::IncompatibleVersion));
    assert_eq!(project_result(4), Err(DiscordError::InternalError));
    assert_eq!(project_result(7), Err(DiscordError::InvalidPermissions));
    assert_eq!(project_result(9), Err(DiscordError::NotFound));
    assert_eq!(project_result(11), Err(DiscordError::InvalidCredentials));
    assert_eq!(project_result(26), Err(DiscordError::UnsupportedPlatform));
    assert_eq!(project_result(27), Err(DiscordError::NotRunning));
    assert_eq!(project_result(34), Err(DiscordError::RateLimited));
    assert_eq!(project_result(43), Err(DiscordError::TransactionAborted));
    assert_eq!(project_result(999), Err(DiscordError::Other(999)));
    assert_eq!(project_result(-1), Err(DiscordError::Other(-1)));
}

#[test]
fn file_stat_accessors() {
    let stat = FileStat::new(String::from("save.dat"), 4096, 1_500_000_000);
    assert_eq!(stat.filename(), "save.dat");
    assert_eq!(stat.size(), 4096);
    assert_eq!(stat.last_modified(), 1_500_000_000);
}
