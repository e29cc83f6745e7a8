use room_gateway::auth::CredentialGate;
use room_gateway::gateway::{create_room, list_rooms, reset_handler, socket_handler, spectate_handler};
use room_gateway::messages::{ConnectionIdentity, QueryString, RoomInfo, RoomOption, ServerCommand};
use room_gateway::registry::RoomRegistry;
use room_gateway::GatewayError;

fn gate(dev_mode: bool) -> CredentialGate {
    CredentialGate { dev_mode, api_keys: vec!["alpha".to_string(), "beta".to_string()] }
}

fn query(key: &str, name: &str) -> QueryString {
    QueryString { key: key.to_string(), name: name.to_string() }
}

fn option(room_id: i32, max_players: i32, time: i32) -> RoomOption {
    RoomOption { room_id, max_players, time }
}

#[test]
fn authorize_follows_allow_list_and_dev_mode() {
    assert!(gate(false).authorize(&"alpha".to_string()));
    assert!(gate(false).authorize(&"beta".to_string()));
    assert!(!gate(false).authorize(&"gamma".to_string()));
    assert!(!gate(false).authorize(&"".to_string()));
    assert!(gate(true).authorize(&"gamma".to_string()));
    let empty = CredentialGate { dev_mode: false, api_keys: vec![] };
    assert!(!empty.authorize(&"alpha".to_string()));
}

#[test]
fn create_list_and_reset_scenario() {
    let mut rooms: RoomRegistry<u32> = RoomRegistry::new();
    let created = create_room(&mut rooms, &option(1, 4, 60), 100);
    assert_eq!(created.confirmation, "room created with id: 1 - max_players: 4 - time: 60");
    assert_eq!(created.replaced, None);
    assert_eq!(list_rooms(&rooms), vec![RoomInfo { room_id: 1 }]);
    assert_eq!(reset_handler(&rooms, 1), Ok((&100, ServerCommand::Reset)));
    assert_eq!(reset_handler(&rooms, 2), Err(GatewayError::NotFound));
}

#[test]
fn repeated_create_leaves_one_entry() {
    let mut rooms: RoomRegistry<u32> = RoomRegistry::new();
    let first = create_room(&mut rooms, &option(5, 2, 30), 51);
    assert_eq!(first.replaced, None);
    let second = create_room(&mut rooms, &option(5, 8, 90), 52);
    assert_eq!(second.replaced, Some(51));
    assert_eq!(second.confirmation, "room created with id: 5 - max_players: 8 - time: 90");
    assert_eq!(list_rooms(&rooms), vec![RoomInfo { room_id: 5 }]);
    assert_eq!(rooms.lookup(5), Some(&52));
}

#[test]
fn confirmation_writes_signed_decimals() {
    let mut rooms: RoomRegistry<u32> = RoomRegistry::new();
    let created = create_room(&mut rooms, &option(0, -7, i32::MIN), 1);
    assert_eq!(created.confirmation, "room created with id: 0 - max_players: -7 - time: -2147483648");
    let created = create_room(&mut rooms, &option(i32::MAX, 10, 1000), 2);
    assert_eq!(created.confirmation, "room created with id: 2147483647 - max_players: 10 - time: 1000");
}

#[test]
fn spectate_existing_room_needs_no_credential() {
    let mut rooms: RoomRegistry<u32> = RoomRegistry::new();
    create_room(&mut rooms, &option(3, 4, 60), 33);
    let (handle, identity) = spectate_handler(&rooms, 3).unwrap();
    assert_eq!(*handle, 33);
    assert!(identity.is_spectator());
    assert_eq!(identity.room_id(), 3);
    assert_eq!(identity.key(), "SPECTATOR");
    assert_eq!(identity.name(), "SPECTATOR");
}

#[test]
fn wrong_credential_is_rejected_before_lookup() {
    let mut rooms: RoomRegistry<u32> = RoomRegistry::new();
    create_room(&mut rooms, &option(1, 4, 60), 10);
    assert!(matches!(
        socket_handler(&gate(false), &rooms, 1, &query("wrong", "ann")),
        Err(GatewayError::Authorization)
    ));
    assert!(matches!(
        socket_handler(&gate(false), &rooms, 2, &query("wrong", "ann")),
        Err(GatewayError::Authorization)
    ));
}

#[test]
fn missing_room_is_not_found_and_changes_nothing() {
    let mut rooms: RoomRegistry<u32> = RoomRegistry::new();
    create_room(&mut rooms, &option(1, 4, 60), 10);
    assert!(matches!(
        socket_handler(&gate(false), &rooms, 2, &query("alpha", "ann")),
        Err(GatewayError::NotFound)
    ));
    assert!(matches!(spectate_handler(&rooms, 2), Err(GatewayError::NotFound)));
    assert_eq!(rooms.len(), 1);
    assert_eq!(rooms.enumerate(), vec![1]);
    assert_eq!(rooms.lookup(1), Some(&10));
}

#[test]
fn player_connection_carries_key_and_name() {
    let mut rooms: RoomRegistry<u32> = RoomRegistry::new();
    create_room(&mut rooms, &option(6, 4, 60), 60);
    let (handle, identity) = socket_handler(&gate(false), &rooms, 6, &query("beta", "bob")).unwrap();
    assert_eq!(*handle, 60);
    assert!(!identity.is_spectator());
    assert_eq!(identity.room_id(), 6);
    assert_eq!(identity.key(), "beta");
    assert_eq!(identity.name(), "bob");
    let (_, dev) = socket_handler(&gate(true), &rooms, 6, &query("anything", "cy")).unwrap();
    assert_eq!(dev.key(), "anything");
}
