use sea_lantern::players::{parse_player_list, strip_info_prefix};
use sea_lantern::properties::ServerProperties;
use sea_lantern::session::{
    check_command_reply, check_login_reply, command_packet, login_packet, RconError, RconSession,
};
use sea_lantern::rcon::{RconPacket, RconPacketType};

#[test]
fn list_reply_with_two_players_parses_to_both() {
    let reply = "There are 2 of a max 20 players online: Alice (uuid-1), Bob (uuid-2)";
    let parsed = parse_player_list(reply).unwrap();
    assert_eq!(parsed.online, 2);
    assert_eq!(parsed.max, 20);
    assert_eq!(parsed.players.len(), 2);
    assert_eq!(parsed.players[0].name, "Alice");
    assert_eq!(parsed.players[0].uuid, "uuid-1");
    assert_eq!(parsed.players[1].name, "Bob");
    assert_eq!(parsed.players[1].uuid, "uuid-2");
}

#[test]
fn list_reply_with_no_players_parses_to_empty_list() {
    let reply = "There are 0 of a max 20 players online:";
    let parsed = parse_player_list(reply).unwrap();
    assert_eq!(parsed.online, 0);
    assert_eq!(parsed.max, 20);
    assert!(parsed.players.is_empty());
}

#[test]
fn list_reply_with_full_uuids_parses() {
    let reply = "There are 1 of a max 10 players online: \
                 Herobrine (069a79f4-44e9-4726-a5be-fca90e38aaf5)";
    let parsed = parse_player_list(reply).unwrap();
    assert_eq!(parsed.players[0].name, "Herobrine");
    assert_eq!(parsed.players[0].uuid, "069a79f4-44e9-4726-a5be-fca90e38aaf5");
}

#[test]
fn unrelated_lines_do_not_parse() {
    assert!(parse_player_list("Saving the game").is_none());
    assert!(parse_player_list("There are many players online").is_none());
    assert!(parse_player_list("There are 2 of a max 20 players online: Alice").is_none());
    assert!(parse_player_list("There are 2 of a max 20 players online: Alice (uuid-1),").is_none());
    assert!(parse_player_list("").is_none());
}

#[test]
fn oversized_counts_do_not_parse() {
    assert!(parse_player_list("There are 99999999999 of a max 20 players online:").is_none());
}

#[test]
fn log_stamp_is_stripped_exactly() {
    let line = "[12:34:56] [Server thread/INFO]: Saved the game";
    assert_eq!(strip_info_prefix(line), Some("Saved the game"));
    assert_eq!(strip_info_prefix("[12:34:56] [Render thread/WARN]: boo"), None);
    assert_eq!(strip_info_prefix("Saved the game"), None);
}

#[test]
fn stripped_list_reply_parses() {
    let line = "[09:00:01] [Server thread/INFO]: There are 0 of a max 8 players online:";
    let rest = strip_info_prefix(line).unwrap();
    let parsed = parse_player_list(rest).unwrap();
    assert_eq!(parsed.online, 0);
    assert_eq!(parsed.max, 8);
}

#[test]
fn setting_a_property_overwrites_or_appends() {
    let mut props = ServerProperties::new();
    props.set("enable-rcon", "true");
    props.set("rcon.password", "hunter2");
    props.set("max-players", "20");
    assert_eq!(props.get("enable-rcon").map(String::as_str), Some("true"));
    assert_eq!(props.get("max-players").map(String::as_str), Some("20"));
    props.set("max-players", "40");
    assert_eq!(props.get("max-players").map(String::as_str), Some("40"));
    assert_eq!(props.get("motd"), None);
    assert_eq!(props.entries.len(), 3);
    // Order of first insertion is kept.
    assert_eq!(props.entries[0].key, "enable-rcon");
    assert_eq!(props.entries[2].key, "max-players");
}

#[test]
fn session_ids_grow_one_by_one() {
    let mut session = RconSession::new();
    assert_eq!(session.take_request_id(), 0);
    assert_eq!(session.take_request_id(), 1);
    assert_eq!(session.take_request_id(), 2);
}

#[test]
fn login_reply_meanings() {
    let accepted = RconPacket::new(4, RconPacketType::Command, "").unwrap();
    assert!(check_login_reply(4, &accepted).is_ok());
    let refused = RconPacket::new(-1, RconPacketType::Command, "").unwrap();
    assert_eq!(check_login_reply(4, &refused), Err(RconError::AuthFailed));
    let stray = RconPacket::new(9, RconPacketType::Command, "").unwrap();
    assert_eq!(
        check_login_reply(4, &stray),
        Err(RconError::MalformedResponse)
    );
}

#[test]
fn command_reply_must_carry_the_request_id() {
    let reply = RconPacket::new(4, RconPacketType::Command, "Seed: [42]").unwrap();
    assert_eq!(check_command_reply(4, reply).as_deref(), Ok("Seed: [42]"));
    let stray = RconPacket::new(5, RconPacketType::Command, "Seed: [42]").unwrap();
    assert_eq!(check_command_reply(4, stray), Err(RconError::MalformedResponse));
}

#[test]
fn packet_builders_fix_the_type() {
    let login = login_packet(0, "hunter2").unwrap();
    assert!(matches!(login.packet_type, RconPacketType::Login));
    assert_eq!(login.payload, "hunter2");
    let command = command_packet(1, "list uuids").unwrap();
    assert!(matches!(command.packet_type, RconPacketType::Command));
    assert_eq!(command.payload, "list uuids");
    assert!(login_packet(0, "pässwörd").is_err());
}
