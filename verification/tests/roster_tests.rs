use rcon_moderation::roster::{
    info_from_address_groups, info_from_identity_groups, locate_player, parse_roster,
    player_from_groups, Player, PlayerInfo,
};

fn groups(texts: &[Option<&str>]) -> Vec<Option<String>> {
    texts.iter().map(|t| t.map(|s| s.to_string())).collect()
}

fn unknown() -> PlayerInfo {
    PlayerInfo {
        name: "Unknown".to_string(),
        steam_id: "Unknown".to_string(),
        ip: "0.0.0.0".to_string(),
    }
}

#[test]
fn one_line_gives_one_record() {
    let players = parse_roster("#  2 1 \"Alice\" STEAM_0:1:111 05:12 34");
    assert_eq!(
        players,
        vec![Player {
            userid: 2,
            name: "Alice".to_string(),
            steam_id: "STEAM_0:1:111".to_string(),
            time: "05:12".to_string(),
            ping: 34,
        }]
    );
}

#[test]
fn parsing_twice_gives_the_same_records() {
    let body = "hostname: test\n# userid name uniqueid connected ping\n#  2 1 \"Alice\" STEAM_0:1:111 05:12 34 0 active\n#  3 2 \"Bob\" STEAM_0:0:222 1:05:12 80 0 active\n";
    let first = parse_roster(body);
    let second = parse_roster(body);
    assert_eq!(first.len(), 2);
    assert_eq!(first, second);
}

#[test]
fn banners_headers_and_blank_lines_are_skipped() {
    let body = "hostname: My Server\nversion : 1.0\n\n# userid name uniqueid connected ping loss state rate adr\n#end\n";
    assert_eq!(parse_roster(body), Vec::<Player>::new());
    assert_eq!(parse_roster(""), Vec::<Player>::new());
}

#[test]
fn the_slot_number_is_optional() {
    let players = parse_roster("# 7 \"Carol\" [U:1:333] 12:00 55\r\n");
    assert_eq!(players.len(), 1);
    assert_eq!(players[0].userid, 7);
    assert_eq!(players[0].name, "Carol");
    assert_eq!(players[0].steam_id, "[U:1:333]");
    assert_eq!(players[0].time, "12:00");
    assert_eq!(players[0].ping, 55);
}

#[test]
fn records_keep_the_order_of_the_lines() {
    let body = "#  9 1 \"Zed\" STEAM_0:1:9 00:10 10\nnoise\n#  4 2 \"Amy\" STEAM_0:1:4 00:20 20\n";
    let players = parse_roster(body);
    assert_eq!(players.len(), 2);
    assert_eq!(players[0].name, "Zed");
    assert_eq!(players[1].name, "Amy");
}

#[test]
fn a_user_id_too_large_becomes_the_sentinel() {
    let players = parse_roster("# 99999999999 1 \"Big\" STEAM_0:1:1 00:01 5");
    assert_eq!(players.len(), 1);
    assert_eq!(players[0].userid, -1);
    assert_eq!(players[0].ping, 5);
}

#[test]
fn a_ping_too_large_becomes_the_sentinel() {
    let players = parse_roster("# 5 1 \"Lag\" STEAM_0:1:1 00:01 99999999999");
    assert_eq!(players.len(), 1);
    assert_eq!(players[0].userid, 5);
    assert_eq!(players[0].ping, 0);
}

#[test]
fn a_partial_line_gives_no_record() {
    assert_eq!(parse_roster("#  2 1 \"Alice\" STEAM_0:1:111"), Vec::<Player>::new());
    assert_eq!(parse_roster("#  2 1 Alice STEAM_0:1:111 05:12 34"), Vec::<Player>::new());
}

#[test]
fn a_record_does_not_span_two_lines() {
    assert_eq!(parse_roster("#  2 1 \"Alice\"\nSTEAM_0:1:111 05:12 34"), Vec::<Player>::new());
}

#[test]
fn groups_give_a_record() {
    let g = groups(&[
        Some("# 2 1 \"Alice\" STEAM_0:1:111 05:12 34"),
        Some("2"),
        Some("Alice"),
        Some("STEAM_0:1:111"),
        Some("05:12"),
        Some("34"),
    ]);
    assert_eq!(
        player_from_groups(&g),
        Some(Player {
            userid: 2,
            name: "Alice".to_string(),
            steam_id: "STEAM_0:1:111".to_string(),
            time: "05:12".to_string(),
            ping: 34,
        })
    );
}

#[test]
fn groups_with_unreadable_numbers_give_sentinels() {
    let g = groups(&[Some("x"), Some("abc"), Some("N"), Some("I"), Some("T"), Some("")]);
    let p = player_from_groups(&g).unwrap();
    assert_eq!(p.userid, -1);
    assert_eq!(p.ping, 0);
    assert_eq!(p.name, "N");
}

#[test]
fn missing_groups_give_no_record() {
    assert_eq!(player_from_groups(&groups(&[Some("x"), Some("1")])), None);
    let g = groups(&[Some("x"), Some("1"), None, Some("I"), Some("T"), Some("3")]);
    assert_eq!(player_from_groups(&g), None);
    assert_eq!(player_from_groups(&Vec::new()), None);
}

#[test]
fn address_groups_give_all_three_fields() {
    let g = groups(&[Some("whole"), Some("Alice"), Some("STEAM_0:1:111"), Some("10.1.2.3")]);
    assert_eq!(
        info_from_address_groups(&g),
        Some(PlayerInfo {
            name: "Alice".to_string(),
            steam_id: "STEAM_0:1:111".to_string(),
            ip: "10.1.2.3".to_string(),
        })
    );
    assert_eq!(info_from_address_groups(&groups(&[Some("whole"), Some("Alice")])), None);
    assert_eq!(
        info_from_address_groups(&groups(&[Some("w"), Some("A"), None, Some("1.2.3.4")])),
        None
    );
}

#[test]
fn identity_groups_default_the_address() {
    let g = groups(&[Some("whole"), Some("Alice"), Some("STEAM_0:1:111")]);
    assert_eq!(
        info_from_identity_groups(&g),
        Some(PlayerInfo {
            name: "Alice".to_string(),
            steam_id: "STEAM_0:1:111".to_string(),
            ip: "0.0.0.0".to_string(),
        })
    );
    assert_eq!(info_from_identity_groups(&groups(&[Some("whole"), None, Some("S")])), None);
    assert_eq!(info_from_identity_groups(&groups(&[Some("whole")])), None);
}

#[test]
fn locating_recovers_name_identity_and_address() {
    let body = "hostname: x\n#  2 1 \"Alice\" STEAM_0:1:111 05:12 34 0 active 80000 10.1.2.3:27005\n#  3 2 \"Bob\" STEAM_0:0:222 01:00 80 0 active 80000 10.9.9.9:27005\n";
    assert_eq!(
        locate_player(body, 3),
        PlayerInfo {
            name: "Bob".to_string(),
            steam_id: "STEAM_0:0:222".to_string(),
            ip: "10.9.9.9".to_string(),
        }
    );
    assert_eq!(locate_player(body, 2).ip, "10.1.2.3");
}

#[test]
fn locating_without_an_address_defaults_it() {
    let body = "#  2 1 \"Alice\" STEAM_0:1:111 05:12 34 0 active\n";
    assert_eq!(
        locate_player(body, 2),
        PlayerInfo {
            name: "Alice".to_string(),
            steam_id: "STEAM_0:1:111".to_string(),
            ip: "0.0.0.0".to_string(),
        }
    );
}

#[test]
fn locating_an_absent_player_gives_unknown() {
    let body = "#  2 1 \"Alice\" STEAM_0:1:111 05:12 34 0 active 80000 10.1.2.3:27005\n";
    assert_eq!(locate_player(body, 22), unknown());
    assert_eq!(locate_player("", 2), unknown());
}

#[test]
fn locating_on_an_unreadable_line_gives_unknown() {
    assert_eq!(locate_player("# 2 garbage\n# 2 1 \"Late\" STEAM_0:1:1 0 0\n", 2), unknown());
}

#[test]
fn locating_a_negative_id_does_not_fail() {
    assert_eq!(locate_player("#  2 1 \"Alice\" STEAM_0:1:111 05:12 34\n", -2), unknown());
}
