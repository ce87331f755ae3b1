use a2s_parse::error::{DecodeError, ErrorKind};
use a2s_parse::info::{
    parse_pregoldsource_info, parse_source_info, Completion, Environment, ExtraDataFields,
    HalfLifeMod, ModDLL, ModType, ServerType, SourceResponseInfo, TheShipFields, TheShipGameMode,
};
use a2s_parse::info_goldsource::{
    parse_goldsource_info, parse_goldsource_info_with, GoldSourceResponseInfo,
};
use a2s_parse::info_source::{has_flag, is_the_ship, parse_source_info_with};

fn text(buf: &mut Vec<u8>, s: &str) {
    buf.extend_from_slice(s.as_bytes());
    buf.push(0);
}

fn no_extra_data() -> ExtraDataFields {
    ExtraDataFields {
        port: None,
        steam_id: None,
        source_tv_port: None,
        source_tv_name: None,
        keywords: None,
        game_id: None,
    }
}

/// A Garry's Mod server: tag `I`, then the record, with flag `0xB1`.
fn chaotic_ttt_info() -> Vec<u8> {
    let mut b = vec![0x49, 0x11];
    text(&mut b, "Chaotic TTT | Mostly Vanilla");
    text(&mut b, "ttt_submarine");
    text(&mut b, "garrysmod");
    text(&mut b, "Trouble in Terrorist Town");
    b.extend_from_slice(&4000i16.to_le_bytes());
    b.extend_from_slice(&[0, 24, 0, 0x64, 0x77, 0, 1]);
    text(&mut b, "2020.10.14");
    b.push(0xB1);
    b.extend_from_slice(&27035i16.to_le_bytes());
    b.extend_from_slice(&0x1300000003A5F1Eu64.to_le_bytes());
    text(&mut b, " gm:terrortown gmc:pvp loc:us ver:210402");
    b.extend_from_slice(&4000u64.to_le_bytes());
    b
}

/// A Counter-Strike 1.6 server that answers in the Source layout.
fn cbla_cs16_info() -> Vec<u8> {
    let mut b = vec![0x49, 48];
    text(&mut b, "CBLA at Vimy CS 1.6");
    text(&mut b, "cs_italy");
    text(&mut b, "cstrike");
    text(&mut b, "Counter-Strike");
    b.extend_from_slice(&10i16.to_le_bytes());
    b.extend_from_slice(&[9, 10, 9, 0x64, 0x6C, 1, 1]);
    text(&mut b, "1.1.2.7/Stdio");
    b.push(177);
    b.extend_from_slice(&27015i16.to_le_bytes());
    b.extend_from_slice(&90147598802991112u64.to_le_bytes());
    text(&mut b, "");
    b.extend_from_slice(&10u64.to_le_bytes());
    b
}

/// A server of The Ship; it sends no flag byte.
fn mucosmos_the_ship_info() -> Vec<u8> {
    let mut b = vec![0x49, 7];
    text(&mut b, "mucosmos.nl Pakjesboot 12 : Cruise ships : Votekick disabled");
    text(&mut b, "huronian");
    text(&mut b, "ship");
    text(&mut b, "The Ship");
    b.extend_from_slice(&2400i16.to_le_bytes());
    b.extend_from_slice(&[5, 32, 5, 0x64, 0x77, 0, 0]);
    b.extend_from_slice(&[0, 2, 3]);
    text(&mut b, "1.0.0.16");
    b
}

/// A Team Fortress 2 server with a SourceTV relay.
fn deathmatch_tf2_info() -> Vec<u8> {
    let mut b = vec![0x49, 47];
    text(&mut b, "DeathMatchTF");
    text(&mut b, "koth_harvest_final");
    text(&mut b, "tf");
    text(&mut b, "Team Fortress");
    b.extend_from_slice(&440i16.to_le_bytes());
    b.extend_from_slice(&[0, 128, 0, 0x64, 0x6C, 0, 1]);
    text(&mut b, "6394067");
    b.push(113);
    b.extend_from_slice(&90147603733485569u64.to_le_bytes());
    b.extend_from_slice(&27020i16.to_le_bytes());
    text(&mut b, "DeathMatchTF");
    text(&mut b, "alltalk,cp,deathmatch,deathmatchtf,dmtf,harvest,harvest1,increased_maxplayers,nocrits,norespawntime");
    b.extend_from_slice(&440u64.to_le_bytes());
    b
}

const CS: [u8; 150] = [
    0x37, 0x37, 0x2E, 0x31, 0x31, 0x31, 0x2E, 0x31, 0x39, 0x34, 0x2E, 0x31, 0x31, 0x30, 0x3A,
    0x32, 0x37, 0x30, 0x31, 0x35, 0x00, 0x46, 0x52, 0x20, 0x2D, 0x20, 0x56, 0x65, 0x72, 0x79,
    0x47, 0x61, 0x6D, 0x65, 0x73, 0x2E, 0x6E, 0x65, 0x74, 0x20, 0x2D, 0x20, 0x44, 0x65, 0x61,
    0x74, 0x6D, 0x61, 0x74, 0x63, 0x68, 0x20, 0x2D, 0x20, 0x6F, 0x6E, 0x6C, 0x79, 0x20, 0x73,
    0x75, 0x72, 0x66, 0x5F, 0x73, 0x6B, 0x69, 0x20, 0x2D, 0x20, 0x6E, 0x67, 0x52, 0x00, 0x73,
    0x75, 0x72, 0x66, 0x5F, 0x73, 0x6B, 0x69, 0x00, 0x63, 0x73, 0x74, 0x72, 0x69, 0x6B, 0x65,
    0x00, 0x43, 0x6F, 0x75, 0x6E, 0x74, 0x65, 0x72, 0x2D, 0x53, 0x74, 0x72, 0x69, 0x6B, 0x65,
    0x00, 0x0C, 0x12, 0x2F, 0x64, 0x6C, 0x00, 0x01, 0x77, 0x77, 0x77, 0x2E, 0x63, 0x6F, 0x75,
    0x6E, 0x74, 0x65, 0x72, 0x2D, 0x73, 0x74, 0x72, 0x69, 0x6B, 0x65, 0x2E, 0x6E, 0x65, 0x74,
    0x00, 0x00, 0x00, 0x01, 0x00, 0x00, 0x00, 0x00, 0x9E, 0xF7, 0x0A, 0x00, 0x01, 0x01, 0x00,
];

const CSS: [u8; 95] = [
    0x02, 0x67, 0x61, 0x6D, 0x65, 0x32, 0x78, 0x73, 0x2E, 0x63, 0x6F, 0x6D, 0x20, 0x43, 0x6F,
    0x75, 0x6E, 0x74, 0x65, 0x72, 0x2D, 0x53, 0x74, 0x72, 0x69, 0x6B, 0x65, 0x20, 0x53, 0x6F,
    0x75, 0x72, 0x63, 0x65, 0x20, 0x23, 0x31, 0x00, 0x64, 0x65, 0x5F, 0x64, 0x75, 0x73, 0x74,
    0x00, 0x63, 0x73, 0x74, 0x72, 0x69, 0x6B, 0x65, 0x00, 0x43, 0x6F, 0x75, 0x6E, 0x74, 0x65,
    0x72, 0x2D, 0x53, 0x74, 0x72, 0x69, 0x6B, 0x65, 0x3A, 0x20, 0x53, 0x6F, 0x75, 0x72, 0x63,
    0x65, 0x00, 0xF0, 0x00, 0x05, 0x10, 0x04, 0x64, 0x6C, 0x00, 0x00, 0x31, 0x2E, 0x30, 0x2E,
    0x30, 0x2E, 0x32, 0x32, 0x00,
];

const SHIP: [u8; 56] = [
    0x07, 0x53, 0x68, 0x69, 0x70, 0x20, 0x53, 0x65, 0x72, 0x76, 0x65, 0x72, 0x00, 0x62, 0x61,
    0x74, 0x61, 0x76, 0x69, 0x65, 0x72, 0x00, 0x73, 0x68, 0x69, 0x70, 0x00, 0x54, 0x68, 0x65,
    0x20, 0x53, 0x68, 0x69, 0x70, 0x00, 0x60, 0x09, 0x01, 0x05, 0x00, 0x6C, 0x77, 0x00, 0x00,
    0x01, 0x03, 0x03, 0x31, 0x2E, 0x30, 0x2E, 0x30, 0x2E, 0x34, 0x00,
];

fn expected_cs() -> GoldSourceResponseInfo {
    GoldSourceResponseInfo {
        address: "77.111.194.110:27015".to_string(),
        name: "FR - VeryGames.net - Deatmatch - only surf_ski - ngR".to_string(),
        map: "surf_ski".to_string(),
        folder: "cstrike".to_string(),
        game: "Counter-Strike".to_string(),
        players: 12,
        max_players: 18,
        protocol: 47,
        server_type: ServerType::Dedicated,
        environment: Environment::Linux,
        visibility: false,
        mod_half_life: true,
        mod_fields: Some(HalfLifeMod {
            link: "www.counter-strike.net".to_string(),
            download_link: "".to_string(),
            version: 1,
            size: 184000000,
            mod_type: ModType::SingleAndMultiplayer,
            dll: ModDLL::Custom,
        }),
        vac: true,
        bots: 0,
    }
}

fn expected_css() -> SourceResponseInfo {
    SourceResponseInfo {
        protocol: 2,
        name: "game2xs.com Counter-Strike Source #1".to_string(),
        map: "de_dust".to_string(),
        folder: "cstrike".to_string(),
        game: "Counter-Strike: Source".to_string(),
        app_id: 240,
        players: 5,
        max_players: 16,
        bots: 4,
        server_type: ServerType::Dedicated,
        environment: Environment::Linux,
        visibility: false,
        vac: false,
        the_ship: None,
        version: "1.0.0.22".to_string(),
        extra_data_flag: 0,
        extra_data_fields: no_extra_data(),
    }
}

fn expected_ship() -> SourceResponseInfo {
    SourceResponseInfo {
        protocol: 7,
        name: "Ship Server".to_string(),
        map: "batavier".to_string(),
        folder: "ship".to_string(),
        game: "The Ship".to_string(),
        app_id: 2400,
        players: 1,
        max_players: 5,
        bots: 0,
        server_type: ServerType::NonDedicated,
        environment: Environment::Windows,
        visibility: false,
        vac: false,
        the_ship: Some(TheShipFields {
            mode: TheShipGameMode::Elimination,
            witnesses: 3,
            duration: 3,
        }),
        version: "1.0.0.4".to_string(),
        extra_data_flag: 0,
        extra_data_fields: no_extra_data(),
    }
}

#[test]
fn info_garrysmod() {
    let info_bytes = chaotic_ttt_info();
    // The first byte is the message tag, by which the decoder was picked.
    let response = parse_source_info(&info_bytes[1..]).unwrap();

    assert_eq!(
        SourceResponseInfo {
            protocol: 0x11,
            name: "Chaotic TTT | Mostly Vanilla".to_string(),
            map: "ttt_submarine".to_string(),
            folder: "garrysmod".to_string(),
            game: "Trouble in Terrorist Town".to_string(),
            app_id: 4000,
            players: 0,
            max_players: 24,
            bots: 0,
            server_type: ServerType::Dedicated,
            environment: Environment::Windows,
            visibility: false,
            vac: true,
            the_ship: None,
            version: "2020.10.14".to_string(),
            extra_data_flag: 0xB1,
            extra_data_fields: ExtraDataFields {
                port: Some(27035),
                steam_id: Some(0x1300000003A5F1E),
                source_tv_port: None,
                source_tv_name: None,
                keywords: Some(" gm:terrortown gmc:pvp loc:us ver:210402".to_string()),
                game_id: Some(4000),
            },
        },
        response
    );
}

#[test]
fn info_cs16() {
    let info_bytes = cbla_cs16_info();
    let response = parse_source_info(&info_bytes[1..]).unwrap();

    assert_eq!(
        SourceResponseInfo {
            protocol: 48,
            name: "CBLA at Vimy CS 1.6".to_string(),
            map: "cs_italy".to_string(),
            folder: "cstrike".to_string(),
            game: "Counter-Strike".to_string(),
            app_id: 10,
            players: 9,
            max_players: 10,
            bots: 9,
            server_type: ServerType::Dedicated,
            environment: Environment::Linux,
            visibility: true,
            vac: true,
            the_ship: None,
            version: "1.1.2.7/Stdio".to_string(),
            extra_data_flag: 177,
            extra_data_fields: ExtraDataFields {
                port: Some(27015),
                steam_id: Some(90147598802991112),
                source_tv_port: None,
                source_tv_name: None,
                keywords: Some("".to_string()),
                game_id: Some(10),
            },
        },
        response
    );
}

#[test]
fn info_info_the_ship() {
    let info_bytes = mucosmos_the_ship_info();
    let response = parse_source_info(&info_bytes[1..]).unwrap();

    assert_eq!(
        SourceResponseInfo {
            protocol: 7,
            name: "mucosmos.nl Pakjesboot 12 : Cruise ships : Votekick disabled".to_string(),
            map: "huronian".to_string(),
            folder: "ship".to_string(),
            game: "The Ship".to_string(),
            app_id: 2400,
            players: 5,
            max_players: 32,
            bots: 5,
            server_type: ServerType::Dedicated,
            environment: Environment::Windows,
            visibility: false,
            vac: false,
            the_ship: Some(TheShipFields {
                mode: TheShipGameMode::Hunt,
                witnesses: 2,
                duration: 3,
            }),
            version: "1.0.0.16".to_string(),
            extra_data_flag: 0,
            extra_data_fields: no_extra_data(),
        },
        response
    );
}

#[test]
fn info_sourcetv() {
    let info_bytes = deathmatch_tf2_info();
    let response = parse_source_info(&info_bytes[1..]).unwrap();

    assert_eq!(
        SourceResponseInfo {
            protocol: 47,
            name: "DeathMatchTF".to_string(),
            map: "koth_harvest_final".to_string(),
            folder: "tf".to_string(),
            game: "Team Fortress".to_string(),
            app_id: 440,
            players: 0,
            max_players: 128,
            bots: 0,
            server_type: ServerType::Dedicated,
            environment: Environment::Linux,
            visibility: false,
            vac: true,
            the_ship: None,
            version: "6394067".to_string(),
            extra_data_flag: 113,
            extra_data_fields: ExtraDataFields {
                port: None,
                steam_id: Some(90147603733485569),
                source_tv_port: Some(27020),
                source_tv_name: Some("DeathMatchTF".to_string()),
                keywords: Some("alltalk,cp,deathmatch,deathmatchtf,dmtf,harvest,harvest1,increased_maxplayers,nocrits,norespawntime".to_string()),
                game_id: Some(440),
            },
        },
        response
    );
}

#[test]
fn info_goldsource_info_cs() {
    let cs: [u8; 150] = CS;
    let response = parse_goldsource_info(&cs).unwrap();
    assert_eq!(expected_cs(), response);
}

#[test]
fn goldsource_info_info_cs() {
    let cs: [u8; 150] = CS;
    let response = parse_goldsource_info_with(&cs, Completion::Strict).unwrap();
    assert_eq!(expected_cs(), response);
    let mod_fields = response.mod_fields.unwrap();
    assert_eq!(1, mod_fields.version);
    assert_eq!(184000000, mod_fields.size);
    assert_eq!(ModDLL::Custom, mod_fields.dll);
}

#[test]
fn info_source_info_css() {
    let css: [u8; 95] = CSS;
    let response = parse_source_info(&css).unwrap();
    assert_eq!(expected_css(), response);
}

#[test]
fn source_info_info_css() {
    let css: [u8; 95] = CSS;
    let response = parse_source_info_with(&css, Completion::Strict).unwrap();
    assert_eq!(240, response.app_id);
    assert_eq!(16, response.max_players);
    assert_eq!(None, response.the_ship);
    assert_eq!(no_extra_data(), response.extra_data_fields);
    assert_eq!(expected_css(), response);
}

#[test]
fn info_source_info_the_ship() {
    let ship: [u8; 56] = SHIP;
    let response = parse_source_info(&ship).unwrap();
    assert_eq!(expected_ship(), response);
}

#[test]
fn source_info_info_the_ship() {
    let ship: [u8; 56] = SHIP;
    let response = parse_source_info_with(&ship, Completion::Lenient).unwrap();
    assert_eq!(2400, response.app_id);
    assert_eq!(
        Some(TheShipFields { mode: TheShipGameMode::Elimination, witnesses: 3, duration: 3 }),
        response.the_ship
    );
    assert_eq!(expected_ship(), response);
}

/// The fixed part of a Source record up to and including the version, for
/// the application id `app_id`, with the bytes `ship` between the VAC byte
/// and the version.
fn source_record(app_id: i16, ship: &[u8]) -> Vec<u8> {
    let mut b = vec![17];
    text(&mut b, "n");
    text(&mut b, "m");
    text(&mut b, "f");
    text(&mut b, "g");
    b.extend_from_slice(&app_id.to_le_bytes());
    b.extend_from_slice(&[1, 2, 3, 0x64, 0x6C, 0, 1]);
    b.extend_from_slice(ship);
    text(&mut b, "v");
    b
}

/// The bytes of the optional fields that `flag` announces, with fixed values.
fn extra_data(flag: u8) -> Vec<u8> {
    let mut b = Vec::new();
    if flag & 0x80 != 0 {
        b.extend_from_slice(&27015i16.to_le_bytes());
    }
    if flag & 0x10 != 0 {
        b.extend_from_slice(&0x0123_4567_89AB_CDEFu64.to_le_bytes());
    }
    if flag & 0x40 != 0 {
        b.extend_from_slice(&27020i16.to_le_bytes());
        text(&mut b, "tv");
    }
    if flag & 0x20 != 0 {
        text(&mut b, "a,b");
    }
    if flag & 0x01 != 0 {
        b.extend_from_slice(&440u64.to_le_bytes());
    }
    b
}

#[test]
fn every_flag_byte_gates_each_field_by_its_own_bit() {
    for flag in 0..=255u8 {
        let mut b = source_record(440, &[]);
        b.push(flag);
        b.extend_from_slice(&extra_data(flag));
        let info = parse_source_info(&b).unwrap();
        assert_eq!(flag, info.extra_data_flag);
        let fields = info.extra_data_fields;
        assert_eq!(fields.port, if flag & 0x80 != 0 { Some(27015) } else { None });
        assert_eq!(
            fields.steam_id,
            if flag & 0x10 != 0 { Some(0x0123_4567_89AB_CDEF) } else { None }
        );
        assert_eq!(fields.source_tv_port, if flag & 0x40 != 0 { Some(27020) } else { None });
        assert_eq!(
            fields.source_tv_name,
            if flag & 0x40 != 0 { Some("tv".to_string()) } else { None }
        );
        assert_eq!(fields.keywords, if flag & 0x20 != 0 { Some("a,b".to_string()) } else { None });
        assert_eq!(fields.game_id, if flag & 0x01 != 0 { Some(440) } else { None });
    }
}

#[test]
fn every_flag_byte_decodes_on_a_buffer_of_zeros() {
    for flag in 0..=255u8 {
        let mut extra = 0;
        for (bit, len) in [(0x80u8, 2), (0x10, 8), (0x40, 3), (0x20, 1), (0x01, 8)] {
            if flag & bit != 0 {
                extra += len;
            }
        }
        let mut b = vec![0u8; 16 + extra];
        b[15] = flag;
        let info = parse_source_info(&b).unwrap();
        assert_eq!(flag, info.extra_data_flag);
        assert_eq!(0, info.app_id);
        assert_eq!("", info.version);
        assert_eq!(flag & 0x80 != 0, info.extra_data_fields.port == Some(0));
        assert_eq!(flag & 0x10 != 0, info.extra_data_fields.steam_id == Some(0));
        assert_eq!(flag & 0x40 != 0, info.extra_data_fields.source_tv_port == Some(0));
        assert_eq!(
            flag & 0x40 != 0,
            info.extra_data_fields.source_tv_name == Some(String::new())
        );
        assert_eq!(flag & 0x20 != 0, info.extra_data_fields.keywords == Some(String::new()));
        assert_eq!(flag & 0x01 != 0, info.extra_data_fields.game_id == Some(0));
    }
}

#[test]
fn unassigned_flag_bits_announce_nothing() {
    let mut b = source_record(440, &[]);
    b.push(0x0E);
    let info = parse_source_info(&b).unwrap();
    assert_eq!(0x0E, info.extra_data_flag);
    assert_eq!(no_extra_data(), info.extra_data_fields);
}

#[test]
fn flag_bits_are_told_apart() {
    assert!(has_flag(0xB1, 0x80));
    assert!(has_flag(0xB1, 0x20));
    assert!(has_flag(0xB1, 0x10));
    assert!(has_flag(0xB1, 0x01));
    assert!(!has_flag(0xB1, 0x40));
    assert!(!has_flag(0x00, 0x80));
    assert!(has_flag(0xFF, 0x40));
}

#[test]
fn the_ship_fields_follow_the_ids_of_the_ship_only() {
    let ship_ids = [2400i16, 2401, 2402, 2412, 2430, 2405, 2406];
    for app_id in ship_ids {
        assert!(is_the_ship(app_id));
        let b = source_record(app_id, &[4, 9, 30]);
        let info = parse_source_info(&b).unwrap();
        assert_eq!(
            Some(TheShipFields { mode: TheShipGameMode::VIP_Team, witnesses: 9, duration: 30 }),
            info.the_ship
        );
    }
    for app_id in [0i16, 10, 240, 440, 2399, 2403, 2404, 2407, 2411, 2413, 2429, 2431, -2400, i16::MAX, i16::MIN] {
        assert!(!is_the_ship(app_id));
        let b = source_record(app_id, &[]);
        let info = parse_source_info(&b).unwrap();
        assert_eq!(None, info.the_ship);
        assert_eq!(app_id, info.app_id);
    }
}

#[test]
fn the_ship_bytes_behind_another_id_are_not_taken_for_ship_fields() {
    // Three more bytes where a server of The Ship would have its fields: for
    // any other game they are the start of the version string.
    let b = source_record(240, &[0x41, 0x42, 0x43]);
    let info = parse_source_info(&b).unwrap();
    assert_eq!(None, info.the_ship);
    assert_eq!("ABCv", info.version);
}

#[test]
fn the_ship_game_modes() {
    let modes = [
        (0u8, TheShipGameMode::Hunt),
        (1, TheShipGameMode::Elimination),
        (2, TheShipGameMode::Duel),
        (3, TheShipGameMode::Deathmatch),
        (4, TheShipGameMode::VIP_Team),
        (5, TheShipGameMode::Team_Elimination),
        (6, TheShipGameMode::Other(6)),
        (255, TheShipGameMode::Other(255)),
    ];
    for (byte, mode) in modes {
        assert_eq!(mode, TheShipGameMode::from(byte));
        let info = parse_source_info(&source_record(2400, &[byte, 1, 2])).unwrap();
        assert_eq!(Some(TheShipFields { mode, witnesses: 1, duration: 2 }), info.the_ship);
    }
}

#[test]
fn server_type_bytes() {
    assert_eq!(ServerType::Dedicated, ServerType::from(b'D'));
    assert_eq!(ServerType::Dedicated, ServerType::from(b'd'));
    assert_eq!(ServerType::NonDedicated, ServerType::from(b'L'));
    assert_eq!(ServerType::NonDedicated, ServerType::from(b'l'));
    assert_eq!(ServerType::SourceTV, ServerType::from(b'P'));
    assert_eq!(ServerType::SourceTV, ServerType::from(b'p'));
    assert_eq!(ServerType::RagDollKungFu, ServerType::from(0));
    assert_eq!(ServerType::Other(b'x'), ServerType::from(b'x'));
    assert_eq!(ServerType::Other(255), ServerType::from(255));
}

#[test]
fn environment_bytes() {
    assert_eq!(Environment::Linux, Environment::from(b'L'));
    assert_eq!(Environment::Linux, Environment::from(b'l'));
    assert_eq!(Environment::Windows, Environment::from(b'W'));
    assert_eq!(Environment::Windows, Environment::from(b'w'));
    assert_eq!(Environment::MacOS, Environment::from(b'M'));
    assert_eq!(Environment::MacOS, Environment::from(b'm'));
    assert_eq!(Environment::MacOS, Environment::from(b'O'));
    assert_eq!(Environment::MacOS, Environment::from(b'o'));
    assert_eq!(Environment::Other(0), Environment::from(0));
    assert_eq!(Environment::Other(b'z'), Environment::from(b'z'));
}

#[test]
fn mod_bytes() {
    assert_eq!(ModType::SingleAndMultiplayer, ModType::from(0));
    assert_eq!(ModType::MultiplayerOnly, ModType::from(1));
    assert_eq!(ModType::Other(2), ModType::from(2));
    assert_eq!(ModDLL::HalfLife, ModDLL::from(0));
    assert_eq!(ModDLL::Custom, ModDLL::from(1));
    assert_eq!(ModDLL::Other(200), ModDLL::from(200));
}

#[test]
fn unknown_enumeration_bytes_do_not_stop_the_decoder() {
    let mut b = vec![17];
    text(&mut b, "n");
    text(&mut b, "m");
    text(&mut b, "f");
    text(&mut b, "g");
    b.extend_from_slice(&2400i16.to_le_bytes());
    b.extend_from_slice(&[1, 2, 3, b'?', b'!', 7, 0]);
    b.extend_from_slice(&[99, 1, 2]);
    text(&mut b, "v");
    let info = parse_source_info(&b).unwrap();
    assert_eq!(ServerType::Other(b'?'), info.server_type);
    assert_eq!(Environment::Other(b'!'), info.environment);
    assert!(info.visibility);
    assert!(!info.vac);
    assert_eq!(TheShipGameMode::Other(99), info.the_ship.unwrap().mode);
}

#[test]
fn source_info_cut_short_fails_where_the_missing_field_starts() {
    let full = chaotic_ttt_info()[1..].to_vec();
    // Within the name: no terminator is found, the error points at the end.
    assert_eq!(
        Err(DecodeError { kind: ErrorKind::UnexpectedEof, offset: 5 }),
        parse_source_info(&full[..5])
    );
    // Nothing at all.
    assert_eq!(
        Err(DecodeError { kind: ErrorKind::UnexpectedEof, offset: 0 }),
        parse_source_info(&[])
    );
    // One byte of the two-byte application id.
    let app_id_at = 1 + 29 + 14 + 10 + 26;
    assert_eq!(
        Err(DecodeError { kind: ErrorKind::UnexpectedEof, offset: app_id_at }),
        parse_source_info(&full[..app_id_at + 1])
    );
    // The flag announces a game id, of which the last byte is missing.
    assert_eq!(
        Err(DecodeError { kind: ErrorKind::UnexpectedEof, offset: full.len() - 8 }),
        parse_source_info(&full[..full.len() - 1])
    );
}

#[test]
fn every_proper_prefix_of_a_record_with_flag_fails_or_loses_the_flag() {
    let full = chaotic_ttt_info()[1..].to_vec();
    let flag_at = full.len() - 1 - 2 - 8 - 41 - 8;
    for cut in 0..full.len() {
        let r = parse_source_info(&full[..cut]);
        if cut == flag_at {
            // The record ends behind the version: a record without flag.
            let info = r.unwrap();
            assert_eq!(0, info.extra_data_flag);
            assert_eq!(no_extra_data(), info.extra_data_fields);
        } else {
            assert_eq!(ErrorKind::UnexpectedEof, r.unwrap_err().kind);
        }
    }
}

#[test]
fn strict_source_info_rejects_trailing_bytes_lenient_accepts_them() {
    let mut b = CSS.to_vec();
    // A record without flag byte, then one byte: it is read as a flag of
    // zero, and nothing is left.
    b.push(0);
    assert_eq!(Ok(expected_css()), parse_source_info(&b));
    // One more byte is left over.
    b.push(0x55);
    assert_eq!(
        Err(DecodeError { kind: ErrorKind::TrailingData, offset: 96 }),
        parse_source_info(&b)
    );
    assert_eq!(
        Err(DecodeError { kind: ErrorKind::TrailingData, offset: 96 }),
        parse_source_info_with(&b, Completion::Strict)
    );
    assert_eq!(Ok(expected_css()), parse_source_info_with(&b, Completion::Lenient));
}

#[test]
fn goldsource_is_strict_and_pregoldsource_is_lenient() {
    let mut b = CS.to_vec();
    assert_eq!(Ok(expected_cs()), parse_goldsource_info(&b));
    assert_eq!(Ok(expected_cs()), parse_pregoldsource_info(&b));
    b.extend_from_slice(&[1, 2, 3]);
    assert_eq!(
        Err(DecodeError { kind: ErrorKind::TrailingData, offset: 150 }),
        parse_goldsource_info(&b)
    );
    assert_eq!(Ok(expected_cs()), parse_pregoldsource_info(&b));
    assert_eq!(Ok(expected_cs()), parse_goldsource_info_with(&b, Completion::Lenient));
}

fn goldsource_record(is_mod: u8, mod_block: &[u8]) -> Vec<u8> {
    let mut b = Vec::new();
    text(&mut b, "1.2.3.4:27015");
    text(&mut b, "n");
    text(&mut b, "m");
    text(&mut b, "f");
    text(&mut b, "g");
    b.extend_from_slice(&[3, 16, 47, b'L', b'W', 1, is_mod]);
    b.extend_from_slice(mod_block);
    b.extend_from_slice(&[0, 2]);
    b
}

#[test]
fn goldsource_without_mod_reads_no_mod_block() {
    let info = parse_goldsource_info(&goldsource_record(0, &[])).unwrap();
    assert_eq!("1.2.3.4:27015", info.address);
    assert_eq!(3, info.players);
    assert_eq!(16, info.max_players);
    assert_eq!(47, info.protocol);
    assert_eq!(ServerType::NonDedicated, info.server_type);
    assert_eq!(Environment::Windows, info.environment);
    assert!(info.visibility);
    assert!(!info.mod_half_life);
    assert_eq!(None, info.mod_fields);
    assert!(!info.vac);
    assert_eq!(2, info.bots);
}

#[test]
fn goldsource_mod_block() {
    let mut block = Vec::new();
    text(&mut block, "site");
    text(&mut block, "dl");
    block.push(0);
    block.extend_from_slice(&(-5i32).to_le_bytes());
    block.extend_from_slice(&123456789i32.to_le_bytes());
    block.extend_from_slice(&[1, 7]);
    // Any byte but zero sets the mod flag.
    let info = parse_goldsource_info(&goldsource_record(9, &block)).unwrap();
    assert!(info.mod_half_life);
    assert_eq!(
        Some(HalfLifeMod {
            link: "site".to_string(),
            download_link: "dl".to_string(),
            version: -5,
            size: 123456789,
            mod_type: ModType::MultiplayerOnly,
            dll: ModDLL::Other(7),
        }),
        info.mod_fields
    );
}

#[test]
fn goldsource_mod_block_needs_its_null_byte() {
    let mut block = Vec::new();
    text(&mut block, "site");
    text(&mut block, "dl");
    block.push(1);
    block.extend_from_slice(&1i32.to_le_bytes());
    block.extend_from_slice(&2i32.to_le_bytes());
    block.extend_from_slice(&[0, 0]);
    let b = goldsource_record(1, &block);
    let null_at = 14 + 8 + 7 + 5 + 3;
    assert_eq!(
        Err(DecodeError { kind: ErrorKind::MissingNull, offset: null_at }),
        parse_goldsource_info(&b)
    );
    // Cut right before the byte, it is missing rather than wrong.
    assert_eq!(
        Err(DecodeError { kind: ErrorKind::UnexpectedEof, offset: null_at }),
        parse_pregoldsource_info(&b[..null_at])
    );
}

#[test]
fn goldsource_cut_short() {
    for cut in 0..CS.len() {
        assert_eq!(ErrorKind::UnexpectedEof, parse_goldsource_info(&CS[..cut]).unwrap_err().kind);
        assert_eq!(
            parse_goldsource_info(&CS[..cut]).unwrap_err(),
            parse_pregoldsource_info(&CS[..cut]).unwrap_err()
        );
    }
    assert_eq!(
        Err(DecodeError { kind: ErrorKind::UnexpectedEof, offset: 149 }),
        parse_goldsource_info(&CS[..149])
    );
}

#[test]
fn info_decoding_is_repeatable() {
    let good = chaotic_ttt_info();
    assert_eq!(parse_source_info(&good[1..]), parse_source_info(&good[1..]));
    assert_eq!(parse_source_info(&good[1..40]), parse_source_info(&good[1..40]));
    assert_eq!(parse_goldsource_info(&CS), parse_goldsource_info(&CS));
    assert_eq!(parse_goldsource_info(&CSS), parse_goldsource_info(&CSS));
    let copy = good.clone();
    assert_eq!(parse_source_info(&good[1..]), parse_source_info(&copy[1..]));
}

#[test]
fn text_that_is_not_utf8_is_replaced() {
    let mut b = vec![17];
    b.extend_from_slice(&[b'a', 0xFF, b'b', 0]);
    text(&mut b, "m");
    text(&mut b, "f");
    text(&mut b, "g");
    b.extend_from_slice(&10i16.to_le_bytes());
    b.extend_from_slice(&[1, 2, 3, 0x64, 0x6C, 0, 1]);
    text(&mut b, "Grüße");
    let info = parse_source_info(&b).unwrap();
    assert_eq!("a\u{FFFD}b", info.name);
    assert_eq!("Grüße", info.version);
}
