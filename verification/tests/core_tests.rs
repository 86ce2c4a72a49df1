use l1core::cipher::Cipher;
use l1core::codec::{decode_length, encode_frame, pad_payload};
use l1core::packet::build_player_charpack;
use l1core::position::{direction_from_delta, heading_delta};
use l1core::registry::{OnlinePlayer, PlayerRegistry};
use l1core::session::{
    decide_char_creation, decide_login, dispatch_opcode, next_state, validate_stat_budget,
    AccountStatus, LoginDecision,
    SessionDirective, SessionState, CREATE_ALREADY_EXISTS, CREATE_INVALID_NAME, CREATE_OK,
    CREATE_WRONG_AMOUNT, C_CHAT, C_CLIENTVERSION, C_LOGINPACKET, C_LOGINTOSERVER, C_MOVECHAR,
    REASON_ACCESS_FAILED, REASON_ACCOUNT_IN_USE, REASON_LOGIN_OK,
};

fn player(object_id: i32, x: i32, y: i32, map_id: i32) -> OnlinePlayer {
    OnlinePlayer {
        object_id,
        name: format!("p{}", object_id),
        x,
        y,
        map_id,
        heading: 0,
        gfx_id: 61,
        level: 1,
        lawful: 0,
        char_type: 0,
        sex: 0,
        clan_name: String::new(),
        title: String::new(),
        outbox: Vec::new(),
    }
}

#[test]
fn test_frame_round_trip() {
    let payload = [9u8, 8, 7];
    let frame = encode_frame(&payload);
    assert_eq!(frame.len(), 5);
    assert_eq!(frame[0], 5);
    assert_eq!(frame[1], 0);
    assert_eq!(&frame[2..], &payload);
    assert_eq!(decode_length(frame[0], frame[1]), Some(3));
}

#[test]
fn test_decode_length_rejects_short_headers() {
    assert_eq!(decode_length(0, 0), None);
    assert_eq!(decode_length(1, 0), None);
    assert_eq!(decode_length(2, 0), Some(0));
    assert_eq!(decode_length(0, 1), Some(254));
}

#[test]
fn test_pad_payload_alignment() {
    assert_eq!(pad_payload(&[]).len(), 0);
    let padded = pad_payload(&[1, 2, 3, 4, 5]);
    assert_eq!(padded, vec![1, 2, 3, 4, 5, 0, 0, 0]);
    assert_eq!(pad_payload(&[1, 2, 3, 4]).len(), 4);
}

#[test]
fn test_cipher_round_trip() {
    let original: Vec<u8> = (0u8..64).collect();
    let mut data = original.clone();

    let mut enc = Cipher::new(0x1234_5678);
    let mut dec = Cipher::new(0x1234_5678);
    enc.encrypt(&mut data);
    assert_ne!(data, original, "encryption should change the bytes");
    dec.decrypt(&mut data);
    assert_eq!(data, original);
}

#[test]
fn test_cipher_round_trip_across_frames() {
    let frames: Vec<Vec<u8>> = vec![vec![1, 2, 3, 4], vec![5, 6, 7, 8], vec![0, 0, 0, 0]];
    let mut enc = Cipher::new(77);
    let mut dec = Cipher::new(77);
    for frame in &frames {
        let mut data = frame.clone();
        enc.encrypt(&mut data);
        dec.decrypt(&mut data);
        assert_eq!(&data, frame);
    }
}

#[test]
fn test_cipher_reordering_breaks_stream() {
    let mut a = vec![1u8, 2, 3, 4];
    let mut b = vec![5u8, 6, 7, 8];
    let mut enc = Cipher::new(99);
    enc.encrypt(&mut a);
    enc.encrypt(&mut b);

    // Decrypt the second frame first: the stream is desynchronized
    let mut dec = Cipher::new(99);
    dec.decrypt(&mut b);
    assert_ne!(b, vec![5u8, 6, 7, 8]);
}

#[test]
fn test_direction_table() {
    assert_eq!(direction_from_delta(0, 1), 0);
    assert_eq!(direction_from_delta(-1, 1), 1);
    assert_eq!(direction_from_delta(-1, 0), 2);
    assert_eq!(direction_from_delta(-1, -1), 3);
    assert_eq!(direction_from_delta(0, -1), 4);
    assert_eq!(direction_from_delta(1, -1), 5);
    assert_eq!(direction_from_delta(1, 0), 6);
    assert_eq!(direction_from_delta(1, 1), 7);
    assert_eq!(direction_from_delta(0, 0), 0);

    // All 8 non-zero deltas map to distinct headings
    let mut seen = [false; 8];
    for dx in -1..=1 {
        for dy in -1..=1 {
            if dx != 0 || dy != 0 {
                let h = direction_from_delta(dx, dy) as usize;
                assert!(!seen[h], "heading {} repeated", h);
                seen[h] = true;
            }
        }
    }
    assert!(seen.iter().all(|&s| s));
}

#[test]
fn test_heading_delta_inverts_direction_table() {
    for h in 0..8 {
        let (dx, dy) = heading_delta(h);
        assert!(dx != 0 || dy != 0);
        assert_eq!(direction_from_delta(dx, dy), h);
    }
}

#[test]
fn test_broadcast_skips_sender_and_far_players() {
    let mut reg = PlayerRegistry::new();
    reg.add_player(player(1, 100, 100, 4)); // sender
    reg.add_player(player(2, 105, 105, 4)); // in range
    reg.add_player(player(3, 150, 100, 4)); // out of range
    reg.add_player(player(4, 100, 100, 7)); // other map

    reg.broadcast_to_nearby(4, 100, 100, 1, &[0xAB, 0xCD]);

    assert!(reg.drain_outbox(1).is_empty(), "the sender must never receive its own broadcast");
    assert_eq!(reg.drain_outbox(2), vec![vec![0xAB, 0xCD]]);
    assert!(reg.drain_outbox(3).is_empty());
    assert!(reg.drain_outbox(4).is_empty());
}

#[test]
fn test_register_deregister_restores_nearby() {
    let mut reg = PlayerRegistry::new();
    reg.add_player(player(1, 100, 100, 4));
    reg.add_player(player(2, 110, 110, 4));

    let before = reg.get_nearby_players(4, 100, 100, 0);

    reg.add_player(player(3, 101, 101, 4));
    reg.remove_player(3);

    let after = reg.get_nearby_players(4, 100, 100, 0);
    assert_eq!(before, after);
    assert_eq!(reg.player_count(), 2);
}

#[test]
fn test_nearby_range_boundary() {
    let mut reg = PlayerRegistry::new();
    reg.add_player(player(1, 100, 100, 4));
    reg.add_player(player(2, 120, 100, 4)); // exactly 20 tiles: visible
    reg.add_player(player(3, 121, 100, 4)); // 21 tiles: not visible

    let near = reg.get_nearby_players(4, 100, 100, 0);
    assert_eq!(near, vec![1, 2]);
}

#[test]
fn test_positions_snapshot() {
    let mut reg = PlayerRegistry::new();
    reg.add_player(player(1, 100, 101, 4));
    reg.add_player(player(2, 200, 201, 7));
    assert_eq!(reg.positions_snapshot(), vec![(1, 100, 101, 4), (2, 200, 201, 7)]);
}

#[test]
fn test_update_position_moves_occupant() {
    let mut reg = PlayerRegistry::new();
    reg.add_player(player(1, 100, 100, 4));
    reg.update_position(1, 160, 100, 6);

    assert!(reg.get_nearby_players(4, 100, 100, 0).is_empty());
    assert_eq!(reg.get_nearby_players(4, 160, 100, 0), vec![1]);
    let p = reg.get_player(1).unwrap();
    assert_eq!((p.x, p.y, p.heading), (160, 100, 6));
}

#[test]
fn test_unknown_opcode_keeps_state() {
    let states = [
        SessionState::Connected,
        SessionState::VersionVerified,
        SessionState::Authenticated,
        SessionState::InGame,
    ];
    for &state in &states {
        // Opcode 77 is in no row of the transition table
        let d = dispatch_opcode(state, 77);
        assert_eq!(d, SessionDirective::Ignore);
        assert_eq!(next_state(state, d, true), state);
        assert_eq!(next_state(state, d, false), state);
    }
    // A valid opcode for the wrong state is also ignored
    let d = dispatch_opcode(SessionState::Connected, C_MOVECHAR);
    assert_eq!(d, SessionDirective::Ignore);
    assert_eq!(next_state(SessionState::Connected, d, true), SessionState::Connected);
}

#[test]
fn test_session_happy_path() {
    let s0 = SessionState::Connected;
    let d1 = dispatch_opcode(s0, C_CLIENTVERSION);
    assert_eq!(d1, SessionDirective::SendServerVersion);
    let s1 = next_state(s0, d1, true);
    assert_eq!(s1, SessionState::VersionVerified);

    let d2 = dispatch_opcode(s1, C_LOGINPACKET);
    assert_eq!(d2, SessionDirective::ProcessLogin);
    let s2 = next_state(s1, d2, true);
    assert_eq!(s2, SessionState::Authenticated);

    let d3 = dispatch_opcode(s2, C_LOGINTOSERVER);
    assert_eq!(d3, SessionDirective::SelectCharacter);
    let s3 = next_state(s2, d3, true);
    assert_eq!(s3, SessionState::InGame);

    assert_eq!(dispatch_opcode(s3, C_CHAT), SessionDirective::Chat);
}

#[test]
fn test_failed_login_keeps_state() {
    let s = SessionState::VersionVerified;
    let d = dispatch_opcode(s, C_LOGINPACKET);
    assert_eq!(next_state(s, d, false), SessionState::VersionVerified);
}

#[test]
fn test_login_decisions() {
    assert_eq!(
        decide_login(false, AccountStatus::Missing, true),
        LoginDecision {
            reply: REASON_ACCESS_FAILED,
            accept: false,
            create_account: false,
            set_online: false
        }
    );
    assert_eq!(
        decide_login(true, AccountStatus::Missing, true),
        LoginDecision {
            reply: REASON_LOGIN_OK,
            accept: true,
            create_account: true,
            set_online: true
        }
    );
    let banned = decide_login(true, AccountStatus::Found { banned: true, online: false }, true);
    assert_eq!(banned.reply, REASON_ACCESS_FAILED);
    assert!(!banned.accept);

    let in_use = decide_login(true, AccountStatus::Found { banned: false, online: true }, true);
    assert_eq!(in_use.reply, REASON_ACCOUNT_IN_USE);
    assert!(!in_use.accept);

    let bad_pw = decide_login(true, AccountStatus::Found { banned: false, online: false }, false);
    assert_eq!(bad_pw.reply, REASON_ACCESS_FAILED);
    assert!(!bad_pw.accept);

    let ok = decide_login(true, AccountStatus::Found { banned: false, online: false }, true);
    assert_eq!(ok.reply, REASON_LOGIN_OK);
    assert!(ok.accept);
    assert!(ok.set_online);
    assert!(!ok.create_account);
}

#[test]
fn test_stat_budget() {
    assert!(validate_stat_budget(13, 13, 13, 12, 12, 12)); // 75 total
    assert!(validate_stat_budget(20, 20, 20, 5, 5, 5));
    assert!(!validate_stat_budget(13, 13, 13, 12, 12, 11)); // 74 total
    assert!(!validate_stat_budget(13, 13, 13, 12, 12, 13)); // 76 total
    assert!(!validate_stat_budget(0, 20, 20, 15, 10, 10)); // a zero stat
    assert!(!validate_stat_budget(36, 13, 13, 5, 4, 4)); // over the cap
}

#[test]
fn test_char_creation_rules() {
    assert_eq!(decide_char_creation(0, false, true), CREATE_INVALID_NAME);
    assert_eq!(decide_char_creation(17, false, true), CREATE_INVALID_NAME);
    assert_eq!(decide_char_creation(5, true, true), CREATE_ALREADY_EXISTS);
    assert_eq!(decide_char_creation(5, false, false), CREATE_WRONG_AMOUNT);
    assert_eq!(decide_char_creation(5, false, true), CREATE_OK);
    assert_eq!(decide_char_creation(16, false, true), CREATE_OK);
}

#[test]
fn test_charpack_bytes() {
    let mut p = player(0x0102_0304, 300, 2, 4);
    p.name = "Ab".to_string();
    p.heading = 6;
    p.gfx_id = 61;
    p.lawful = -1;

    let pkt = build_player_charpack(&p);
    // opcode, x (300 = 0x012C), y, object id, gfx id
    assert_eq!(&pkt[..11], &[3, 0x2C, 0x01, 2, 0, 0x04, 0x03, 0x02, 0x01, 61, 0]);
    // weapon, heading, light, speed
    assert_eq!(&pkt[11..15], &[0, 6, 0, 0]);
    // exp (1), lawful (-1 as two bytes)
    assert_eq!(&pkt[15..21], &[1, 0, 0, 0, 0xFF, 0xFF]);
    // name "Ab\0", empty title "\0"
    assert_eq!(&pkt[21..25], &[b'A', b'b', 0, 0]);
}
