use mesh_core::api::{
    add_friend, battery_mode_from_name, battery_mode_name, derive_dm_channel_id,
    derive_geo_channel_id, dm_channel_with, dm_message_of, drain_loopback_packets,
    export_own_identity, geo_channel_row, get_all_friends, get_dm_messages,
    get_ed25519_public_key, get_fingerprint, get_optimization_config, get_user_id,
    get_x25519_public_key, import_friend_from_json, ingest_packet, ingest_packet_at,
    init_router_with_loopback, list_channels, list_messages, message_row_from_hex, remove_friend,
    resolve_peer, roundtrip_verdict, send_dm_message, send_dm_message_at, send_packet,
    test_dm_encrypt_decrypt, timestamp_of, update_friend_nickname, update_friend_profile,
    ApiError, RoundtripInput, RoundtripReport,
};
use mesh_core::dm_crypto::{decrypt_self_message, encrypt_self_message};
use mesh_core::error::CryptoError;
use mesh_core::friends::{FriendError, FriendManager};
use mesh_core::identity::{user_id_to_hex, Identity, IdentityKeys};
use mesh_core::optimization::BatteryMode;
use mesh_core::storage::{ChannelRow, MessageRow};
use mesh_core::transport::RouteOutcome;
use sha2::{Digest, Sha256};

fn sha256(parts: &[&[u8]]) -> [u8; 32] {
    let mut hasher = Sha256::new();
    for part in parts {
        hasher.update(part);
    }
    hasher.finalize().into()
}

fn identity(seed: u8) -> Identity {
    Identity::from_keys(&IdentityKeys { ed25519_secret: [seed; 32], x25519_secret: [seed + 100; 32] })
}

#[test]
fn identity_getters_give_hex() {
    let id = identity(1);
    let user_id = get_user_id(&id);
    assert_eq!(user_id, user_id_to_hex(&id.public().user_id));
    assert_eq!(user_id.len(), 64);
    assert_eq!(get_ed25519_public_key(&id), user_id_to_hex(&id.public().ed25519_public));
    assert_eq!(get_x25519_public_key(&id), user_id_to_hex(&id.public().x25519_public));
}

#[test]
fn fingerprint_is_first_sixteen_digits() {
    let id = identity(1);
    let fingerprint = get_fingerprint(&id);
    assert_eq!(fingerprint.len(), 16);
    assert_eq!(fingerprint, get_user_id(&id)[..16]);
}

#[test]
fn friend_qr_cycle() {
    let first = Identity::generate();
    let export = export_own_identity(&first);
    assert_eq!(export.user_id, get_user_id(&first));
    assert_eq!(export.ed25519_public, get_ed25519_public_key(&first));
    let mut friends = FriendManager::new();
    let added = import_friend_from_json(&mut friends, &export, "alice".to_string()).unwrap();
    assert_eq!(added, get_user_id(&first));
    let listed = get_all_friends(&friends);
    assert_eq!(listed.len(), 1);
    assert_eq!(listed[0].nickname, "alice");
    assert_eq!(listed[0].user_id, get_user_id(&first));
    assert_eq!(listed[0].ed25519_public, export.ed25519_public);
    assert_eq!(listed[0].display_name, "alice");
    assert_eq!(listed[0].notes, "");
    assert!(listed[0].tags.is_empty());
}

#[test]
fn import_ignores_claimed_user_id_and_validates_key() {
    let first = identity(1);
    let mut export = export_own_identity(&first);
    export.user_id = "not even hex".to_string();
    let mut friends = FriendManager::new();
    assert_eq!(
        import_friend_from_json(&mut friends, &export, "alice".to_string()).unwrap(),
        get_user_id(&first)
    );
    export.ed25519_public = "abcd".to_string();
    assert_eq!(
        import_friend_from_json(&mut friends, &export, "bob".to_string()),
        Err(ApiError::Friend(FriendError::InvalidKeyLength))
    );
    export.ed25519_public = "xy".repeat(32);
    assert_eq!(
        import_friend_from_json(&mut friends, &export, "bob".to_string()),
        Err(ApiError::Friend(FriendError::InvalidHex))
    );
    let second = export_own_identity(&identity(2));
    assert_eq!(
        import_friend_from_json(&mut friends, &second, "ALICE".to_string()),
        Err(ApiError::Friend(FriendError::NicknameTaken))
    );
    assert_eq!(get_all_friends(&friends).len(), 1);
}

#[test]
fn add_and_remove_friend_by_hex() {
    let mut friends = FriendManager::new();
    let key_hex = "0a".repeat(32);
    let user_id = add_friend(&mut friends, &key_hex, "alice".to_string()).unwrap();
    assert_eq!(user_id, user_id_to_hex(&sha256(&[&[0x0au8; 32]])));
    assert_eq!(add_friend(&mut friends, "0a", "bob".to_string()), Err(ApiError::InvalidHex));
    assert_eq!(add_friend(&mut friends, &"0g".repeat(32), "bob".to_string()), Err(ApiError::InvalidHex));
    assert_eq!(
        add_friend(&mut friends, &"0b".repeat(32), "Alice".to_string()),
        Err(ApiError::Friend(FriendError::NicknameTaken))
    );
    assert_eq!(remove_friend(&mut friends, "zz"), Err(ApiError::InvalidHex));
    assert_eq!(remove_friend(&mut friends, &"00".repeat(32)), Ok(false));
    assert_eq!(remove_friend(&mut friends, &user_id.to_uppercase()), Ok(true));
    assert_eq!(remove_friend(&mut friends, &user_id), Ok(false));
    assert!(get_all_friends(&friends).is_empty());
}

#[test]
fn update_nickname_by_hex() {
    let mut friends = FriendManager::new();
    let alice = add_friend(&mut friends, &"01".repeat(32), "alice".to_string()).unwrap();
    add_friend(&mut friends, &"02".repeat(32), "bob".to_string()).unwrap();
    assert_eq!(update_friend_nickname(&mut friends, "01", "x".to_string()), Err(ApiError::InvalidHex));
    assert_eq!(
        update_friend_nickname(&mut friends, &alice, "BOB".to_string()),
        Err(ApiError::Friend(FriendError::NicknameTaken))
    );
    assert_eq!(
        update_friend_nickname(&mut friends, &"00".repeat(32), "carol".to_string()),
        Err(ApiError::Friend(FriendError::NotFound))
    );
    assert_eq!(update_friend_nickname(&mut friends, &alice, "Alice".to_string()), Ok(()));
    let listed = get_all_friends(&friends);
    assert!(listed.iter().any(|f| f.user_id == alice && f.nickname == "Alice"));
}

#[test]
fn update_profile_field_rules() {
    let mut friends = FriendManager::new();
    let alice = add_friend(&mut friends, &"01".repeat(32), "alice".to_string()).unwrap();
    let find = |friends: &FriendManager| {
        get_all_friends(friends).into_iter().find(|f| f.user_id == alice).unwrap()
    };
    update_friend_profile(
        &mut friends,
        &alice,
        Some("ally"),
        Some("met at camp"),
        Some("[\"hiking\", \"radio\"]"),
        Some("Alice A."),
    )
    .unwrap();
    let f = find(&friends);
    assert_eq!(f.nickname, "ally");
    assert_eq!(f.notes, "met at camp");
    assert_eq!(f.tags, vec!["hiking".to_string(), "radio".to_string()]);
    assert_eq!(f.display_name, "Alice A.");

    // Nothing given: nothing changes.
    update_friend_profile(&mut friends, &alice, None, None, None, None).unwrap();
    let f = find(&friends);
    assert_eq!(f.nickname, "ally");
    assert_eq!(f.notes, "met at camp");
    assert_eq!(f.tags.len(), 2);
    assert_eq!(f.display_name, "Alice A.");

    // An empty nickname and unreadable tags change nothing; empty notes are
    // notes; an empty display name clears the custom one.
    update_friend_profile(&mut friends, &alice, Some(""), Some(""), Some("not json"), Some(""))
        .unwrap();
    let f = find(&friends);
    assert_eq!(f.nickname, "ally");
    assert_eq!(f.notes, "");
    assert_eq!(f.tags.len(), 2);
    assert_eq!(f.display_name, "ally");

    update_friend_profile(&mut friends, &alice, None, None, Some("[]"), None).unwrap();
    assert!(find(&friends).tags.is_empty());
    update_friend_profile(&mut friends, &alice, None, None, Some("[1, 2]"), None).unwrap();
    assert!(find(&friends).tags.is_empty());
    update_friend_profile(&mut friends, &alice, None, None, Some("[\"a\\u0062\"]"), None).unwrap();
    assert_eq!(find(&friends).tags, vec!["ab".to_string()]);
}

#[test]
fn update_profile_errors() {
    let mut friends = FriendManager::new();
    let alice = add_friend(&mut friends, &"01".repeat(32), "alice".to_string()).unwrap();
    add_friend(&mut friends, &"02".repeat(32), "bob".to_string()).unwrap();
    assert_eq!(
        update_friend_profile(&mut friends, "nothex", None, None, None, None),
        Err(ApiError::InvalidHex)
    );
    assert_eq!(
        update_friend_profile(&mut friends, &alice, Some("Bob"), Some("n"), None, None),
        Err(ApiError::Friend(FriendError::NicknameTaken))
    );
    assert_eq!(
        update_friend_profile(&mut friends, &"00".repeat(32), None, Some("n"), None, None),
        Err(ApiError::Friend(FriendError::NotFound))
    );
    assert_eq!(update_friend_profile(&mut friends, &alice, Some("ALICE"), None, None, None), Ok(()));
}

#[test]
fn channel_id_by_hex() {
    let a = "01".repeat(32);
    let b = "02".repeat(32);
    let expected = user_id_to_hex(&sha256(&[&[1u8; 32], &[2u8; 32]]));
    assert_eq!(derive_dm_channel_id(&a, &b), Some(expected.clone()));
    assert_eq!(derive_dm_channel_id(&b, &a), Some(expected));
    assert_eq!(derive_dm_channel_id(&a, "02"), None);
    assert_eq!(derive_dm_channel_id("", &b), None);
    assert_eq!(derive_dm_channel_id(&"0x".repeat(32), &b), None);
}

#[test]
fn self_message_is_sent_and_read_back() {
    let me = identity(1);
    let friends = FriendManager::new();
    let own = get_user_id(&me);
    let row = send_dm_message(&me, &friends, &own, "note to self").unwrap();
    assert_eq!(row.ttl, 10);
    let own_key = me.public().ed25519_public;
    let channel = sha256(&[&own_key, &own_key]);
    assert_eq!(row.channel_id, channel);
    assert_eq!(dm_channel_with(&me, &friends, &own), Ok(channel));
    assert_eq!(
        row.message_id,
        sha256(&[&channel, &row.timestamp.to_be_bytes(), b"note to self"])
    );
    assert!(row.timestamp > 1_600_000_000);
    let messages = get_dm_messages(&me, &friends, &own, &vec![row]).unwrap();
    assert_eq!(messages.len(), 1);
    assert_eq!(messages[0].plaintext, "note to self");
    assert!(messages[0].is_sent);
}

#[test]
fn self_message_at_a_given_time_is_exact() {
    let me = identity(1);
    let friends = FriendManager::new();
    let own = get_user_id(&me);
    let row = send_dm_message_at(&me, &friends, &own, "héllo", 1_700_000_000).unwrap();
    let own_key = me.public().ed25519_public;
    let channel = sha256(&[&own_key, &own_key]);
    let message_id = sha256(&[&channel, &1_700_000_000i64.to_be_bytes(), "héllo".as_bytes()]);
    assert_eq!(row.message_id, message_id);
    assert_eq!(row.channel_id, channel);
    assert_eq!(row.timestamp, 1_700_000_000);
    assert_eq!(row.ttl, 10);
    assert_eq!(
        row.ciphertext,
        encrypt_self_message(&channel, &message_id, "héllo".as_bytes()).unwrap()
    );
    let again = send_dm_message_at(&me, &friends, &own, "héllo", 1_700_000_000).unwrap();
    assert_eq!(again.ciphertext, row.ciphertext);
    let later = send_dm_message_at(&me, &friends, &own, "héllo", 1_700_000_001).unwrap();
    assert_ne!(later.message_id, row.message_id);
    let before_epoch = send_dm_message_at(&me, &friends, &own, "x", -1).unwrap();
    assert_eq!(before_epoch.message_id, sha256(&[&channel, &[255u8; 8], b"x"]));
}

#[test]
fn three_self_messages_are_listed_in_row_order() {
    let me = identity(1);
    let friends = FriendManager::new();
    let own = get_user_id(&me);
    let rows: Vec<MessageRow> = ["one", "two", "three"]
        .iter()
        .enumerate()
        .map(|(i, text)| send_dm_message_at(&me, &friends, &own, text, 100 + i as i64).unwrap())
        .collect();
    let messages = get_dm_messages(&me, &friends, &own, &rows).unwrap();
    let texts: Vec<&str> = messages.iter().map(|m| m.plaintext.as_str()).collect();
    assert_eq!(texts, vec!["one", "two", "three"]);
    for (message, row) in messages.iter().zip(rows.iter()) {
        assert_eq!(message.message_id, user_id_to_hex(&row.message_id));
        assert_eq!(message.timestamp, row.timestamp);
        assert!(message.is_sent);
    }
    assert!(get_dm_messages(&me, &friends, &own, &Vec::new()).unwrap().is_empty());
}

#[test]
fn unreadable_rows_are_passed_over() {
    let me = identity(1);
    let friends = FriendManager::new();
    let own = get_user_id(&me);
    let good = send_dm_message_at(&me, &friends, &own, "kept", 5).unwrap();
    let channel = good.channel_id;
    let garbage = MessageRow {
        message_id: [9u8; 32],
        channel_id: channel,
        ciphertext: vec![1, 2, 3],
        timestamp: 1,
        ttl: 10,
    };
    let tampered = {
        let mut ciphertext = good.ciphertext.clone();
        ciphertext[0] ^= 0xff;
        MessageRow { message_id: good.message_id, channel_id: channel, ciphertext, timestamp: 2, ttl: 10 }
    };
    let not_text = {
        let message_id = [7u8; 32];
        MessageRow {
            message_id,
            channel_id: channel,
            ciphertext: encrypt_self_message(&channel, &message_id, &[0xff, 0xfe]).unwrap(),
            timestamp: 3,
            ttl: 10,
        }
    };
    assert_eq!(
        decrypt_self_message(&channel, &not_text.message_id, &not_text.ciphertext).unwrap(),
        vec![0xff, 0xfe]
    );
    let rows = vec![garbage, tampered, not_text, good];
    let messages = get_dm_messages(&me, &friends, &own, &rows).unwrap();
    assert_eq!(messages.len(), 1);
    assert_eq!(messages[0].plaintext, "kept");
    assert_eq!(messages[0].timestamp, 5);
}

#[test]
fn dm_needs_a_known_peer() {
    let me = identity(1);
    let friends = FriendManager::new();
    let stranger = "00".repeat(32);
    assert_eq!(
        send_dm_message(&me, &friends, &stranger, "hi").err(),
        Some(ApiError::UnknownFriend)
    );
    assert_eq!(send_dm_message(&me, &friends, "xyz", "hi").err(), Some(ApiError::InvalidHex));
    assert_eq!(
        get_dm_messages(&me, &friends, &stranger, &Vec::new()).err(),
        Some(ApiError::UnknownFriend)
    );
    assert_eq!(get_dm_messages(&me, &friends, "", &Vec::new()).err(), Some(ApiError::InvalidHex));
    assert_eq!(dm_channel_with(&me, &friends, &stranger), Err(ApiError::UnknownFriend));
    assert_eq!(dm_channel_with(&me, &friends, "12"), Err(ApiError::InvalidHex));
}

#[test]
fn conversation_with_a_friend() {
    let me = identity(1);
    let other = identity(2);
    let mut friends = FriendManager::new();
    let friend_id = friends.add_friend(other.public().ed25519_public, "bob".to_string()).unwrap();
    let peer = resolve_peer(&me, &friends, &friend_id).unwrap();
    assert!(!peer.is_self);
    assert_eq!(peer.ed25519_public, other.public().ed25519_public);
    assert_eq!(
        peer.channel_id,
        mesh_core::dm_crypto::derive_dm_channel_id(
            &me.public().ed25519_public,
            &other.public().ed25519_public
        )
    );
    assert_eq!(peer.initiator, me.public().user_id < friend_id);
    assert_eq!(dm_channel_with(&me, &friends, &user_id_to_hex(&friend_id)), Ok(peer.channel_id));
    let own = resolve_peer(&me, &friends, &me.public().user_id).unwrap();
    assert!(own.is_self);
    assert!(own.initiator);
    assert!(resolve_peer(&me, &friends, &[0u8; 32]).is_none());
}

#[test]
fn friend_record_holds_no_key_for_a_session() {
    // A friend's record carries no X25519 key, and the key that stands in
    // for it does not belong to the friend: the handshake cannot succeed.
    let me = identity(1);
    let other = identity(2);
    let mut friends = FriendManager::new();
    let friend_id = friends.add_friend(other.public().ed25519_public, "bob".to_string()).unwrap();
    let sent = send_dm_message(&me, &friends, &user_id_to_hex(&friend_id), "hello");
    assert!(matches!(sent, Err(ApiError::Crypto(CryptoError::Handshake(_)))));
    let row = MessageRow {
        message_id: [1u8; 32],
        channel_id: [2u8; 32],
        ciphertext: vec![0u8; 40],
        timestamp: 1,
        ttl: 10,
    };
    let listed = get_dm_messages(&me, &friends, &user_id_to_hex(&friend_id), &vec![row]).unwrap();
    assert!(listed.is_empty());
}

#[test]
fn dm_message_of_needs_valid_text() {
    let row = MessageRow {
        message_id: [0xab; 32],
        channel_id: [0u8; 32],
        ciphertext: vec![],
        timestamp: 77,
        ttl: 1,
    };
    let shown = dm_message_of(&row, Ok(b"hi".to_vec()), false).unwrap();
    assert_eq!(shown.message_id, "ab".repeat(32));
    assert_eq!(shown.plaintext, "hi");
    assert_eq!(shown.timestamp, 77);
    assert!(!shown.is_sent);
    assert!(dm_message_of(&row, Ok(vec![0xc3]), true).is_none());
    assert!(dm_message_of(&row, Err(CryptoError::Decrypt), true).is_none());
    assert_eq!(dm_message_of(&row, Ok(vec![]), true).unwrap().plaintext, "");
}

#[test]
fn roundtrip_test_reports_first_invalid_input() {
    let key = "11".repeat(32);
    let bad = "11".repeat(31);
    let report = |inputs: [&str; 7]| {
        test_dm_encrypt_decrypt(
            inputs[0], inputs[1], inputs[2], inputs[3], inputs[4], inputs[5], inputs[6],
        )
    };
    let fields = [
        RoundtripInput::LocalEd25519,
        RoundtripInput::LocalX25519Secret,
        RoundtripInput::LocalX25519Public,
        RoundtripInput::RemoteEd25519,
        RoundtripInput::RemoteX25519Secret,
        RoundtripInput::RemoteX25519Public,
    ];
    for (i, field) in fields.iter().enumerate() {
        let mut inputs = [key.as_str(); 7];
        inputs[6] = "00";
        inputs[i] = bad.as_str();
        assert_eq!(report(inputs), RoundtripReport::InvalidInput(*field));
        // Everything behind the first invalid input is not looked at.
        for later in inputs.iter_mut().skip(i + 1) {
            *later = "?";
        }
        assert_eq!(report(inputs), RoundtripReport::InvalidInput(*field));
    }
    let mut inputs = [key.as_str(); 7];
    inputs[6] = "abc";
    assert_eq!(report(inputs), RoundtripReport::InvalidInput(RoundtripInput::TestMessage));
}

#[test]
fn roundtrip_test_with_real_keys() {
    let a = Identity::generate();
    let b = Identity::generate();
    let hex = |bytes: &[u8; 32]| user_id_to_hex(bytes);
    let report = test_dm_encrypt_decrypt(
        &hex(&a.public().ed25519_public),
        &hex(a.x25519_secret()),
        &hex(&a.public().x25519_public),
        &hex(&b.public().ed25519_public),
        &hex(b.x25519_secret()),
        &hex(&b.public().x25519_public),
        "68656c6c6f",
    );
    // The two sessions come from two handshakes with fresh keys, so the
    // responder of the second cannot read what the first's initiator wrote.
    assert_eq!(report, RoundtripReport::Decrypt(CryptoError::Decrypt));
    let report = test_dm_encrypt_decrypt(
        &hex(&a.public().ed25519_public),
        &hex(a.x25519_secret()),
        &hex(&a.public().x25519_public),
        &hex(&b.public().ed25519_public),
        &hex(b.x25519_secret()),
        &hex(&a.public().x25519_public),
        "68656c6c6f",
    );
    assert!(matches!(report, RoundtripReport::InitiatorSession(CryptoError::Handshake(_))));
}

#[test]
fn roundtrip_verdict_compares_bytes() {
    assert_eq!(roundtrip_verdict(b"abc", b"abc"), RoundtripReport::Success);
    assert_eq!(roundtrip_verdict(b"abc", b"abd"), RoundtripReport::Mismatch);
    assert_eq!(roundtrip_verdict(b"", b""), RoundtripReport::Success);
    assert_eq!(roundtrip_verdict(b"a", b""), RoundtripReport::Mismatch);
}

#[test]
fn geo_channel_id_hashes_geohash_then_topic() {
    assert_eq!(
        derive_geo_channel_id("u4pruyd", "weather"),
        user_id_to_hex(&sha256(&[b"u4pruyd", b"weather"]))
    );
    assert_eq!(
        derive_geo_channel_id("", ""),
        "e3b0c44298fc1c149afbf4c8996fb92427ae41e4649b934ca495991b7852b855"
    );
    assert_ne!(derive_geo_channel_id("ab", "c"), derive_geo_channel_id("c", "ab"));
    assert_eq!(derive_geo_channel_id("ab", "c"), derive_geo_channel_id("a", "bc"));
    assert_eq!(
        mesh_core::geo::derive_geo_channel_id("zürich", "ö"),
        sha256(&["zürich".as_bytes(), "ö".as_bytes()])
    );
}

#[test]
fn geo_channel_rows() {
    let row = geo_channel_row(&"0c".repeat(32)).unwrap();
    assert_eq!(row.channel_id, [0x0c; 32]);
    assert_eq!(row.channel_type, "geo");
    assert!(geo_channel_row("0c").is_none());
    let rows = vec![row, ChannelRow { channel_id: [1u8; 32], channel_type: "dm".to_string() }];
    let listed = list_channels(&rows);
    assert_eq!(listed.len(), 2);
    assert_eq!(listed[0].channel_id, "0c".repeat(32));
    assert_eq!(listed[0].channel_type, "geo");
    assert_eq!(listed[1].channel_id, "01".repeat(32));
    assert_eq!(listed[1].channel_type, "dm");
}

#[test]
fn message_rows_to_and_from_hex() {
    let row = message_row_from_hex(&"aa".repeat(32), &"BB".repeat(32), "0102ff", -7, 3).unwrap();
    assert_eq!(row.message_id, [0xaa; 32]);
    assert_eq!(row.channel_id, [0xbb; 32]);
    assert_eq!(row.ciphertext, vec![1, 2, 255]);
    assert_eq!(row.timestamp, -7);
    assert_eq!(row.ttl, 3);
    assert!(message_row_from_hex("aa", &"bb".repeat(32), "", 0, 0).is_none());
    assert!(message_row_from_hex(&"aa".repeat(32), "bb", "", 0, 0).is_none());
    assert!(message_row_from_hex(&"aa".repeat(32), &"bb".repeat(32), "0", 0, 0).is_none());
    let listed = list_messages(&vec![row]);
    assert_eq!(listed.len(), 1);
    assert_eq!(listed[0].message_id, "aa".repeat(32));
    assert_eq!(listed[0].channel_id, "bb".repeat(32));
    assert_eq!(listed[0].ciphertext, "0102ff");
    assert_eq!(listed[0].timestamp, -7);
    assert_eq!(listed[0].ttl, 3);
}

#[test]
fn send_packet_then_ingest_again() {
    let mut router = mesh_core::transport::Router::new(vec![
        mesh_core::transport::LoopbackTransport::new(),
        mesh_core::transport::LoopbackTransport::new(),
    ]);
    let channel = "cc".repeat(32);
    let routed = send_packet(&mut router, None, &channel, "0102", 2).unwrap();
    assert_eq!(routed.packet_id.len(), 64);
    assert!(matches!(routed.outcome, RouteOutcome::Forwarded { .. }));
    let row = routed.row.unwrap();
    assert_eq!(user_id_to_hex(&row.message_id), routed.packet_id);
    assert_eq!(row.channel_id, [0xcc; 32]);
    assert_eq!(row.ciphertext, vec![1, 2]);
    assert_eq!(row.ttl, 2);
    assert!(row.timestamp > 1_600_000_000);
    for index in 0..2 {
        let drained = router.drain(index);
        assert_eq!(drained.len(), 1);
        assert_eq!(drained[0].ttl, 1);
        assert_eq!(user_id_to_hex(&drained[0].packet_id), routed.packet_id);
    }
    let again = ingest_packet(&mut router, &routed.packet_id, &channel, "0102", 2).unwrap();
    assert!(matches!(again.outcome, RouteOutcome::Duplicate));
    assert!(again.row.is_none());
    assert!(router.drain(0).is_empty());
    assert!(router.drain(1).is_empty());
}

#[test]
fn send_packet_under_a_given_id() {
    let mut router = init_router_with_loopback();
    let id = "AB".repeat(32);
    let routed = send_packet(&mut router, Some(&id), &"cc".repeat(32), "", 1).unwrap();
    assert_eq!(routed.packet_id, "ab".repeat(32));
    assert_eq!(routed.row.unwrap().message_id, [0xab; 32]);
    let listed = drain_loopback_packets(&mut router);
    assert_eq!(listed.len(), 1);
    assert_eq!(listed[0].packet_id, "ab".repeat(32));
    assert_eq!(listed[0].channel_id, "cc".repeat(32));
    assert_eq!(listed[0].ttl, 0);
    assert_eq!(listed[0].payload, "");
    assert!(drain_loopback_packets(&mut router).is_empty());
    let again = send_packet(&mut router, Some(&id), &"cc".repeat(32), "", 1).unwrap();
    assert!(matches!(again.outcome, RouteOutcome::Duplicate));
    assert!(again.row.is_none());
}

#[test]
fn packets_with_invalid_hex_are_refused() {
    let mut router = init_router_with_loopback();
    let good = "cc".repeat(32);
    assert_eq!(send_packet(&mut router, None, "cc", "00", 1).err(), Some(ApiError::InvalidHex));
    assert_eq!(send_packet(&mut router, None, &good, "0", 1).err(), Some(ApiError::InvalidHex));
    assert_eq!(
        send_packet(&mut router, Some("ab"), &good, "00", 1).err(),
        Some(ApiError::InvalidHex)
    );
    assert_eq!(ingest_packet(&mut router, "ab", &good, "00", 1).err(), Some(ApiError::InvalidHex));
    assert_eq!(ingest_packet(&mut router, &good, "ab", "00", 1).err(), Some(ApiError::InvalidHex));
    assert_eq!(ingest_packet(&mut router, &good, &good, "xx", 1).err(), Some(ApiError::InvalidHex));
    // Nothing was routed: the id is still new.
    let routed = ingest_packet(&mut router, &good, &good, "00", 1).unwrap();
    assert!(routed.row.is_some());
}

#[test]
fn ingest_packet_at_stamps_the_row() {
    let mut router = init_router_with_loopback();
    let routed =
        ingest_packet_at(&mut router, &"01".repeat(32), &"02".repeat(32), "aabb", 0, 4242).unwrap();
    assert!(matches!(routed.outcome, RouteOutcome::Delivered));
    let row = routed.row.unwrap();
    assert_eq!(row.message_id, [1u8; 32]);
    assert_eq!(row.channel_id, [2u8; 32]);
    assert_eq!(row.ciphertext, vec![0xaa, 0xbb]);
    assert_eq!(row.timestamp, 4242);
    assert_eq!(row.ttl, 0);
    assert!(drain_loopback_packets(&mut router).is_empty());
}

#[test]
fn optimization_config_by_name() {
    let performance = get_optimization_config("Performance");
    assert_eq!(performance.battery_mode, BatteryMode::Performance);
    assert_eq!(performance.scan_interval_ms, 100);
    assert_eq!(performance.scan_window_ms, 50);
    assert_eq!(performance.batch_size, 5);
    assert_eq!(performance.batch_age_secs, 1);
    let balanced = get_optimization_config("BALANCED");
    assert_eq!(balanced.battery_mode, BatteryMode::Balanced);
    assert_eq!(balanced.scan_interval_ms, 1000);
    assert_eq!(balanced.scan_window_ms, 500);
    assert_eq!(balanced.batch_size, 10);
    assert_eq!(balanced.batch_age_secs, 2);
    for name in ["powersaving", "PowerSaving", "power_saving", "POWER_SAVING"] {
        let saving = get_optimization_config(name);
        assert_eq!(saving.battery_mode, BatteryMode::PowerSaving);
        assert_eq!(saving.scan_interval_ms, 5000);
        assert_eq!(saving.scan_window_ms, 2500);
        assert_eq!(saving.batch_size, 20);
        assert_eq!(saving.batch_age_secs, 5);
    }
    for name in ["", "turbo", "power saving", "performance "] {
        assert_eq!(get_optimization_config(name).battery_mode, BatteryMode::Balanced);
    }
}

#[test]
fn battery_mode_names() {
    assert_eq!(battery_mode_from_name("performance"), BatteryMode::Performance);
    assert_eq!(battery_mode_from_name("Performance"), BatteryMode::Balanced);
    assert_eq!(battery_mode_from_name("powersaving"), BatteryMode::PowerSaving);
    assert_eq!(battery_mode_from_name("power_saving"), BatteryMode::PowerSaving);
    assert_eq!(battery_mode_from_name("balanced"), BatteryMode::Balanced);
    assert_eq!(battery_mode_name(BatteryMode::Performance), "Performance");
    assert_eq!(battery_mode_name(BatteryMode::Balanced), "Balanced");
    assert_eq!(battery_mode_name(BatteryMode::PowerSaving), "PowerSaving");
}

#[test]
fn timestamp_of_clock_reading() {
    assert_eq!(timestamp_of(None), 0);
    assert_eq!(timestamp_of(Some(0)), 0);
    assert_eq!(timestamp_of(Some(1_700_000_000)), 1_700_000_000);
    assert_eq!(timestamp_of(Some(i64::MAX as u64)), i64::MAX);
    assert_eq!(timestamp_of(Some(u64::MAX)), -1);
}
