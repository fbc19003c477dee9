use mesh_core::friends::{
    parse_friend_from_json, Friend, FriendError, FriendExport, FriendManager, FriendsStorage,
};
use sha2::{Digest, Sha256};

fn user_id_of(key: &[u8; 32]) -> [u8; 32] {
    Sha256::digest(key).into()
}

fn friend(key: [u8; 32], nickname: &str) -> Friend {
    Friend {
        user_id: user_id_of(&key),
        ed25519_public: key,
        nickname: nickname.to_string(),
        notes: String::new(),
        tags: Vec::new(),
        custom_display_name: None,
    }
}

#[test]
fn add_friend_returns_hash_of_key() {
    let mut manager = FriendManager::new();
    let key = [5u8; 32];
    let user_id = manager.add_friend(key, "alice".to_string()).unwrap();
    assert_eq!(user_id, user_id_of(&key));
    let stored = manager.get_friend(&user_id).unwrap();
    assert_eq!(stored.user_id, user_id);
    assert_eq!(stored.ed25519_public, key);
    assert_eq!(stored.nickname, "alice");
    assert_eq!(stored.notes, "");
    assert!(stored.tags.is_empty());
    assert_eq!(stored.custom_display_name, None);
}

#[test]
fn storage_refuses_user_id_that_is_not_the_hash() {
    let mut storage = FriendsStorage::new();
    let mut wrong = friend([5u8; 32], "alice");
    wrong.user_id[0] ^= 1;
    assert_eq!(storage.add_friend(wrong), Err(FriendError::UserIdMismatch));
    assert!(storage.get_all_friends().is_empty());
    assert_eq!(storage.add_friend(friend([5u8; 32], "alice")), Ok(()));
    assert_eq!(storage.get_all_friends().len(), 1);
}

#[test]
fn hash_mismatch_is_reported_before_nickname() {
    let mut storage = FriendsStorage::new();
    storage.add_friend(friend([5u8; 32], "alice")).unwrap();
    let mut wrong = friend([6u8; 32], "alice");
    wrong.user_id = [0u8; 32];
    assert_eq!(storage.add_friend(wrong), Err(FriendError::UserIdMismatch));
}

#[test]
fn nickname_collision_ignores_ascii_case() {
    let mut manager = FriendManager::new();
    manager.add_friend([1u8; 32], "Alice".to_string()).unwrap();
    assert_eq!(manager.add_friend([2u8; 32], "alice".to_string()), Err(FriendError::NicknameTaken));
    assert_eq!(manager.add_friend([2u8; 32], "ALICE".to_string()), Err(FriendError::NicknameTaken));
    assert_eq!(manager.add_friend([2u8; 32], "Alice".to_string()), Err(FriendError::NicknameTaken));
    assert_eq!(manager.get_all_friends().len(), 1);
    assert!(manager.add_friend([2u8; 32], "alicia".to_string()).is_ok());
    assert_eq!(manager.get_all_friends().len(), 2);
}

#[test]
fn nickname_case_folding_is_ascii_only() {
    let mut manager = FriendManager::new();
    manager.add_friend([1u8; 32], "Élise".to_string()).unwrap();
    assert!(manager.add_friend([2u8; 32], "élise".to_string()).is_ok());
    assert_eq!(manager.add_friend([3u8; 32], "ÉLISE".to_string()), Err(FriendError::NicknameTaken));
}

#[test]
fn adding_the_same_key_again_replaces_the_record() {
    let mut manager = FriendManager::new();
    let id = manager.add_friend([1u8; 32], "alice".to_string()).unwrap();
    manager
        .update_profile(&id, None, Some("met at camp".to_string()), None, None)
        .unwrap();
    assert_eq!(manager.add_friend([1u8; 32], "alice".to_string()), Err(FriendError::NicknameTaken));
    assert_eq!(manager.get_friend(&id).unwrap().notes, "met at camp");
    let again = manager.add_friend([1u8; 32], "ally".to_string()).unwrap();
    assert_eq!(again, id);
    assert_eq!(manager.get_all_friends().len(), 1);
    assert_eq!(manager.get_friend(&id).unwrap().nickname, "ally");
    assert_eq!(manager.get_friend(&id).unwrap().notes, "");
}

#[test]
fn remove_friend_reports_presence() {
    let mut manager = FriendManager::new();
    let id = manager.add_friend([1u8; 32], "alice".to_string()).unwrap();
    let other = manager.add_friend([2u8; 32], "bob".to_string()).unwrap();
    assert!(!manager.remove_friend(&[0u8; 32]));
    assert!(manager.remove_friend(&id));
    assert!(!manager.remove_friend(&id));
    assert!(manager.get_friend(&id).is_none());
    assert_eq!(manager.get_friend(&other).unwrap().nickname, "bob");
    assert!(manager.add_friend([3u8; 32], "alice".to_string()).is_ok());
}

#[test]
fn update_nickname_leaves_out_the_friend_itself() {
    let mut manager = FriendManager::new();
    let alice = manager.add_friend([1u8; 32], "alice".to_string()).unwrap();
    let bob = manager.add_friend([2u8; 32], "bob".to_string()).unwrap();
    assert_eq!(manager.update_nickname(&alice, "ALICE".to_string()), Ok(()));
    assert_eq!(manager.get_friend(&alice).unwrap().nickname, "ALICE");
    assert_eq!(manager.update_nickname(&alice, "ALICE".to_string()), Ok(()));
    assert_eq!(manager.update_nickname(&bob, "Alice".to_string()), Err(FriendError::NicknameTaken));
    assert_eq!(manager.get_friend(&bob).unwrap().nickname, "bob");
}

#[test]
fn update_of_unknown_friend() {
    let mut manager = FriendManager::new();
    manager.add_friend([1u8; 32], "alice".to_string()).unwrap();
    assert_eq!(manager.update_nickname(&[9u8; 32], "carol".to_string()), Err(FriendError::NotFound));
    assert_eq!(
        manager.update_nickname(&[9u8; 32], "alice".to_string()),
        Err(FriendError::NicknameTaken)
    );
    assert_eq!(
        manager.update_profile(&[9u8; 32], None, Some("x".to_string()), None, None),
        Err(FriendError::NotFound)
    );
}

#[test]
fn update_profile_sets_only_what_is_given() {
    let mut manager = FriendManager::new();
    let id = manager.add_friend([1u8; 32], "alice".to_string()).unwrap();
    manager
        .update_profile(
            &id,
            None,
            Some("notes".to_string()),
            Some(vec!["a".to_string(), "b".to_string()]),
            Some(Some("Alice A.".to_string())),
        )
        .unwrap();
    {
        let f = manager.get_friend(&id).unwrap();
        assert_eq!(f.nickname, "alice");
        assert_eq!(f.notes, "notes");
        assert_eq!(f.tags, vec!["a".to_string(), "b".to_string()]);
        assert_eq!(f.custom_display_name, Some("Alice A.".to_string()));
    }
    manager.update_profile(&id, Some("al".to_string()), None, None, None).unwrap();
    {
        let f = manager.get_friend(&id).unwrap();
        assert_eq!(f.nickname, "al");
        assert_eq!(f.notes, "notes");
        assert_eq!(f.tags.len(), 2);
        assert_eq!(f.custom_display_name, Some("Alice A.".to_string()));
    }
    manager.update_profile(&id, None, None, Some(vec![]), Some(None)).unwrap();
    let f = manager.get_friend(&id).unwrap();
    assert!(f.tags.is_empty());
    assert_eq!(f.custom_display_name, None);
    assert_eq!(f.user_id, id);
    assert_eq!(f.ed25519_public, [1u8; 32]);
}

#[test]
fn update_profile_excluding_self_does_not_conflict() {
    let mut manager = FriendManager::new();
    let alice = manager.add_friend([1u8; 32], "alice".to_string()).unwrap();
    let bob = manager.add_friend([2u8; 32], "bob".to_string()).unwrap();
    assert_eq!(manager.update_profile(&alice, Some("Alice".to_string()), None, None, None), Ok(()));
    assert_eq!(
        manager.update_profile(&bob, Some("ALICE".to_string()), Some("n".to_string()), None, None),
        Err(FriendError::NicknameTaken)
    );
    assert_eq!(manager.get_friend(&bob).unwrap().notes, "");
}

#[test]
fn display_name_prefers_custom_name() {
    let mut manager = FriendManager::new();
    let id = manager.add_friend([1u8; 32], "alice".to_string()).unwrap();
    assert_eq!(manager.get_display_name(&id), Some("alice".to_string()));
    manager.update_profile(&id, None, None, None, Some(Some("Alice A.".to_string()))).unwrap();
    assert_eq!(manager.get_display_name(&id), Some("Alice A.".to_string()));
    manager.update_profile(&id, None, None, None, Some(None)).unwrap();
    assert_eq!(manager.get_display_name(&id), Some("alice".to_string()));
    assert_eq!(manager.get_display_name(&[0u8; 32]), None);
}

#[test]
fn get_all_friends_lists_each_once() {
    let mut manager = FriendManager::new();
    assert!(manager.get_all_friends().is_empty());
    let mut ids = Vec::new();
    for i in 1u8..=5 {
        ids.push(manager.add_friend([i; 32], format!("friend{}", i)).unwrap());
    }
    manager.remove_friend(&ids[2]);
    let mut listed: Vec<[u8; 32]> = manager.get_all_friends().iter().map(|f| f.user_id).collect();
    listed.sort();
    let mut expected: Vec<[u8; 32]> = ids.iter().copied().filter(|id| *id != ids[2]).collect();
    expected.sort();
    assert_eq!(listed, expected);
}

#[test]
fn from_friends_rebuilds_registry() {
    let mut first = friend([1u8; 32], "alice");
    first.notes = "kept".to_string();
    first.tags = vec!["x".to_string()];
    let second = friend([2u8; 32], "bob");
    let manager = FriendManager::from_friends(vec![first, second]).unwrap();
    assert_eq!(manager.get_all_friends().len(), 2);
    let alice = manager.get_friend(&user_id_of(&[1u8; 32])).unwrap();
    assert_eq!(alice.notes, "kept");
    assert_eq!(alice.tags, vec!["x".to_string()]);
    assert!(FriendManager::from_friends(Vec::new()).unwrap().get_all_friends().is_empty());
}

#[test]
fn from_friends_refuses_broken_records() {
    let mut wrong = friend([1u8; 32], "alice");
    wrong.user_id = [0u8; 32];
    assert!(matches!(
        FriendManager::from_friends(vec![wrong]),
        Err(FriendError::UserIdMismatch)
    ));
    assert!(matches!(
        FriendManager::from_friends(vec![friend([1u8; 32], "alice"), friend([2u8; 32], "ALICE")]),
        Err(FriendError::NicknameTaken)
    ));
}

#[test]
fn export_holds_hex_of_ids() {
    let f = friend([0xabu8; 32], "alice");
    let export = FriendExport::from(&f);
    assert_eq!(export.ed25519_public, "ab".repeat(32));
    assert_eq!(export.user_id, mesh_core::identity::user_id_to_hex(&f.user_id));
}

#[test]
fn parse_friend_reads_key_and_claimed_id() {
    let export = FriendExport { user_id: "claimed".to_string(), ed25519_public: "0A".repeat(32) };
    let (claimed, key) = parse_friend_from_json(&export).unwrap();
    assert_eq!(claimed, "claimed");
    assert_eq!(key, [0x0au8; 32]);
}

#[test]
fn parse_friend_validates_hex_and_length() {
    let bad_hex = FriendExport { user_id: String::new(), ed25519_public: "zz".repeat(32) };
    assert_eq!(parse_friend_from_json(&bad_hex), Err(FriendError::InvalidHex));
    let odd = FriendExport { user_id: String::new(), ed25519_public: "abc".to_string() };
    assert_eq!(parse_friend_from_json(&odd), Err(FriendError::InvalidHex));
    let short = FriendExport { user_id: String::new(), ed25519_public: "ab".repeat(31) };
    assert_eq!(parse_friend_from_json(&short), Err(FriendError::InvalidKeyLength));
    let long = FriendExport { user_id: String::new(), ed25519_public: "ab".repeat(33) };
    assert_eq!(parse_friend_from_json(&long), Err(FriendError::InvalidKeyLength));
    let empty = FriendExport { user_id: String::new(), ed25519_public: String::new() };
    assert_eq!(parse_friend_from_json(&empty), Err(FriendError::InvalidKeyLength));
}

#[test]
fn is_nickname_taken_honours_exclusion() {
    let mut storage = FriendsStorage::new();
    let alice = friend([1u8; 32], "alice");
    let alice_id = alice.user_id;
    storage.add_friend(alice).unwrap();
    assert!(storage.is_nickname_taken("ALICE", None));
    assert!(!storage.is_nickname_taken("ALICE", Some(&alice_id)));
    assert!(storage.is_nickname_taken("alice", Some(&[0u8; 32])));
    assert!(!storage.is_nickname_taken("bob", None));
    assert!(!storage.is_nickname_taken("", None));
}
