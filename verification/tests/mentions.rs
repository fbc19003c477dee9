use mesh_core::mentions::{extract_mentions, FriendInfo, Mention};

fn friends(names: &[(&str, &str)]) -> Vec<FriendInfo> {
    names
        .iter()
        .map(|(id, nick)| FriendInfo { user_id: id.to_string(), nickname: nick.to_string() })
        .collect()
}

fn pairs(mentions: &[Mention]) -> Vec<(String, String)> {
    mentions.iter().map(|m| (m.user_id.clone(), m.nickname.clone())).collect()
}

fn pair(id: &str, nick: &str) -> (String, String) {
    (id.to_string(), nick.to_string())
}

#[test]
fn mentions_in_order_with_punctuation() {
    let known = friends(&[("id-a", "alice"), ("id-b", "bob"), ("id-c", "carol_x")]);
    let found = extract_mentions("hi @alice, @bob!, @carol_x @dave", &known);
    assert_eq!(
        pairs(&found),
        vec![pair("id-a", "alice"), pair("id-b", "bob"), pair("id-c", "carol_x")]
    );
}

#[test]
fn repeated_mention_counts_once() {
    let known = friends(&[("id-a", "alice")]);
    let found = extract_mentions("@alice @alice", &known);
    assert_eq!(pairs(&found), vec![pair("id-a", "alice")]);
}

#[test]
fn no_friends_no_mentions() {
    assert!(extract_mentions("hi @alice", &[]).is_empty());
    assert!(extract_mentions("", &friends(&[("id-a", "alice")])).is_empty());
    assert!(extract_mentions("   \t\n", &friends(&[("id-a", "alice")])).is_empty());
}

#[test]
fn mention_must_start_the_token() {
    let known = friends(&[("id-a", "alice")]);
    assert!(extract_mentions("mail@alice x@alice", &known).is_empty());
    assert!(extract_mentions("@ alice", &known).is_empty());
    assert!(extract_mentions("@", &known).is_empty());
    assert!(extract_mentions("@@alice", &known).is_empty());
    assert_eq!(extract_mentions("@alice@bob", &known).len(), 1);
}

#[test]
fn nickname_match_is_case_sensitive_and_whole() {
    let known = friends(&[("id-a", "alice")]);
    assert!(extract_mentions("@Alice @ALICE", &known).is_empty());
    assert!(extract_mentions("@alic @alicex @alice_ @alice-", &known).is_empty());
    assert_eq!(extract_mentions("@alice.", &known).len(), 1);
    assert_eq!(extract_mentions("@alice's", &known).len(), 1);
}

#[test]
fn nickname_characters() {
    let known = friends(&[("id-1", "a-b_c9"), ("id-2", "Z"), ("id-3", "été")]);
    assert_eq!(pairs(&extract_mentions("@a-b_c9;", &known)), vec![pair("id-1", "a-b_c9")]);
    assert_eq!(pairs(&extract_mentions("@Z!", &known)), vec![pair("id-2", "Z")]);
    // Letters outside ASCII end the nickname.
    assert!(extract_mentions("@été", &known).is_empty());
    assert_eq!(pairs(&extract_mentions("@Zé", &known)), vec![pair("id-2", "Z")]);
}

#[test]
fn tokens_part_at_ascii_whitespace() {
    let known = friends(&[("id-a", "alice"), ("id-b", "bob")]);
    let found = extract_mentions("@alice\t@bob", &known);
    assert_eq!(found.len(), 2);
    let found = extract_mentions("@bob\n@alice\r\n", &known);
    assert_eq!(pairs(&found), vec![pair("id-b", "bob"), pair("id-a", "alice")]);
    let found = extract_mentions("x\u{0C}@alice", &known);
    assert_eq!(found.len(), 1);
    // A no-break space is no ASCII whitespace: it stays inside the token.
    assert!(extract_mentions("x\u{a0}@alice", &known).is_empty());
    assert_eq!(extract_mentions("@alice\u{a0}@bob", &known).len(), 1);
}

#[test]
fn each_user_once_even_under_two_nicknames() {
    let known = friends(&[("id-a", "alice"), ("id-a", "ally"), ("id-b", "bob")]);
    let found = extract_mentions("@ally @bob @alice", &known);
    assert_eq!(pairs(&found), vec![pair("id-a", "ally"), pair("id-b", "bob")]);
}

#[test]
fn last_friend_with_a_nickname_wins() {
    let known = friends(&[("id-1", "sam"), ("id-2", "sam")]);
    let found = extract_mentions("@sam", &known);
    assert_eq!(pairs(&found), vec![pair("id-2", "sam")]);
}
