//! Mentions: `@nickname` tokens in a text, matched against known friends.

use vstd::prelude::*;

verus! {

/// A friend as the mention scan knows it.
#[derive(Debug)]
pub struct FriendInfo {
    pub user_id: String,
    pub nickname: String,
}

/// A friend who is mentioned in a text.
#[derive(Debug)]
pub struct Mention {
    pub user_id: String,
    pub nickname: String,
}

/// A user id with a nickname, as plain values.
pub struct NamedUser {
    pub user_id: Seq<char>,
    pub nickname: Seq<char>,
}

impl View for FriendInfo {
    type V = NamedUser;

    open spec fn view(&self) -> NamedUser {
        NamedUser { user_id: self.user_id@, nickname: self.nickname@ }
    }
}

impl View for Mention {
    type V = NamedUser;

    open spec fn view(&self) -> NamedUser {
        NamedUser { user_id: self.user_id@, nickname: self.nickname@ }
    }
}

/// ASCII whitespace, which parts a text into tokens.
pub open spec fn is_space(c: char) -> bool {
    c == ' ' || c == '\t' || c == '\n' || c == '\x0C' || c == '\r'
}

/// A character of a nickname: an ASCII letter or digit, `_` or `-`.
pub open spec fn is_name_char(c: char) -> bool {
    ('a' <= c <= 'z') || ('A' <= c <= 'Z') || ('0' <= c <= '9') || c == '_' || c == '-'
}

/// The first place at or after `from` that holds no whitespace.
pub open spec fn skip_spaces(text: Seq<char>, from: int) -> int
    decreases text.len() - from,
{
    if 0 <= from < text.len() && is_space(text[from]) {
        skip_spaces(text, from + 1)
    } else {
        from
    }
}

/// The first place at or after `from` that holds whitespace or ends the text.
pub open spec fn token_end(text: Seq<char>, from: int) -> int
    decreases text.len() - from,
{
    if 0 <= from < text.len() && !is_space(text[from]) {
        token_end(text, from + 1)
    } else {
        from
    }
}

/// The first place at or after `from` that holds no nickname character.
pub open spec fn name_end(text: Seq<char>, from: int) -> int
    decreases text.len() - from,
{
    if 0 <= from < text.len() && is_name_char(text[from]) {
        name_end(text, from + 1)
    } else {
        from
    }
}

/// The nickname that the token starting at `start` mentions: the longest
/// run of nickname characters behind a leading `@`, if it is not empty.
/// Whitespace is no nickname character, so the run ends within the token.
pub open spec fn mentioned_name(text: Seq<char>, start: int) -> Option<Seq<char>> {
    if 0 <= start < text.len() && text[start] == '@' && name_end(text, start + 1) > start + 1 {
        Some(text.subrange(start + 1, name_end(text, start + 1)))
    } else {
        None
    }
}

/// The place of the last friend in the list with exactly this nickname.
pub open spec fn friend_named(friends: Seq<NamedUser>, name: Seq<char>) -> Option<int>
    decreases friends.len(),
{
    if friends.len() == 0 {
        None
    } else if friends.last().nickname == name {
        Some(friends.len() - 1)
    } else {
        friend_named(friends.drop_last(), name)
    }
}

/// The friend that is found for a nickname has that nickname.
pub proof fn lemma_friend_named(friends: Seq<NamedUser>, name: Seq<char>)
    ensures
        friend_named(friends, name) matches Some(place) ==> 0 <= place < friends.len()
            && friends[place].nickname == name,
    decreases friends.len(),
{
    if friends.len() > 0 && friends.last().nickname != name {
        lemma_friend_named(friends.drop_last(), name);
    }
}

/// Whether the mentions found so far hold the user.
pub open spec fn mentions_user(found: Seq<NamedUser>, user_id: Seq<char>) -> bool {
    exists|i: int| 0 <= i < found.len() && (#[trigger] found[i]).user_id == user_id
}

/// The mentions after a token: a token that names a friend who was not
/// mentioned before adds that friend.
pub open spec fn note_token(
    found: Seq<NamedUser>,
    friends: Seq<NamedUser>,
    name: Option<Seq<char>>,
) -> Seq<NamedUser> {
    match name {
        Some(name) => match friend_named(friends, name) {
            Some(place) => if mentions_user(found, friends[place].user_id) {
                found
            } else {
                found.push(NamedUser { user_id: friends[place].user_id, nickname: name })
            },
            None => found,
        },
        None => found,
    }
}

/// The mentions of a text from `from` on, token by token, behind those
/// found so far.
pub open spec fn scan(
    text: Seq<char>,
    from: int,
    friends: Seq<NamedUser>,
    found: Seq<NamedUser>,
) -> Seq<NamedUser>
    decreases text.len() - from,
    via scan_decreases
{
    let start = skip_spaces(text, from);
    if from < 0 || start >= text.len() {
        found
    } else {
        scan(
            text,
            token_end(text, start),
            friends,
            note_token(found, friends, mentioned_name(text, start)),
        )
    }
}

#[via_fn]
proof fn scan_decreases(
    text: Seq<char>,
    from: int,
    friends: Seq<NamedUser>,
    found: Seq<NamedUser>,
) {
    if from >= 0 {
        lemma_skip_spaces(text, from);
        let start = skip_spaces(text, from);
        if start < text.len() {
            lemma_token_end(text, start + 1);
        }
    }
}

proof fn lemma_skip_spaces(text: Seq<char>, from: int)
    requires
        0 <= from,
    ensures
        skip_spaces(text, from) >= from,
        skip_spaces(text, from) < text.len() ==> !is_space(text[skip_spaces(text, from)]),
    decreases text.len() - from,
{
    if from < text.len() && is_space(text[from]) {
        lemma_skip_spaces(text, from + 1);
    }
}

proof fn lemma_token_end(text: Seq<char>, from: int)
    requires
        0 <= from,
    ensures
        token_end(text, from) >= from,
        from <= text.len() ==> token_end(text, from) <= text.len(),
    decreases text.len() - from,
{
    if from < text.len() && !is_space(text[from]) {
        lemma_token_end(text, from + 1);
    }
}

/// The mentions of a text: for each token that starts with `@`, in order,
/// the friend whose nickname follows the `@`, each friend once.
pub open spec fn mentions_of(text: Seq<char>, friends: Seq<NamedUser>) -> Seq<NamedUser> {
    scan(text, 0, friends, Seq::empty())
}

/// Whether no user is mentioned twice.
pub open spec fn distinct_users(found: Seq<NamedUser>) -> bool {
    forall|i: int, j: int|
        0 <= i < j < found.len() ==> (#[trigger] found[i]).user_id != (#[trigger] found[j]).user_id
}

/// Whether each mention is a friend of the list, under that friend's nickname.
pub open spec fn all_friends(found: Seq<NamedUser>, friends: Seq<NamedUser>) -> bool {
    forall|i: int|
        0 <= i < found.len() ==> exists|j: int|
            0 <= j < friends.len() && #[trigger] friends[j] == #[trigger] found[i]
}

proof fn lemma_scan_keeps(
    text: Seq<char>,
    from: int,
    friends: Seq<NamedUser>,
    found: Seq<NamedUser>,
)
    requires
        distinct_users(found),
        all_friends(found, friends),
    ensures
        distinct_users(scan(text, from, friends, found)),
        all_friends(scan(text, from, friends, found), friends),
    decreases text.len() - from,
{
    let start = skip_spaces(text, from);
    if from >= 0 && start < text.len() {
        lemma_skip_spaces(text, from);
        lemma_token_end(text, start + 1);
        let name = mentioned_name(text, start);
        let next = note_token(found, friends, name);
        if name is Some {
            lemma_friend_named(friends, name->0);
        }
        lemma_scan_keeps(text, token_end(text, start), friends, next);
    }
}

/// No user is mentioned twice, and each mention is a friend of the list
/// under that friend's nickname.
pub proof fn lemma_mentions_distinct(text: Seq<char>, friends: Seq<NamedUser>)
    ensures
        distinct_users(mentions_of(text, friends)),
        all_friends(mentions_of(text, friends), friends),
{
    lemma_scan_keeps(text, 0, friends, Seq::empty());
}

/// The characters of a string, one by one.
fn chars_of(text: &str) -> (chars: Vec<char>)
    ensures
        chars@ == text@,
{
    let mut chars: Vec<char> = Vec::new();
    for c in it: text.chars()
        invariant
            it.seq() == text@,
            chars@ == text@.take(it.index() as int),
    {
        chars.push(c);
    }
    chars
}

fn is_space_char(c: char) -> (space: bool)
    ensures
        space == is_space(c),
{
    c == ' ' || c == '\t' || c == '\n' || c == '\x0C' || c == '\r'
}

fn is_nickname_char(c: char) -> (named: bool)
    ensures
        named == is_name_char(c),
{
    ('a' <= c && c <= 'z') || ('A' <= c && c <= 'Z') || ('0' <= c && c <= '9') || c == '_' || c
        == '-'
}

/// Whether `name` is the stretch of `text` from `start` to `end`.
fn is_stretch(name: &Vec<char>, text: &Vec<char>, start: usize, end: usize) -> (same: bool)
    requires
        start <= end <= text@.len(),
    ensures
        same == (name@ == text@.subrange(start as int, end as int)),
{
    if name.len() != end - start {
        return false;
    }
    let n = name.len();
    let mut k: usize = 0;
    while k < n
        invariant
            n == name@.len(),
            n == end - start,
            start <= end <= text@.len(),
            k <= n,
            forall|j: int| 0 <= j < k ==> name@[j] == text@[start + j],
        decreases n - k,
    {
        if name[k] != text[start + k] {
            return false;
        }
        k += 1;
    }
    assert(name@ =~= text@.subrange(start as int, end as int));
    true
}

/// The place of the last friend whose nickname is the stretch of `text`.
fn find_friend(
    friends: &[FriendInfo],
    names: &Vec<Vec<char>>,
    text: &Vec<char>,
    start: usize,
    end: usize,
) -> (place: Option<usize>)
    requires
        start <= end <= text@.len(),
        names@.len() == friends@.len(),
        forall|i: int| 0 <= i < names@.len() ==> (#[trigger] names@[i])@ == friends@[i].nickname@,
    ensures
        match friend_named(
            friends@.map_values(|f: FriendInfo| f@),
            text@.subrange(start as int, end as int),
        ) {
            Some(i) => place == Some(i as usize) && 0 <= i < friends@.len(),
            None => place is None,
        },
{
    let ghost all = friends@.map_values(|f: FriendInfo| f@);
    let ghost name = text@.subrange(start as int, end as int);
    let mut j: usize = friends.len();
    assert(all.take(j as int) =~= all);
    while j > 0
        invariant
            j <= friends@.len(),
            start <= end <= text@.len(),
            names@.len() == friends@.len(),
            forall|i: int|
                0 <= i < names@.len() ==> (#[trigger] names@[i])@ == friends@[i].nickname@,
            all == friends@.map_values(|f: FriendInfo| f@),
            name == text@.subrange(start as int, end as int),
            friend_named(all, name) == friend_named(all.take(j as int), name),
        decreases j,
    {
        j -= 1;
        proof {
            let upto = all.take(j as int + 1);
            assert(upto.drop_last() =~= all.take(j as int));
        }
        if is_stretch(&names[j], text, start, end) {
            return Some(j);
        }
    }
    None
}

/// Whether a mention of the user was found already.
fn already_mentioned(found: &Vec<Mention>, user_id: &String) -> (mentioned: bool)
    ensures
        mentioned == mentions_user(found@.map_values(|m: Mention| m@), user_id@),
{
    let ghost views = found@.map_values(|m: Mention| m@);
    let n = found.len();
    let mut i: usize = 0;
    while i < n
        invariant
            n == found@.len(),
            i <= n,
            views == found@.map_values(|m: Mention| m@),
            forall|j: int| 0 <= j < i ==> (#[trigger] views[j]).user_id != user_id@,
        decreases n - i,
    {
        if found[i].user_id == *user_id {
            assert(views[i as int].user_id == user_id@);
            return true;
        }
        i += 1;
    }
    false
}

/// Finds the friends that a text mentions.
///
/// The text is parted at ASCII whitespace. A token that starts with `@`
/// names the longest run of letters, digits, `_` and `-` that follows; where
/// a friend has exactly that nickname, the friend is mentioned, with the
/// last such friend of the list winning. Each user is reported once, at the
/// first mention.
pub fn extract_mentions(text: &str, friends: &[FriendInfo]) -> (mentions: Vec<Mention>)
    ensures
        mentions@.map_values(|m: Mention| m@) == mentions_of(
            text@,
            friends@.map_values(|f: FriendInfo| f@),
        ),
{
    let chars = chars_of(text);
    let n = chars.len();
    let ghost all = friends@.map_values(|f: FriendInfo| f@);

    let mut names: Vec<Vec<char>> = Vec::new();
    let mut f: usize = 0;
    while f < friends.len()
        invariant
            f <= friends@.len(),
            names@.len() == f,
            forall|i: int| 0 <= i < f ==> (#[trigger] names@[i])@ == friends@[i].nickname@,
        decreases friends@.len() - f,
    {
        names.push(chars_of(friends[f].nickname.as_str()));
        f += 1;
    }

    let mut mentions: Vec<Mention> = Vec::new();
    assert(mentions@.map_values(|m: Mention| m@) =~= Seq::<NamedUser>::empty());
    let mut i: usize = 0;
    loop
        invariant
            n == chars@.len(),
            chars@ == text@,
            i <= n,
            all == friends@.map_values(|f: FriendInfo| f@),
            names@.len() == friends@.len(),
            forall|k: int|
                0 <= k < names@.len() ==> (#[trigger] names@[k])@ == friends@[k].nickname@,
            mentions_of(text@, all) == scan(
                text@,
                i as int,
                all,
                mentions@.map_values(|m: Mention| m@),
            ),
        ensures
            mentions@.map_values(|m: Mention| m@) == mentions_of(text@, all),
        decreases n - i,
    {
        let ghost from = i as int;
        while i < n && is_space_char(chars[i])
            invariant
                n == chars@.len(),
                chars@ == text@,
                from <= i <= n,
                skip_spaces(text@, from) == skip_spaces(text@, i as int),
            decreases n - i,
        {
            i += 1;
        }
        if i >= n {
            break;
        }
        let start = i;
        let ghost found = mentions@.map_values(|m: Mention| m@);

        // The name behind a leading '@'.
        let mut name_stop: usize = start + 1;
        if chars[start] == '@' {
            while name_stop < n && is_nickname_char(chars[name_stop])
                invariant
                    n == chars@.len(),
                    chars@ == text@,
                    start < name_stop <= n,
                    name_end(text@, start + 1) == name_end(text@, name_stop as int),
                decreases n - name_stop,
            {
                name_stop += 1;
            }
            if name_stop > start + 1 {
                match find_friend(friends, &names, &chars, start + 1, name_stop) {
                    Some(place) => {
                        proof {
                            lemma_friend_named(all, text@.subrange(start + 1, name_stop as int));
                        }
                        if !already_mentioned(&mentions, &friends[place].user_id) {
                            let mention = Mention {
                                user_id: friends[place].user_id.clone(),
                                nickname: friends[place].nickname.clone(),
                            };
                            proof {
                                assert(mentions@.push(mention).map_values(|m: Mention| m@)
                                    =~= found.push(mention@));
                            }
                            mentions.push(mention);
                        }
                    },
                    None => {},
                }
            }
        }

        // The rest of the token.
        while i < n && !is_space_char(chars[i])
            invariant
                n == chars@.len(),
                chars@ == text@,
                start <= i <= n,
                token_end(text@, start as int) == token_end(text@, i as int),
            decreases n - i,
        {
            i += 1;
        }
    }
    mentions
}

} // verus!
