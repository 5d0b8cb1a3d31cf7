//! The grammar of stat names.
//!
//! The upstream service reports each counter under a flat name. The names of
//! per-user traffic counters are made of four parts,
//! `user>>>{user}>>>traffic>>>{direction}`, where `{user}` is a non-empty run
//! of characters other than `>` and `{direction}` is `uplink` or `downlink`.
//! Every other name belongs to a counter that is not exported.

use vstd::prelude::*;
use crate::key::{Direction, KeyView, ParsedStatKey};

verus! {

/// What every per-user stat name begins with.
pub const USER_PREFIX: &'static str = "user>>>";

/// What stands between the user and the direction.
pub const TRAFFIC_INFIX: &'static str = ">>>traffic>>>";

/// Whether `user` can stand in a stat name: it is not empty and holds no `>`.
pub open spec fn is_label(user: Seq<char>) -> bool {
    user.len() > 0 && forall|i: int| 0 <= i < user.len() ==> user[i] != '>'
}

/// The stat name under which the upstream service reports the series `key`.
pub open spec fn stat_name(key: KeyView) -> Seq<char> {
    USER_PREFIX@ + key.user + TRAFFIC_INFIX@ + key.direction.literal()
}

/// Whether `name` is the stat name of the series `key`.
pub open spec fn names(name: Seq<char>, key: KeyView) -> bool {
    is_label(key.user) && name == stat_name(key)
}

/// The series that `name` is the stat name of, if there is one.
pub open spec fn decoded(name: Seq<char>) -> Option<KeyView> {
    if exists|key: KeyView| names(name, key) {
        Some(choose|key: KeyView| names(name, key))
    } else {
        None
    }
}

/// What the proofs need to know of the fixed words of a stat name: the infix
/// begins with a `>`, and the two direction words differ in length.
proof fn lemma_words()
    ensures
        TRAFFIC_INFIX@.len() > 0,
        TRAFFIC_INFIX@[0] == '>',
        Direction::Uplink.literal().len() != Direction::Downlink.literal().len(),
{
    reveal_strlit(">>>traffic>>>");
    reveal_strlit("uplink");
    reveal_strlit("downlink");
}

/// The index in the stat name of `key` at which the user's label ends.
spec fn user_end(key: KeyView) -> int {
    (USER_PREFIX@.len() + key.user.len()) as int
}

/// The index in the stat name of `key` at which the direction word begins.
spec fn direction_start(key: KeyView) -> int {
    user_end(key) + TRAFFIC_INFIX@.len()
}

/// Where the parts of a stat name stand in it. The label ends at the first
/// `>` behind the prefix.
proof fn lemma_shape(name: Seq<char>, key: KeyView)
    requires
        names(name, key),
    ensures
        name.len() == direction_start(key) + key.direction.literal().len(),
        name.subrange(0, USER_PREFIX@.len() as int) == USER_PREFIX@,
        name.subrange(USER_PREFIX@.len() as int, user_end(key)) == key.user,
        forall|i: int| USER_PREFIX@.len() <= i < user_end(key) ==> name[i] != '>',
        name[user_end(key)] == '>',
        name.subrange(user_end(key), direction_start(key)) == TRAFFIC_INFIX@,
        name.subrange(direction_start(key), name.len() as int) == key.direction.literal(),
{
    lemma_words();
    assert forall|i: int| USER_PREFIX@.len() <= i < user_end(key) implies name[i] != '>' by {
        assert(name[i] == key.user[i - USER_PREFIX@.len()]);
    }
    assert(name[user_end(key)] == TRAFFIC_INFIX@[0]);
}

/// A name is the stat name of one series at most: no name can be read in two
/// ways.
pub proof fn law_names_one_series(name: Seq<char>, first: KeyView, second: KeyView)
    requires
        names(name, first),
        names(name, second),
    ensures
        first == second,
{
    lemma_words();
    lemma_shape(name, first);
    lemma_shape(name, second);
    assert(user_end(first) == user_end(second)) by {
        if user_end(first) < user_end(second) {
            assert(name[user_end(first)] == '>');
        }
        if user_end(second) < user_end(first) {
            assert(name[user_end(second)] == '>');
        }
    }
    assert(first.user == second.user);
    assert(first.direction.literal() == second.direction.literal());
}

/// `decoded` gives a series for exactly the names of that series: a name made
/// of the prefix, a label, the infix and a direction word decodes to that
/// label and direction, and no other string decodes to anything.
pub proof fn law_decode_exact(name: Seq<char>, key: KeyView)
    ensures
        decoded(name) == Some(key) <==> names(name, key),
        decoded(name) is None <==> forall|any: KeyView| !names(name, any),
{
    if names(name, key) {
        let chosen = choose|any: KeyView| names(name, any);
        law_names_one_series(name, chosen, key);
    }
}

/// Every name that decodes begins with the prefix, which is the pattern that
/// the query of a sync cycle asks for: the query leaves no series out.
pub proof fn law_decoded_names_begin_with_prefix(name: Seq<char>)
    requires
        decoded(name) is Some,
    ensures
        USER_PREFIX@.is_prefix_of(name),
{
    let key = decoded(name).unwrap();
    law_decode_exact(name, key);
    lemma_shape(name, key);
    assert(USER_PREFIX@ =~= name.subrange(0, USER_PREFIX@.len() as int));
}

/// The characters of `text`, one element for each.
fn chars_of(text: &str) -> (chars: Vec<char>)
    ensures
        chars@ == text@,
{
    let mut chars: Vec<char> = Vec::new();
    for c in it: text.chars()
        invariant
            it.seq() == text@,
            chars@ == text@.take(it.index() as int),
    {
        chars.push(c);
    }
    chars
}

/// Where `word` ends in `text` if it stands there from `at` on.
fn word_at(text: &Vec<char>, at: usize, word: &str) -> (end: Option<usize>)
    requires
        at <= text.len(),
    ensures
        match end {
            Some(end) => end == at + word@.len() && end <= text.len() && text@.subrange(
                at as int,
                end as int,
            ) == word@,
            None => !(at + word@.len() <= text.len() && text@.subrange(
                at as int,
                at + word@.len(),
            ) == word@),
        },
{
    let letters = chars_of(word);
    if letters.len() > text.len() - at {
        return None;
    }
    let mut i: usize = 0;
    while i < letters.len()
        invariant
            at + letters.len() <= text.len(),
            letters@ == word@,
            i <= letters.len(),
            forall|j: int| 0 <= j < i ==> text[at + j] == letters[j],
        decreases letters.len() - i,
    {
        if text[at + i] != letters[i] {
            assert(text@.subrange(at as int, at + word@.len())[i as int] != word@[i as int]);
            return None;
        }
        i += 1;
    }
    assert(text@.subrange(at as int, at + word@.len()) =~= word@);
    Some(at + letters.len())
}

/// Decodes a stat name into the key of the series it reports.
///
/// Returns the user and the direction for a name of the form
/// `user>>>{user}>>>traffic>>>{direction}`, and `None` for every other name.
pub fn decode(name: &str) -> (key: Option<ParsedStatKey>)
    ensures
        match key {
            Some(key) => names(name@, key@) && decoded(name@) == Some(key@),
            None => decoded(name@) is None && forall|any: KeyView| !names(name@, any),
        },
{
    let text = chars_of(name);
    let user_start = match word_at(&text, 0, USER_PREFIX) {
        Some(end) => end,
        None => {
            proof {
                assert forall|any: KeyView| !names(name@, any) by {
                    if names(name@, any) {
                        lemma_shape(name@, any);
                    }
                }
            }
            return None;
        },
    };
    let mut user_end: usize = user_start;
    while user_end < text.len() && text[user_end] != '>'
        invariant
            user_start <= user_end <= text.len(),
            forall|i: int| user_start <= i < user_end ==> text[i] != '>',
        decreases text.len() - user_end,
    {
        user_end += 1;
    }
    proof {
        assert forall|any: KeyView| names(name@, any) implies user_end == self::user_end(any) by {
            lemma_shape(name@, any);
        }
    }
    if user_end == user_start {
        return None;
    }
    let direction_start = match word_at(&text, user_end, TRAFFIC_INFIX) {
        Some(end) => end,
        None => {
            proof {
                assert forall|any: KeyView| !names(name@, any) by {
                    if names(name@, any) {
                        lemma_shape(name@, any);
                    }
                }
            }
            return None;
        },
    };
    let direction = if word_at(&text, direction_start, Direction::Uplink.as_str()) == Some(
        text.len(),
    ) {
        Direction::Uplink
    } else if word_at(&text, direction_start, Direction::Downlink.as_str()) == Some(text.len()) {
        Direction::Downlink
    } else {
        proof {
            assert forall|any: KeyView| !names(name@, any) by {
                if names(name@, any) {
                    lemma_shape(name@, any);
                }
            }
        }
        return None;
    };
    let user = name.substring_char(user_start, user_end).to_owned();
    let key = ParsedStatKey { user, direction };
    proof {
        assert(name@ =~= stat_name(key@));
        assert(names(name@, key@));
        law_decode_exact(name@, key@);
    }
    Some(key)
}

} // verus!
