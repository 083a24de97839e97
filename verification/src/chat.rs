//! Reading the lines of the game's chat: the broadcast that lists the
//! players of a room, and the notices that one joined, left or was
//! eliminated.

use crate::text::{
    contains, contains_text, find_text, first_occurrence, lemma_filter_take_step,
    lemma_first_occurrence, push_char_of, same_text, slice_text, split_on, split_text, texts_of,
    to_chars, trim, trim_bounds,
};
use vstd::prelude::*;
use vstd::string::*;

verus! {

/// The words by which the broadcast of a room's players is known.
pub open spec fn room_trigger() -> Seq<char> {
    "[CHAT] Jogadores"@
}

/// What closes the broadcast's header; the names follow it.
pub open spec fn list_delimiter() -> Seq<char> {
    "):"@
}

/// The words of the notice that a player joined the room.
pub open spec fn join_phrase() -> Seq<char> {
    "entrou na sala"@
}

/// The word before which the notice of a join names the player.
pub open spec fn join_word() -> Seq<char> {
    "entrou"@
}

/// The words of the notice that a player left the room.
pub open spec fn leave_phrase() -> Seq<char> {
    "saiu da sala"@
}

/// The words of the notice of a final kill.
pub open spec fn final_kill_phrase() -> Seq<char> {
    "KILL FINAL"@
}

/// What follows the name of the player who died.
pub open spec fn death_suffix() -> Seq<char> {
    " morreu"@
}

/// Whether a character of the list is no part of a name: a blank, or the
/// plus sign that marks a team mate.
pub open spec fn is_team_marker(c: char) -> bool {
    c == ' ' || c == '+'
}

/// The text without blanks and team markers.
pub open spec fn strip_markers(text: Seq<char>) -> Seq<char> {
    text.filter(|c: char| !is_team_marker(c))
}

/// The names that the body of a broadcast lists, in its order: the body
/// without the white space at its ends and without blanks and team markers,
/// cut at the commas. A name that stands twice is listed twice.
pub open spec fn player_list(body: Seq<char>) -> Seq<Seq<char>> {
    split_on(strip_markers(trim(body)), ',')
}

/// The body of a broadcast: what stands between the first delimiter and the
/// next one, or the end of the line. `None` where the line has no delimiter.
pub open spec fn list_body(line: Seq<char>) -> Option<Seq<char>> {
    match first_occurrence(line, list_delimiter(), 0) {
        None => None,
        Some(at) => {
            let start = at + list_delimiter().len();
            let end = match first_occurrence(line, list_delimiter(), start) {
                Some(next) => next,
                None => line.len() as int,
            };
            Some(line.subrange(start, end))
        },
    }
}

/// The names that a line lists, where the line is the broadcast of a room's
/// players: it holds the trigger, and a delimiter before the names.
pub open spec fn room_players(line: Seq<char>) -> Option<Seq<Seq<char>>> {
    if contains_text(line, room_trigger()) {
        match list_body(line) {
            Some(body) => Some(player_list(body)),
            None => None,
        }
    } else {
        None
    }
}

/// The first index from `from` on at which `word` stands in `words`.
pub open spec fn first_word(words: Seq<Seq<char>>, word: Seq<char>, from: int) -> Option<int>
    decreases words.len() - from,
{
    if from < 0 || from >= words.len() {
        None
    } else if words[from] == word {
        Some(from)
    } else {
        first_word(words, word, from + 1)
    }
}

/// The player of whom a line says that they joined the room: the word before
/// the first `entrou`, the words being what the blanks separate. `None` where
/// the line is no such notice, or holds no such word with a word before it.
pub open spec fn joined_player(line: Seq<char>) -> Option<Seq<char>> {
    if contains_text(line, join_phrase()) {
        let words = split_on(line, ' ');
        match first_word(words, join_word(), 0) {
            Some(at) => if at >= 1 {
                Some(words[at - 1])
            } else {
                None
            },
            None => None,
        }
    } else {
        None
    }
}

/// What a line tells about the players of the room.
#[derive(Debug, Clone, Copy, PartialEq, Eq, Structural)]
pub enum Notice {
    /// A player joined.
    Joined,
    /// A player left.
    Left,
    /// A player was eliminated by a final kill.
    Eliminated,
    /// Nothing of the kind.
    Nothing,
}

/// What a line tells about the players of the room. A line with the words of
/// several notices counts as the first of: joined, left, eliminated.
pub open spec fn notice_of(line: Seq<char>) -> Notice {
    if contains_text(line, join_phrase()) {
        Notice::Joined
    } else if contains_text(line, leave_phrase()) {
        Notice::Left
    } else if contains_text(line, final_kill_phrase()) {
        Notice::Eliminated
    } else {
        Notice::Nothing
    }
}

/// Whether a notice of the given kind is about the player `username`: a
/// notice that someone left, if it holds the name; one of an elimination, if
/// it holds the name before the word for "died".
pub open spec fn removes_player(notice: Notice, line: Seq<char>, username: Seq<char>) -> bool {
    match notice {
        Notice::Left => contains_text(line, username),
        Notice::Eliminated => contains_text(line, username + death_suffix()),
        _ => false,
    }
}

/// The names that the body of a broadcast lists, in its order.
pub fn parse_player_list(body: &str) -> (names: Vec<String>)
    ensures
        texts_of(names@) == player_list(body@),
{
    let chars = to_chars(body);
    let (lo, hi) = trim_bounds(&chars, 0, chars.len());
    assert(chars@.subrange(0, chars.len() as int) =~= body@);
    let ghost trimmed = trim(body@);
    let mut stripped = String::new();
    let mut i: usize = lo;
    while i < hi
        invariant
            lo <= i <= hi <= chars.len(),
            chars@ == body@,
            trimmed == chars@.subrange(lo as int, hi as int),
            stripped@ == strip_markers(trimmed.take(i - lo)),
        decreases hi - i,
    {
        proof {
            lemma_filter_take_step(trimmed, |c: char| !is_team_marker(c), i - lo);
        }
        if chars[i] != ' ' && chars[i] != '+' {
            push_char_of(&mut stripped, body, i);
        }
        i += 1;
    }
    assert(trimmed.take(hi - lo) =~= trimmed);
    split_text(stripped.as_str(), ',')
}

/// The names that a line lists, where the line is the broadcast of a room's
/// players. A line that holds the trigger but no delimiter is no broadcast.
pub fn parse_room_line(line: &str) -> (names: Option<Vec<String>>)
    ensures
        match names {
            Some(list) => room_players(line@) == Some(texts_of(list@)),
            None => room_players(line@) is None,
        },
{
    let chars = to_chars(line);
    let trigger = to_chars("[CHAT] Jogadores");
    if find_text(&chars, &trigger, 0).is_none() {
        return None;
    }
    let delimiter = to_chars("):");
    let at = match find_text(&chars, &delimiter, 0) {
        Some(at) => at,
        None => {
            return None;
        },
    };
    proof {
        lemma_first_occurrence(line@, list_delimiter(), 0);
        lemma_first_occurrence(line@, list_delimiter(), at + list_delimiter().len());
        assert(at + delimiter.len() <= chars.len());
    }
    let start = at + delimiter.len();
    let end = match find_text(&chars, &delimiter, start) {
        Some(next) => next,
        None => chars.len(),
    };
    let body = slice_text(line, start, end);
    Some(parse_player_list(body.as_str()))
}

/// The player of whom a line says that they joined the room.
pub fn parse_join(line: &str) -> (name: Option<String>)
    ensures
        match name {
            Some(text) => joined_player(line@) == Some(text@),
            None => joined_player(line@) is None,
        },
{
    if !contains(line, "entrou na sala") {
        return None;
    }
    let words = split_text(line, ' ');
    let mut i: usize = 0;
    while i < words.len()
        invariant
            i <= words.len(),
            texts_of(words@) == split_on(line@, ' '),
            contains_text(line@, join_phrase()),
            first_word(split_on(line@, ' '), join_word(), 0) == first_word(
                split_on(line@, ' '),
                join_word(),
                i as int,
            ),
        decreases words.len() - i,
    {
        assert(texts_of(words@)[i as int] == words@[i as int]@);
        if same_text(words[i].as_str(), "entrou") {
            if i >= 1 {
                assert(texts_of(words@)[i - 1] == words@[i - 1]@);
                return Some(words[i - 1].clone());
            } else {
                return None;
            }
        }
        i += 1;
    }
    None
}

/// What a line tells about the players of the room.
pub fn classify_notice(line: &str) -> (notice: Notice)
    ensures
        notice == notice_of(line@),
{
    if contains(line, "entrou na sala") {
        Notice::Joined
    } else if contains(line, "saiu da sala") {
        Notice::Left
    } else if contains(line, "KILL FINAL") {
        Notice::Eliminated
    } else {
        Notice::Nothing
    }
}

/// Whether a notice of the given kind is about the player `username`.
pub fn notice_removes(notice: Notice, line: &str, username: &str) -> (r: bool)
    ensures
        r == removes_player(notice, line@, username@),
{
    match notice {
        Notice::Left => contains(line, username),
        Notice::Eliminated => {
            let phrase = String::from_str(username).concat(" morreu");
            contains(line, phrase.as_str())
        },
        _ => false,
    }
}

} // verus!
