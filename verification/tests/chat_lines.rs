use kc_overlay::chat::{
    classify_notice, notice_removes, parse_join, parse_player_list, parse_room_line, Notice,
};
use kc_overlay::text::{contains, same_text, split_text, to_chars, trim_bounds};

fn names(list: &[&str]) -> Vec<String> {
    list.iter().map(|name| name.to_string()).collect()
}

#[test]
fn list_with_team_marker_and_stray_spaces() {
    assert_eq!(
        parse_player_list("PlayerA, +PlayerB,PlayerC "),
        names(&["PlayerA", "PlayerB", "PlayerC"])
    );
}

#[test]
fn list_keeps_duplicates_and_order() {
    assert_eq!(parse_player_list("Zed,Amy,Zed"), names(&["Zed", "Amy", "Zed"]));
}

#[test]
fn list_keeps_empty_names() {
    assert_eq!(parse_player_list(""), names(&[""]));
    assert_eq!(parse_player_list("A,,B,"), names(&["A", "", "B", ""]));
}

#[test]
fn list_trims_white_space_only_at_the_ends() {
    assert_eq!(parse_player_list("\tA,B\r\n"), names(&["A", "B"]));
    assert_eq!(parse_player_list("A\tB,C"), names(&["A\tB", "C"]));
    assert_eq!(parse_player_list(" +\tA"), names(&["\tA"]));
}

#[test]
fn room_line_gives_the_names_after_the_delimiter() {
    let line = "[12:00:01] [Client thread/INFO]: [CHAT] Jogadores (3): PlayerA, +PlayerB, PlayerC";
    assert_eq!(parse_room_line(line), Some(names(&["PlayerA", "PlayerB", "PlayerC"])));
}

#[test]
fn room_line_body_ends_at_the_next_delimiter() {
    let line = "[CHAT] Jogadores (2): A, B): C";
    assert_eq!(parse_room_line(line), Some(names(&["A", "B"])));
}

#[test]
fn room_line_without_delimiter_is_no_match() {
    assert_eq!(parse_room_line("[CHAT] Jogadores sem lista"), None);
    assert_eq!(parse_room_line("[CHAT] Jogadores (3)"), None);
}

#[test]
fn line_without_trigger_is_no_match() {
    assert_eq!(parse_room_line("[CHAT] Pessoas (3): A, B"), None);
    assert_eq!(parse_room_line(""), None);
}

#[test]
fn room_line_with_nothing_after_the_delimiter() {
    assert_eq!(parse_room_line("[CHAT] Jogadores (0):"), Some(names(&[""])));
}

#[test]
fn join_names_the_word_before_entrou() {
    assert_eq!(
        parse_join("[CHAT] Steve entrou na sala (4/16)"),
        Some("Steve".to_string())
    );
}

#[test]
fn join_needs_the_phrase_and_a_word_before() {
    assert_eq!(parse_join("Steve entrou no jogo"), None);
    assert_eq!(parse_join("entrou na sala"), None);
    assert_eq!(parse_join("Steve reentrou na sala"), None);
}

#[test]
fn join_takes_the_first_entrou() {
    assert_eq!(parse_join("A entrou B entrou na sala"), Some("A".to_string()));
}

#[test]
fn notices_are_told_apart() {
    assert_eq!(classify_notice("Steve entrou na sala"), Notice::Joined);
    assert_eq!(classify_notice("Steve saiu da sala"), Notice::Left);
    assert_eq!(classify_notice("Steve morreu. KILL FINAL!"), Notice::Eliminated);
    assert_eq!(classify_notice("nothing to see"), Notice::Nothing);
    assert_eq!(classify_notice("A entrou na sala, B saiu da sala"), Notice::Joined);
    assert_eq!(classify_notice("B saiu da sala KILL FINAL"), Notice::Left);
}

#[test]
fn notice_removes_the_players_it_names() {
    assert!(notice_removes(Notice::Left, "Steve saiu da sala", "Steve"));
    assert!(!notice_removes(Notice::Left, "Steve saiu da sala", "Alex"));
    assert!(notice_removes(Notice::Eliminated, "Steve morreu. KILL FINAL!", "Steve"));
    assert!(!notice_removes(Notice::Eliminated, "Alex matou Steve. KILL FINAL!", "Steve"));
    assert!(!notice_removes(Notice::Joined, "Steve entrou na sala", "Steve"));
    assert!(!notice_removes(Notice::Nothing, "Steve", "Steve"));
}

#[test]
fn contains_finds_texts_anywhere() {
    assert!(contains("hello world", "world"));
    assert!(contains("hello world", "hello"));
    assert!(contains("hello world", "o w"));
    assert!(contains("hello", ""));
    assert!(contains("", ""));
    assert!(!contains("hello", "hello!"));
    assert!(!contains("", "a"));
    assert!(!contains("ababab", "abc"));
    assert!(contains("aab", "ab"));
}

#[test]
fn split_cuts_at_every_separator() {
    assert_eq!(split_text("a b  c", ' '), names(&["a", "b", "", "c"]));
    assert_eq!(split_text("", ' '), names(&[""]));
    assert_eq!(split_text(",", ','), names(&["", ""]));
    assert_eq!(split_text("ação,é", ','), names(&["ação", "é"]));
}

#[test]
fn same_text_compares_characters() {
    assert!(same_text("abc", "abc"));
    assert!(!same_text("abc", "abd"));
    assert!(!same_text("abc", "ab"));
}

#[test]
fn chars_and_trim_bounds() {
    let chars = to_chars("  a b \u{3000}");
    assert_eq!(chars, vec![' ', ' ', 'a', ' ', 'b', ' ', '\u{3000}']);
    assert_eq!(trim_bounds(&chars, 0, chars.len()), (2, 5));
    assert_eq!(trim_bounds(&chars, 3, 6), (4, 5));
    let blanks = to_chars(" \t\n");
    assert_eq!(trim_bounds(&blanks, 0, 3), (3, 3));
}
