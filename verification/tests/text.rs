use lib::handshake::host_api_version;
use lib::mood::Mood;
use lib::text::{chars_of, esc, push_decimal, push_fixed4};

#[test]
fn esc_escapes_quotes_backslashes_and_newlines() {
    assert_eq!(esc("plain"), "plain");
    assert_eq!(esc("a\"b"), "a\\\"b");
    assert_eq!(esc("back\\slash"), "back\\\\slash");
    assert_eq!(esc("two\nlines"), "two\\nlines");
    assert_eq!(esc(""), "");
    assert_eq!(esc("tab\tand \u{b7}"), "tab\tand \u{b7}");
}

#[test]
fn chars_of_keeps_every_char() {
    assert_eq!(chars_of("tama \u{b7} ok"), "tama \u{b7} ok".chars().collect::<Vec<char>>());
}

#[test]
fn api_version_from_hello() {
    assert_eq!(host_api_version("{\"t\":\"hello\",\"api_version\":2}"), 2);
    assert_eq!(host_api_version("{\"t\":\"hello\",\"api_version\": 17,\"x\":3}"), 17);
    assert_eq!(host_api_version("{\"t\":\"hello\",\"api_version\":\"4\"}"), 4);
    assert_eq!(host_api_version("{\"v\":9,\"api_version\":1}"), 1);
    assert_eq!(host_api_version("{\"t\":\"hello\",\"api_version\":4294967295}"), 4294967295);
}

#[test]
fn api_version_defaults_to_zero() {
    assert_eq!(host_api_version("{\"t\":\"hello\"}"), 0);
    assert_eq!(host_api_version("{\"t\":\"hello\",\"api_version\":null}"), 0);
    assert_eq!(host_api_version("{\"t\":\"hello\",\"api_version\":4294967296}"), 0);
    assert_eq!(host_api_version("{\"t\":\"hello\",\"api_version\":99999999999999999999999}"), 0);
    assert_eq!(host_api_version("api_version: 3"), 0);
    assert_eq!(host_api_version(""), 0);
}

#[test]
fn decimal_and_fixed_point() {
    let mut s = String::new();
    push_decimal(&mut s, 0);
    s.push(' ');
    push_decimal(&mut s, 4294967295);
    s.push(' ');
    push_fixed4(&mut s, 850);
    s.push(' ');
    push_fixed4(&mut s, 12345);
    s.push(' ');
    push_fixed4(&mut s, 0);
    assert_eq!(s, "0 4294967295 0.0850 1.2345 0.0000");
}

#[test]
fn fixed_point_matches_float_formatting() {
    for v in 0..20000u32 {
        let mut s = String::new();
        push_fixed4(&mut s, v);
        assert_eq!(s, format!("{:.4}", v as f64 / 10000.0));
    }
}

#[test]
fn mood_words_faces_and_ranks() {
    let all = [
        Mood::Excited,
        Mood::Petted,
        Mood::Sleepy,
        Mood::Hungry,
        Mood::Sad,
        Mood::Happy,
        Mood::Neutral,
    ];
    let words: Vec<&str> = all.iter().map(|m| m.word()).collect();
    assert_eq!(words, vec!["yay", "<3", "zzz", "hungry", "glum", "happy", "ok"]);
    let faces: Vec<&str> = all.iter().map(|m| m.face()).collect();
    assert_eq!(faces, vec!["(^o^)", "(^.^)", "(-_-)", "(o~o)", "(T_T)", "(^_^)", "(._.)"]);
    let ranks: Vec<u64> = all.iter().map(|m| m.ord()).collect();
    assert_eq!(ranks, vec![0, 1, 2, 3, 4, 5, 6]);
}
