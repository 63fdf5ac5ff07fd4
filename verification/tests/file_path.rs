use queue_playlist_maker::output_path::get_file_path;
use queue_playlist_maker::text::{chars_of, is_whitespace_char, str_ends_with, trim_str};

#[test]
fn blank_path_is_playlist_json() {
    assert_eq!(get_file_path("".to_string()), "playlist.json");
    assert_eq!(get_file_path("   ".to_string()), "playlist.json");
    assert_eq!(get_file_path("\t\n".to_string()), "playlist.json");
}

#[test]
fn path_without_suffix_gets_it() {
    assert_eq!(get_file_path("foo".to_string()), "foo.json");
    assert_eq!(get_file_path("dir/foo.txt".to_string()), "dir/foo.txt.json");
    assert_eq!(get_file_path("foo.JSON".to_string()), "foo.JSON.json");
    assert_eq!(get_file_path("json".to_string()), "json.json");
}

#[test]
fn path_with_suffix_stays() {
    assert_eq!(get_file_path("foo.json".to_string()), "foo.json");
    assert_eq!(get_file_path(".json".to_string()), ".json");
    assert_eq!(get_file_path("./out/list.json".to_string()), "./out/list.json");
}

#[test]
fn path_is_trimmed() {
    assert_eq!(get_file_path("  foo  ".to_string()), "foo.json");
    assert_eq!(get_file_path(" foo.json\n".to_string()), "foo.json");
    assert_eq!(get_file_path("\u{3000}foo\u{a0}".to_string()), "foo.json");
    assert_eq!(get_file_path("my list".to_string()), "my list.json");
    assert_eq!(get_file_path("foo.json x".to_string()), "foo.json x.json");
}

#[test]
fn path_of_a_path_is_that_path() {
    for entered in ["", " ", "foo", "foo.json", "  a b  ", ".json", "x.json.json", "é", " ünï.json "] {
        let once = get_file_path(entered.to_string());
        let twice = get_file_path(once.clone());
        assert_eq!(once, twice);
        assert!(once.ends_with(".json"));
    }
}

#[test]
fn path_agrees_with_trim_and_ends_with_of_std() {
    for entered in ["", "a", " a", "a ", "a.json ", "\u{2003}b.json\u{2028}", "\u{200b}c", "d\u{feff}"] {
        let trimmed = entered.trim();
        let expected = if trimmed.is_empty() {
            "playlist.json".to_string()
        } else if trimmed.ends_with(".json") {
            trimmed.to_string()
        } else {
            format!("{}.json", trimmed)
        };
        assert_eq!(get_file_path(entered.to_string()), expected);
    }
}

#[test]
fn whitespace_is_what_std_calls_whitespace() {
    for code in 0..=0x10FFFFu32 {
        if let Some(c) = char::from_u32(code) {
            assert_eq!(is_whitespace_char(c), c.is_whitespace(), "U+{:04X}", code);
        }
    }
}

#[test]
fn trim_str_agrees_with_std() {
    for s in ["", " ", "a", "  a  b  ", "\t\r\n x", "x \u{85}", "\u{1680}\u{2000}mid dle\u{200a}\u{202f}\u{205f}", "äö ü "] {
        assert_eq!(trim_str(s), s.trim());
    }
}

#[test]
fn str_ends_with_agrees_with_std() {
    let texts = ["", "a", "json", ".json", "a.json", "a.jso", "a.json.", "äb", "b"];
    for s in texts {
        for suffix in texts {
            assert_eq!(str_ends_with(s, suffix), s.ends_with(suffix), "{:?} {:?}", s, suffix);
        }
    }
}

#[test]
fn chars_of_lists_the_characters() {
    assert_eq!(chars_of(""), Vec::<char>::new());
    assert_eq!(chars_of("añ→b"), vec!['a', 'ñ', '→', 'b']);
}
