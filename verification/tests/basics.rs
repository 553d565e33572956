use harmonium::digest::hex_bytes;
use harmonium::path::FilePath;
use harmonium::text::{
    append_decimal, chars_of, collapse, decimal_chars, equal_ignoring_ascii_case, find_labelled,
    parse_decimal, same_text, text_of, trim,
};
use harmonium::time::{Duration, MAX_NANOS};

fn path(text: &str) -> FilePath {
    FilePath::from_text(text)
}

#[test]
fn joining_follows_unix_rules() {
    assert_eq!(path("/a").join("b"), path("/a/b"));
    assert_eq!(path("/a/").join("b"), path("/a/b"));
    assert_eq!(path("").join("b"), path("b"));
    assert_eq!(path("/a").join("/b"), path("/b"));
    assert_eq!(path("/a").join(""), path("/a/"));
}

#[test]
fn equal_locations_ignore_slashes_and_inner_dots() {
    assert!(path("/a//b/").same_path(&path("/a/./b")));
    assert!(path("a/b/.").same_path(&path("a/b")));
    assert!(!path("./a").same_path(&path("a")));
    assert!(path("./a").same_path(&path(".//a")));
    assert!(!path("/a").same_path(&path("a")));
    assert!(!path("/a/../b").same_path(&path("/b")));
    assert!(path("").same_path(&path("")));
    assert!(!path("").same_path(&path("/")));
}

#[test]
fn directories_are_paths_without_their_last_segment() {
    assert_eq!(path("/music/song.mp3").parent(), Some(path("/music")));
    assert_eq!(path("song.mp3").parent(), Some(path("")));
    assert_eq!(path("/song.mp3").parent(), Some(path("/")));
    assert_eq!(path("/").parent(), None);
    assert_eq!(path("").parent(), None);
    for text in [
        "", "/", "//", ".", "./", "..", "../", "/.", "/..", "a", "a/", "a//", "a/.", "a/..", "./a",
        "././a", "/./a", "//a", "///a", "/a", "/a/", "/a/b", "/a//b", "/a/./b", "/a/b/.", "a/./b",
        ".a", ".a/b", "a/.b", "a/..b", "a/...", "a.b/c", "/aa/a", "a/a/a", "/a/b/../c", ".//.",
        "\u{e9}/\u{e8}",
    ] {
        let expected = std::path::Path::new(text)
            .parent()
            .map(|directory| path(directory.to_str().expect("UTF-8")));
        assert_eq!(path(text).parent(), expected, "{text:?}");
    }
    let broken = FilePath::from_bytes(vec![0xff, b'/', b'a']);
    assert_eq!(broken.parent(), Some(FilePath::from_bytes(vec![0xff])));
}

#[test]
fn malformed_paths_have_only_lossy_text() {
    let broken = FilePath::from_bytes(vec![b'a', 0xff, b'b']);
    assert_eq!(broken.to_text(), None);
    assert_eq!(broken.to_text_lossy(), "a\u{fffd}b");
    assert_eq!(path("\u{e9}").to_text(), Some("\u{e9}".to_string()));
    assert!(!broken.is_empty());
}

#[test]
fn white_space_is_trimmed_and_collapsed() {
    let text = chars_of("\u{2003} a \t\n b\u{85}");
    assert_eq!(text_of(&trim(&text)), "a \t\n b");
    assert_eq!(text_of(&collapse(&text)), "a b");
    assert_eq!(text_of(&collapse(&chars_of(" \t"))), "");
}

#[test]
fn ascii_case_is_ignored_for_ascii_letters_only() {
    let same = |a: &str, b: &str| equal_ignoring_ascii_case(&chars_of(a), &chars_of(b));
    assert!(same("HeLLo", "hEllO"));
    assert!(!same("\u{c9}", "\u{e9}"));
    assert!(!same("[", "{"));
    assert!(!same("ab", "abc"));
    assert!(same_text("a", "a"));
}

#[test]
fn numbers_are_rendered_and_read_back() {
    for n in [0u64, 7, 10, 1_024, u64::MAX] {
        let mut text = String::from("n=");
        append_decimal(&mut text, n);
        assert_eq!(text, format!("n={n}"));
        assert_eq!(parse_decimal(&decimal_chars(n), u64::MAX), Some(n));
    }
    assert_eq!(parse_decimal(&chars_of("256"), 255), None);
    assert_eq!(parse_decimal(&chars_of("+255"), 255), Some(255));
}

#[test]
fn labels_are_found_at_line_starts() {
    let find = |text: &str| {
        find_labelled(&chars_of(text), &chars_of("K:")).map(|rest| text_of(&rest))
    };
    assert_eq!(find("x\r\n  K: v\r\nK: w"), Some(" v".to_string()));
    assert_eq!(find("K: v\r"), Some(" v\r".to_string()));
    assert_eq!(find("\n\n"), None);
    assert_eq!(find(""), None);
}

#[test]
fn durations_saturate() {
    let longest = Duration { nanos: MAX_NANOS };
    assert_eq!(longest.saturating_add(Duration::from_millis(1)), longest);
    assert_eq!(
        Duration::from_secs(1).saturating_sub(Duration::from_millis(1)),
        Duration::from_millis(999)
    );
    assert_eq!(
        Duration::from_millis(1).saturating_sub(Duration::from_secs(1)),
        Duration::from_millis(0)
    );
}

#[test]
fn hexadecimal_text_tells_bytes_apart() {
    let all: Vec<u8> = (0..=255).collect();
    let text = hex_bytes(&all);
    assert_eq!(text.len(), 512);
    assert!(text.chars().all(|c| c.is_ascii_digit() || ('a'..='f').contains(&c)));
    assert!(text.starts_with("000102030405060708090a0b0c0d0e0f10"));
    assert_ne!(hex_bytes(&[0x0a, 0xb0]), hex_bytes(&[0xab, 0x00]));
}

#[test]
fn location_equality_is_symmetric() {
    for (a, b) in [("/a/b", "/a//b"), ("a", "/a"), (".", "")] {
        assert_eq!(path(a).same_path(&path(b)), path(b).same_path(&path(a)));
        assert!(path(a).same_path(&path(a)));
    }
}
