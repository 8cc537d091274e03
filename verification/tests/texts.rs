//! Texts, paths and numbers, held against what the standard library makes of them.
use aynur::file_path::FilePath;
use aynur::memory::format_memory;
use aynur::number::{parse_number, split_words};
use aynur::order::{no_later, sort_by_name};
use aynur::text::{
    contains_char, decimal, integer, is_blank, is_white_space, join_texts, lines, pad, same_text,
    trim,
};
use aynur::text_map::TextMap;

struct Random(u64);

impl Random {
    fn next(&mut self) -> u64 {
        self.0 ^= self.0 << 13;
        self.0 ^= self.0 >> 7;
        self.0 ^= self.0 << 17;
        self.0
    }

    fn below(&mut self, n: usize) -> usize {
        (self.next() % n as u64) as usize
    }

    fn text(&mut self, alphabet: &[&str], longest: usize) -> String {
        let mut text = String::new();
        for _ in 0..self.below(longest + 1) {
            text.push_str(alphabet[self.below(alphabet.len())]);
        }
        text
    }
}

#[test]
fn white_space_is_what_unicode_says() {
    for n in 0..0x11_0000u32 {
        if let Some(c) = char::from_u32(n) {
            assert_eq!(is_white_space(c), c.is_whitespace(), "{n:#x}");
        }
    }
}

#[test]
fn texts_are_trimmed_and_split_like_strings() {
    let mut random = Random(7);
    for _ in 0..20_000 {
        let text = random.text(&["a", " ", "\t", "\n", "\r", "\r\n", "=", "é", "\u{3000}"], 9);
        assert_eq!(trim(&text), text.trim());
        assert_eq!(is_blank(&text), text.trim().is_empty());
        assert_eq!(lines(&text), text.lines().collect::<Vec<_>>());
        assert_eq!(split_words(&text), text.split_whitespace().collect::<Vec<_>>());
        assert_eq!(contains_char(&text, '='), text.contains('='));
    }
}

#[test]
fn texts_are_ordered_like_strings() {
    let mut random = Random(11);
    for _ in 0..20_000 {
        let a = random.text(&["a", "b", "é", "\u{10000}", "\u{ffff}", "Z"], 4);
        let b = random.text(&["a", "b", "é", "\u{10000}", "\u{ffff}", "Z"], 4);
        assert_eq!(no_later(&a, &b), a <= b);
        assert_eq!(same_text(&a, &b), a == b);
    }
}

#[test]
fn names_are_sorted() {
    let mut random = Random(13);
    for _ in 0..500 {
        let mut names = Vec::new();
        for _ in 0..random.below(12) {
            names.push(random.text(&["a", "b", "c", "é"], 3));
        }
        let mut expected = names.clone();
        expected.sort();
        assert_eq!(sort_by_name(names), expected);
    }
}

#[test]
fn numbers_are_written_and_padded() {
    for n in [0, 1, 9, 10, 99, 100, 65_535, u64::MAX] {
        assert_eq!(decimal(n), n.to_string());
    }
    for n in [0, -1, 7, i64::MIN, i64::MAX] {
        assert_eq!(integer(n), n.to_string());
    }
    for text in ["", "a", "name", "éé", "longer than it"] {
        assert_eq!(pad(text, 8), format!("{text:<8}"));
    }
    let parts = vec!["a".to_string(), "b".to_string(), String::new()];
    assert_eq!(join_texts(&parts, ", "), parts.join(", "));
    assert_eq!(join_texts(&Vec::new(), ", "), "");
}

#[test]
fn numbers_are_read_like_integers() {
    let mut random = Random(17);
    let mut texts = vec![
        u64::MAX.to_string(),
        "18446744073709551616".to_string(),
        "99999999999999999999x".to_string(),
        "+".to_string(),
        "-".to_string(),
        "+5".to_string(),
        "-5".to_string(),
        "００".to_string(),
        String::new(),
    ];
    for _ in 0..5_000 {
        texts.push(random.text(&["0", "1", "9", "+", "x"], 22));
    }
    for text in texts {
        match (parse_number(&text), text.parse::<u64>()) {
            (Ok(ours), Ok(theirs)) => assert_eq!(ours, theirs),
            (Err(ours), Err(theirs)) => assert_eq!(ours.message(), theirs.to_string(), "{text}"),
            (ours, theirs) => panic!("{text}: {ours:?} and {theirs:?}"),
        }
    }
}

fn shown(path: Option<FilePath>) -> Option<String> {
    path.map(|path| path.display())
}

#[test]
fn paths_are_taken_apart_like_paths() {
    let mut random = Random(19);
    let mut texts = vec!["/".to_string(), String::new(), "..".to_string(), ".json".to_string()];
    for _ in 0..20_000 {
        texts.push(random.text(&["/", ".", "..", "a", "b.json", "é"], 7));
    }
    for text in texts {
        let ours = FilePath::from_text(&text);
        let theirs = std::path::Path::new(&text);
        assert_eq!(ours.is_absolute(), theirs.is_absolute(), "{text}");
        assert_eq!(
            shown(ours.file_name()),
            theirs.file_name().map(|name| name.to_str().expect("utf-8").to_string()),
            "{text}"
        );
        assert_eq!(
            shown(ours.parent()),
            theirs.parent().map(|parent| parent.to_str().expect("utf-8").to_string()),
            "{text}"
        );
        assert_eq!(
            shown(ours.extension()),
            theirs.extension().map(|name| name.to_str().expect("utf-8").to_string()),
            "{text}"
        );
        assert_eq!(
            ours.with_file_name("x").display(),
            theirs.with_file_name("x").to_str().expect("utf-8"),
            "{text}"
        );
        assert_eq!(
            ours.ancestors().iter().map(|path| path.display()).collect::<Vec<_>>(),
            theirs.ancestors().map(|path| path.to_str().expect("utf-8")).collect::<Vec<_>>(),
            "{text}"
        );
        for name in ["x", "x/y", "/x", ""] {
            assert_eq!(
                ours.join_text(name).display(),
                theirs.join(name).to_str().expect("utf-8"),
                "{text} and {name}"
            );
        }
    }
}

#[test]
fn paths_need_not_be_text() {
    let path = FilePath::from_bytes(vec![b'/', 0xff, b'a']);
    assert_eq!(path.to_text(), None);
    assert_eq!(path.display(), "/\u{fffd}a");
    assert_eq!(path.as_bytes(), &vec![b'/', 0xff, b'a']);
    let path = FilePath::from_text("/é");
    assert_eq!(path.to_text(), Some("/é".to_string()));
    assert_eq!(path.display(), "/é");
}

#[test]
fn maps_keep_one_value_for_each_key_in_order() {
    let mut map = TextMap::new();
    map.insert("b".to_string(), 1);
    map.insert("a".to_string(), 2);
    map.insert("b".to_string(), 3);
    assert_eq!(map.get("b"), Some(&3));
    assert!(!map.contains_key("c"));
    assert_eq!(map.entries(), &vec![("a".to_string(), 2), ("b".to_string(), 3)]);
    assert_eq!(map.remove("a"), Some(2));
    assert_eq!(map.remove("a"), None);
    assert_eq!(map.entries(), &vec![("b".to_string(), 3)]);
}

#[test]
fn formats_memory_using_binary_units() {
    assert_eq!(format_memory(1024), "1 KiB");
    assert_eq!(format_memory(1536), "1.5 KiB");
    assert_eq!(format_memory(10 * 1024 + 512), "10 KiB");
    assert_eq!(format_memory(1024 * 1024), "1 MiB");
    assert_eq!(format_memory(1024 * 1024 * 1024), "1 GiB");
}

fn format_with_floats(bytes: u64) -> String {
    let (unit, suffix) = if bytes >= 1 << 30 {
        (1u64 << 30, "GiB")
    } else if bytes >= 1 << 20 {
        (1 << 20, "MiB")
    } else {
        (1 << 10, "KiB")
    };
    let value = bytes as f64 / unit as f64;
    if value >= 10.0 || value.fract() == 0.0 {
        format!("{value:.0} {suffix}")
    } else {
        format!("{value:.1} {suffix}")
    }
}

#[test]
fn memory_is_rounded_like_floating_point() {
    let mut amounts = vec![0, 1, 51, 52, 256, 768, 1023, u64::MAX, u64::MAX - 1023, u64::MAX - 1024];
    for shift in 0..64 {
        for near in [-1i64, 0, 1] {
            amounts.push((1u64 << shift).wrapping_add(near as u64));
        }
    }
    for bytes in 0..200_000 {
        amounts.push(bytes);
    }
    let mut random = Random(23);
    for _ in 0..200_000 {
        let shift = random.below(64) as u32;
        amounts.push(random.next() >> shift);
        amounts.push((random.next() >> shift) & !0xff);
    }
    for bytes in amounts {
        assert_eq!(format_memory(bytes), format_with_floats(bytes), "{bytes}");
    }
}
