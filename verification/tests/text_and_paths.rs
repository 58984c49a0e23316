use kata_runtime::decimal::{decimal_str, parse_u64};
use kata_runtime::name_map::NameMap;
use kata_runtime::path::{get_parent_dir, join_path};
use kata_runtime::text::{
    concat2, concat3, contains_str, has_prefix, split_str, str_eq, strip_prefix_str,
    trim_str, words_of,
};

#[test]
fn splitting_agrees_with_std() {
    for text in ["", ",", "a", "a,b", ",a,,b,", "0000:00:05.0", "grüße,日本,"] {
        let expected: Vec<String> = text.split(',').map(String::from).collect();
        let parts = split_str(text, ',');
        assert_eq!(parts, expected);
        assert_eq!(parts.join(","), text);
    }
}

#[test]
fn trim_and_words_agree_with_std() {
    for text in ["", " ", "a", "  a b  ", "\tvcpu0\n", "\u{a0}x\u{3000}", "one  two\nthree\r\n", "\u{2028}q"] {
        assert_eq!(trim_str(text), text.trim());
        let expected: Vec<String> = text.split_whitespace().map(String::from).collect();
        assert_eq!(words_of(text), expected);
    }
}

#[test]
fn prefixes_and_substrings_agree_with_std() {
    let cases = [
        ("file:///a", "file://"),
        ("file:/", "file://"),
        ("", ""),
        ("abc", "abc"),
        ("abc", "abcd"),
        ("ünï", "ü"),
        ("dev:///tmp", "://"),
        ("a:/b", "://"),
    ];
    for (text, pattern) in cases {
        assert_eq!(has_prefix(text, pattern), text.starts_with(pattern));
        assert_eq!(strip_prefix_str(text, pattern), text.strip_prefix(pattern));
        assert_eq!(contains_str(text, pattern), text.contains(pattern));
        assert_eq!(str_eq(text, pattern), text == pattern);
    }
    assert_eq!(concat2("a", "b"), "ab");
    assert_eq!(concat3("a", "-", "b"), "a-b");
}

#[test]
fn numbers_print_and_parse_back() {
    for n in [0u64, 7, 10, 99, 1500, 4294967295, u64::MAX] {
        let text = decimal_str(n);
        assert_eq!(text, n.to_string());
        assert_eq!(parse_u64(&text, u64::MAX), Some(n));
    }
}

#[test]
fn numbers_parse_as_in_std() {
    for text in [
        "", "+", "-", "0", "+7", "-7", "007", "255", "256", "+255", "12x", "1 ", "18446744073709551615",
        "18446744073709551616", "++1", "٣",
    ] {
        assert_eq!(parse_u64(text, u8::MAX as u64), text.parse::<u8>().ok().map(u64::from), "{text}");
        assert_eq!(parse_u64(text, u32::MAX as u64), text.parse::<u32>().ok().map(u64::from), "{text}");
        assert_eq!(parse_u64(text, u64::MAX), text.parse::<u64>().ok(), "{text}");
    }
}

#[test]
fn paths_join_as_in_std() {
    let cases = [
        ("/a", "b"),
        ("/a/", "b"),
        ("", "b"),
        ("a", "/b"),
        ("a", ""),
        ("/", "x"),
        ("", ""),
        ("/run/kata-containers", "overlay"),
    ];
    for (base, rel) in cases {
        let expected = std::path::Path::new(base).join(rel);
        assert_eq!(join_path(base, rel), expected.to_str().unwrap(), "{base} {rel}");
    }
}

#[test]
fn parents_are_as_in_std() {
    for path in [
        "", "/", ".", "..", "a", "/a", "a/b", "/a/b", "a/", "/a/", "//a", "a//b", "a/./b", "./a", "./", "/.", "/./a",
        "a/.", "a/..", ".a/b", "/a/b/c.img", "a//", "./.", "/..", ".//a/.//b/.",
    ] {
        let expected = std::path::Path::new(path).parent().map(|p| p.to_str().unwrap());
        assert_eq!(get_parent_dir(path), expected, "{path:?}");
    }
}

#[test]
fn parent_of_a_file_below_a_directory_is_the_directory() {
    let file = join_path("/var/lib/templates", "disk.img");
    assert_eq!(get_parent_dir(&file), Some("/var/lib/templates"));
}

#[test]
fn names_keep_their_latest_value() {
    let mut map: NameMap<u32> = NameMap::new();
    assert!(map.get("a").is_none());
    map.insert(String::from("a"), 1);
    map.insert(String::from("b"), 2);
    map.insert(String::from("a"), 3);
    assert_eq!(map.get("a"), Some(&3));
    assert_eq!(map.get("b"), Some(&2));
    assert!(!map.contains("c"));
    *map.get_mut("b") = 5;
    assert_eq!(map.get("b"), Some(&5));
    assert_eq!(map.get("a"), Some(&3));
    let mut copy = map.clone();
    assert_eq!((copy.get("a"), copy.get("b"), copy.get("c")), (Some(&3), Some(&5), None));
    *copy.get_mut("a") = 9;
    assert_eq!(map.get("a"), Some(&3));
}
