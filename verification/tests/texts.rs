use cio::text::{
    chars_of, contains, join, decimal_text, find_char, is_space, matches_at, pad_with_zeros,
    remove_occurrences, same_text, slice_of, split, starts_with, string_of, strip_char_end,
    strip_char_start, strip_one_char_start, strip_prefix_repeated, to_lowercase, to_upper_ascii,
    trim,
};

fn cs(s: &str) -> Vec<char> {
    chars_of(s)
}

fn st(v: Vec<char>) -> String {
    string_of(&v)
}

#[test]
fn chars_and_back() {
    assert_eq!(cs("a\u{e9}\u{1F600}"), vec!['a', '\u{e9}', '\u{1F600}']);
    assert_eq!(st(cs("don\u{2019}t")), "don\u{2019}t");
    assert_eq!(cs(""), Vec::<char>::new());
}

#[test]
fn trimming_agrees_with_std() {
    for s in ["", " ", "  a  ", "\t\na b\r\n", "\u{a0}x\u{3000}", "\u{2003}\u{85}", "x", " x", "x ", "\u{200b}x"] {
        assert_eq!(st(trim(&cs(s))), s.trim(), "{:?}", s);
    }
}

#[test]
fn white_space_agrees_with_std() {
    let mut n: u32 = 0;
    while n < 0x3100 {
        if let Some(c) = char::from_u32(n) {
            assert_eq!(is_space(c), c.is_whitespace(), "{:x}", n);
        }
        n += 1;
    }
}

#[test]
fn removing_agrees_with_std() {
    for (s, p) in [("aZZbZZc", "ZZ"), ("ZZZ", "ZZ"), ("aaa", "a"), ("abc", ""), ("", "x"), ("ababa", "aba"), ("xay", "a")] {
        assert_eq!(st(remove_occurrences(&cs(s), &cs(p))), s.replace(p, ""), "{:?} {:?}", s, p);
    }
}

#[test]
fn stripping_agrees_with_std() {
    for (s, p) in [("ababc", "ab"), ("abc", "b"), ("", "a"), ("aaa", "aa"), ("abc", "abcd")] {
        assert_eq!(st(strip_prefix_repeated(&cs(s), &cs(p))), s.trim_start_matches(p));
    }
    assert_eq!(st(strip_prefix_repeated(&cs("abc"), &cs(""))), "abc");
    assert_eq!(st(strip_char_start(&cs("@@a@"), '@')), "a@");
    assert_eq!(st(strip_char_end(&cs("/a//"), '/')), "/a");
    assert_eq!(st(strip_char_end(&cs("///"), '/')), "");
    assert_eq!(st(strip_one_char_start(&cs("::a"), ':')), ":a");
    assert_eq!(st(strip_one_char_start(&cs("a:"), ':')), "a:");
    assert_eq!(st(strip_one_char_start(&cs(""), ':')), "");
}

#[test]
fn searching_agrees_with_std() {
    for (s, p) in [("hello", "ll"), ("hello", "lo"), ("hello", "he"), ("hello", ""), ("", ""), ("", "a"), ("ab", "abc"), ("aab", "ab")] {
        assert_eq!(contains(&cs(s), &cs(p)), s.contains(p), "{:?} {:?}", s, p);
        assert_eq!(starts_with(&cs(s), &cs(p)), s.starts_with(p), "{:?} {:?}", s, p);
    }
    assert!(matches_at(&cs("hello"), &cs("llo"), 2));
    assert!(!matches_at(&cs("hello"), &cs("llo"), 3));
    assert!(!matches_at(&cs("hello"), &cs("o"), 9));
    assert!(matches_at(&cs("hello"), &cs(""), 5));
    assert!(!matches_at(&cs("hello"), &cs(""), 6));
}

#[test]
fn splitting_agrees_with_std() {
    for (s, p) in [("a) [b) [c", ") ["), ("abc", ") ["), ("", ") ["), (") [", ") ["), ("a,b,,c,", ","), ("aaa", "aa")] {
        let got: Vec<String> = split(&cs(s), &cs(p)).into_iter().map(st).collect();
        let want: Vec<String> = s.split(p).map(|x| x.to_string()).collect();
        assert_eq!(got, want, "{:?} {:?}", s, p);
    }
}

#[test]
fn finding_a_character() {
    assert_eq!(find_char(&cs("a[b[c"), '['), 1);
    assert_eq!(find_char(&cs("abc"), '['), 3);
    assert_eq!(find_char(&cs(""), '['), 0);
}

#[test]
fn lowercase_and_uppercase() {
    assert_eq!(st(to_lowercase(&cs("HeLLo \u{c9}"))), "hello \u{e9}");
    assert_eq!(st(to_upper_ascii(&cs("gb-x\u{e9}z"))), "GB-X\u{e9}Z");
}

#[test]
fn pieces_and_joins() {
    assert_eq!(st(slice_of(&cs("hello"), 1, 3)), "el");
    assert_eq!(st(join(&cs("ab"), &cs("cd"))), "abcd");
    assert!(same_text(&cs("ab"), &cs("ab")));
    assert!(!same_text(&cs("ab"), &cs("ac")));
    assert!(!same_text(&cs("ab"), &cs("abc")));
}

#[test]
fn numbers_in_decimal() {
    for n in [0, 1, 9, 10, 42, 100, 1234, 99999, -1, -10, -305, i32::MAX, i32::MIN] {
        assert_eq!(st(decimal_text(n)), n.to_string());
    }
    assert_eq!(st(pad_with_zeros(cs("7"), 4)), "0007");
    assert_eq!(st(pad_with_zeros(cs("12345"), 4)), "12345");
    assert_eq!(st(pad_with_zeros(cs("-5"), 4)), "00-5");
    assert_eq!(st(pad_with_zeros(cs(""), 2)), "00");
}
