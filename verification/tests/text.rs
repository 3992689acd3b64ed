use crab_trap::text::{
    chars_of, find, matches_at, push_chars, push_decimal, replace, trimmed_len, whitespace,
};

#[test]
fn chars_of_lists_the_characters() {
    assert_eq!(chars_of(""), Vec::<char>::new());
    assert_eq!(chars_of("aé🦀"), vec!['a', 'é', '🦀']);
}

#[test]
fn push_chars_appends_a_range() {
    let v = chars_of("hello");
    let mut out = String::from(">");
    push_chars(&mut out, &v, 1, 4);
    assert_eq!(out, ">ell");
    push_chars(&mut out, &v, 2, 2);
    assert_eq!(out, ">ell");
    push_chars(&mut out, &v, 0, 5);
    assert_eq!(out, ">ellhello");
}

#[test]
fn whitespace_agrees_with_std_on_every_character() {
    for u in 0..=0x10FFFFu32 {
        if let Some(c) = char::from_u32(u) {
            assert_eq!(whitespace(c), c.is_whitespace(), "U+{:04X}", u);
        }
    }
}

#[test]
fn trimmed_len_agrees_with_trim_end() {
    for s in ["", " ", "a", "a ", " a", "a \t\r\n", "\u{3000}", "a\u{a0}b\u{2003}\u{85}", "  x  y  ", "é \u{feff}"] {
        let v = chars_of(s);
        let n = trimmed_len(&v);
        let kept: String = v[..n].iter().collect();
        assert_eq!(kept, s.trim_end(), "text {:?}", s);
    }
}

#[test]
fn find_agrees_with_contains() {
    let texts = ["", "a", "ab", "aab", "abab", "hello world", "héllo", "aaa"];
    for hay in texts {
        for needle in texts {
            assert_eq!(
                find(&chars_of(hay), &chars_of(needle)),
                hay.contains(needle),
                "{:?} in {:?}",
                needle,
                hay
            );
        }
    }
}

#[test]
fn matches_at_checks_one_offset() {
    let hay = chars_of("abcabc");
    let needle = chars_of("bc");
    assert!(matches_at(&hay, &needle, 1));
    assert!(matches_at(&hay, &needle, 4));
    assert!(!matches_at(&hay, &needle, 0));
    assert!(!matches_at(&hay, &needle, 5));
    assert!(!matches_at(&hay, &needle, 6));
    assert!(!matches_at(&hay, &needle, 100));
    assert!(matches_at(&hay, &vec![], 6));
    assert!(!matches_at(&hay, &vec![], 7));
}

#[test]
fn push_decimal_agrees_with_std_on_every_value() {
    for n in 0..=u16::MAX {
        let mut out = String::from("#");
        push_decimal(&mut out, n);
        assert_eq!(out, format!("#{}", n));
    }
}

#[test]
fn decimal_edge_values() {
    for (n, text) in [(0u16, "0"), (9, "9"), (10, "10"), (99, "99"), (100, "100"), (4545, "4545"), (65535, "65535")] {
        let mut out = String::new();
        push_decimal(&mut out, n);
        assert_eq!(out, text);
    }
}

#[test]
fn replace_agrees_with_std() {
    let texts = ["", "a", "aa", "aaa", "abab", "~/x/~", "/home/op/loot", "ababa", "héllo"];
    let pats = ["", "a", "aa", "ab", "aba", "~", "/home/op", "é", "zz"];
    let withs = ["", "~", "xy", "a"];
    for s in texts {
        for pat in pats {
            for with in withs {
                assert_eq!(
                    replace(s, pat, with),
                    s.replace(pat, with),
                    "replace {:?} by {:?} in {:?}",
                    pat,
                    with,
                    s
                );
            }
        }
    }
}
