use k8s_netinspect::text::{
    join, join3, contains, contains_chars, decimal, same_text, split_chars, to_chars,
};

#[test]
fn characters_come_out_in_order() {
    assert_eq!(to_chars(""), Vec::<char>::new());
    assert_eq!(to_chars("a\u{e9}\u{1f527}z"), vec!['a', '\u{e9}', '\u{1f527}', 'z']);
}

#[test]
fn texts_are_joined() {
    assert_eq!(join("ab", "cd"), "abcd");
    assert_eq!(join("", ""), "");
    assert_eq!(join3("http://", "10.0.0.1", ":80"), "http://10.0.0.1:80");
}

#[test]
fn texts_are_compared() {
    assert!(same_text("list", "list"));
    assert!(!same_text("list", "List"));
    assert!(!same_text("list", "lists"));
    assert!(same_text("", ""));
}

#[test]
fn substrings_are_found_as_by_the_standard_library() {
    let texts = ["", "a", "ab", "aab", "abab", "calico", "projectcalico.org/ip", "xcalic", "cal", "caf\u{e9}"];
    let patterns = ["", "a", "b", "ab", "ba", "aab", "calico", "\u{e9}", "f\u{e9}", "abc"];
    for text in texts {
        for pattern in patterns {
            assert_eq!(contains(text, pattern), text.contains(pattern), "{:?} in {:?}", pattern, text);
            assert_eq!(
                contains_chars(&to_chars(text), &to_chars(pattern)),
                text.contains(pattern)
            );
        }
    }
}

#[test]
fn texts_are_split_as_by_the_standard_library() {
    for text in ["", ".", "a", "a.b", ".a", "a.", "a..b", "1.2.3.4", "...", "a:b.c"] {
        let expected: Vec<Vec<char>> = text.split('.').map(|part| part.chars().collect()).collect();
        assert_eq!(split_chars(&to_chars(text), '.'), expected, "{:?}", text);
    }
    assert_eq!(
        split_chars(&to_chars("1:2::3"), ':'),
        vec![vec!['1'], vec!['2'], vec![], vec!['3']]
    );
}

#[test]
fn numbers_are_rendered_in_decimal() {
    for n in [0u64, 1, 9, 10, 11, 99, 100, 101, 404, 999, 1000, 65535, 1234567890, u64::MAX] {
        assert_eq!(decimal(n), n.to_string());
    }
}
