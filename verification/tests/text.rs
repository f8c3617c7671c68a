use rephraser::text::{
    chars_of, concat_str, contains, digit, join, matches_at, push_all, push_decimal, push_str,
    replace, same_text, slice, str_eq, string_of,
};
use rephraser::text_map::TextMap;

fn chars(text: &str) -> Vec<char> {
    text.chars().collect()
}

fn replaced(text: &str, pattern: &str, with: &str) -> String {
    string_of(&replace(&chars(text), &chars(pattern), &chars(with)))
}

#[test]
fn strings_and_characters_convert_both_ways() {
    assert_eq!(chars_of("aé日"), vec!['a', 'é', '日']);
    assert_eq!(chars_of(""), Vec::<char>::new());
    assert_eq!(string_of(&vec!['a', 'é', '日']), "aé日");
    assert_eq!(string_of(&Vec::new()), "");
    assert_eq!(concat_str("ab", "cd"), "abcd");
    assert_eq!(concat_str("", ""), "");
}

#[test]
fn replacement_is_leftmost_and_does_not_overlap() {
    assert_eq!(replaced("aaaa", "aa", "b"), "bb");
    assert_eq!(replaced("aaa", "aa", "b"), "ba");
    assert_eq!(replaced("abcabc", "bc", "X"), "aXaX");
    assert_eq!(replaced("abc", "abcd", "X"), "abc");
    assert_eq!(replaced("abc", "abc", ""), "");
    assert_eq!(replaced("", "a", "b"), "");
}

#[test]
fn replacement_does_not_search_what_it_put_in() {
    assert_eq!(replaced("aXa", "X", "XX"), "aXXa");
    assert_eq!(replaced("ab", "a", "ba"), "bab");
}

#[test]
fn replacement_agrees_with_the_standard_library() {
    let cases = [
        ("Process this: {text}", "{text}", "Hello"),
        ("{a}{a}{a}", "{a}", "{a}{a}"),
        ("xxxxx", "xx", "x"),
        ("日本語の日本", "日本", "にほん"),
        ("nothing here", "{text}", "Hello"),
    ];
    for (text, pattern, with) in cases {
        assert_eq!(replaced(text, pattern, with), text.replace(pattern, with));
    }
}

#[test]
fn empty_pattern_replaces_nothing() {
    assert_eq!(replaced("abc", "", "X"), "abc");
}

#[test]
fn search_finds_a_pattern_anywhere() {
    assert!(contains(&chars("custom action"), &chars("custom")));
    assert!(contains(&chars("an action"), &chars("action")));
    assert!(contains(&chars("abc"), &chars("b")));
    assert!(contains(&chars("abc"), &chars("")));
    assert!(contains(&chars(""), &chars("")));
    assert!(!contains(&chars("abc"), &chars("abcd")));
    assert!(!contains(&chars("abc"), &chars("ca")));
    assert!(!contains(&chars(""), &chars("a")));
}

#[test]
fn match_at_an_offset() {
    let text = chars("hello");
    assert!(matches_at(&text, &chars("ell"), 1));
    assert!(!matches_at(&text, &chars("ell"), 0));
    assert!(matches_at(&text, &chars(""), 5));
    assert!(!matches_at(&text, &chars(""), 6));
    assert!(!matches_at(&text, &chars("lo!"), 3));
    assert!(!matches_at(&text, &chars("o"), usize::MAX));
}

#[test]
fn equality_of_texts() {
    assert!(same_text(&chars("abc"), &chars("abc")));
    assert!(!same_text(&chars("abc"), &chars("abd")));
    assert!(!same_text(&chars("abc"), &chars("ab")));
    assert!(str_eq("", ""));
    assert!(str_eq("mock", "mock"));
    assert!(!str_eq("mock", "Mock"));
}

#[test]
fn joining_and_slicing() {
    assert_eq!(string_of(&join(&vec![chars("a"), chars("b"), chars("c")], ", ")), "a, b, c");
    assert_eq!(string_of(&join(&vec![chars("only")], ", ")), "only");
    assert_eq!(string_of(&join(&Vec::new(), ", ")), "");
    assert_eq!(string_of(&join(&vec![chars(""), chars("")], "-")), "-");
    assert_eq!(slice(&chars("hello"), 1, 4), chars("ell"));
    assert_eq!(slice(&chars("hello"), 2, 2), Vec::<char>::new());
    assert_eq!(slice(&chars("hello"), 0, 5), chars("hello"));
}

#[test]
fn appending() {
    let mut out = chars("ab");
    push_all(&mut out, &chars("cd"));
    push_str(&mut out, "ef");
    push_decimal(&mut out, 0);
    push_decimal(&mut out, 7);
    push_decimal(&mut out, 10);
    push_decimal(&mut out, 90210);
    assert_eq!(string_of(&out), "abcdef071090210");
    let mut out = Vec::new();
    push_decimal(&mut out, usize::MAX);
    assert_eq!(string_of(&out), usize::MAX.to_string());
    assert_eq!(
        (0..10).map(digit).collect::<String>(),
        "0123456789"
    );
}

#[test]
fn map_keeps_insertion_order_and_one_entry_per_key() {
    let mut map = TextMap::new();
    assert_eq!(map.len(), 0);
    map.insert("b", "1");
    map.insert("a", "2");
    map.insert("b", "3");
    assert_eq!(map.len(), 2);
    assert_eq!(string_of(map.key_at(0)), "b");
    assert_eq!(string_of(map.value_at(0)), "3");
    assert_eq!(string_of(map.key_at(1)), "a");
    assert_eq!(string_of(map.value_at(1)), "2");
    assert_eq!(map.position(&chars("a")), Some(1));
    assert_eq!(map.position(&chars("b")), Some(0));
    assert_eq!(map.position(&chars("c")), None);
}
