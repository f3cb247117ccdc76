use vfox_plugin::text::{
    chars_of, copy_opt, find_char, has_prefix, head_to, join2, same_text, tail_after, tail_from,
    text_lt,
};

#[test]
fn chars_are_copied_in_order() {
    assert_eq!(chars_of("aé#"), vec!['a', 'é', '#']);
    assert!(chars_of("").is_empty());
}

#[test]
fn find_char_counts_in_characters() {
    assert_eq!(find_char("é#x#", '#'), Some(1));
    assert_eq!(find_char("abc", '#'), None);
    assert_eq!(find_char("", '#'), None);
}

#[test]
fn prefix_and_equality() {
    assert!(has_prefix("vfox-bun", "vfox-"));
    assert!(has_prefix("vfox-", "vfox-"));
    assert!(has_prefix("x", ""));
    assert!(!has_prefix("vfo", "vfox-"));
    assert!(!has_prefix("afox-bun", "vfox-"));
    assert!(same_text("abc", "abc"));
    assert!(!same_text("abc", "abd"));
    assert!(!same_text("abc", "ab"));
}

#[test]
fn order_is_that_of_strings() {
    let words = ["", "a", "aa", "ab", "b", "B", "é", "z", "~"];
    for x in words {
        for y in words {
            assert_eq!(text_lt(x, y), x < y, "{:?} < {:?}", x, y);
        }
    }
}

#[test]
fn heads_and_tails() {
    assert_eq!(tail_from("héllo", 2), "llo");
    assert_eq!(tail_from("héllo", 5), "");
    assert_eq!(tail_after("héllo", 1), "llo");
    assert_eq!(head_to("héllo", 2), "hé");
    assert_eq!(head_to("héllo", 0), "");
    assert_eq!(join2("ab", "cd"), "abcd");
    assert_eq!(copy_opt(&Some("x".to_string())), Some("x".to_string()));
    assert_eq!(copy_opt(&None), None);
}
