use wtt::model::WorktreeStatus;
use wtt::text::{
    chars_of, contains_chars, count_string, decimal_string, hex_string, insert_char, join_strings,
    remove_char, str_contains, str_equal, str_less, string_of, take_chars,
};

#[test]
fn decimal_of_zero_and_of_the_largest_and_smallest_numbers() {
    assert_eq!(decimal_string(0), "0");
    assert_eq!(decimal_string(7), "7");
    assert_eq!(decimal_string(10), "10");
    assert_eq!(decimal_string(-45), "-45");
    assert_eq!(decimal_string(i64::MAX), "9223372036854775807");
    assert_eq!(decimal_string(i64::MIN), "-9223372036854775808");
    assert_eq!(count_string(1234567890), "1234567890");
}

#[test]
fn hexadecimal_is_lower_case_without_leading_zeros() {
    assert_eq!(hex_string(0), "0");
    assert_eq!(hex_string(15), "f");
    assert_eq!(hex_string(16), "10");
    assert_eq!(hex_string(0xdead_beef), "deadbeef");
    assert_eq!(hex_string(u64::MAX), "ffffffffffffffff");
    assert_eq!(hex_string(255), format!("{:x}", 255u64));
}

#[test]
fn characters_survive_the_way_to_a_vector_and_back() {
    let text = "päth/to/w\u{00f6}rktree \u{2191}";
    let chars = chars_of(text);
    assert_eq!(chars.len(), text.chars().count());
    assert_eq!(string_of(&chars), text);
}

#[test]
fn take_chars_counts_characters_not_bytes() {
    assert_eq!(take_chars("0123456789abcdef", 7), "0123456");
    assert_eq!(take_chars("abc", 7), "abc");
    assert_eq!(take_chars("", 7), "");
    assert_eq!(take_chars("äöüäöüäöü", 7), "äöüäöüä");
}

#[test]
fn alphabetical_order_is_that_of_the_standard_library() {
    let words = ["", "a", "ab", "abc", "b", "B", "main", "(bare)", "(detached)", "zebra", "äh"];
    for a in words {
        for b in words {
            assert_eq!(str_less(a, b), a < b, "{:?} against {:?}", a, b);
        }
    }
}

#[test]
fn substring_search_finds_what_the_standard_library_finds() {
    let hays = ["", "a", "bugfix-y", "feature-x", "aaab", "xyzxyzxy"];
    let needles = ["", "a", "fix", "x", "aab", "zxy", "xyzxyzxyz", "y-"];
    for hay in hays {
        for needle in needles {
            assert_eq!(str_contains(hay, needle), hay.contains(needle), "{:?} in {:?}", needle, hay);
        }
    }
    assert!(contains_chars(&chars_of("bugfix-y"), &chars_of("fix")));
    assert!(!contains_chars(&chars_of("main"), &chars_of("fix")));
}

#[test]
fn texts_are_equal_when_their_characters_are() {
    assert!(str_equal("main", "main"));
    assert!(!str_equal("main", "Main"));
    assert!(!str_equal("main", "main "));
    assert!(str_equal("", ""));
}

#[test]
fn insert_and_remove_work_on_character_positions() {
    assert_eq!(insert_char("abc", 0, 'x'), "xabc");
    assert_eq!(insert_char("abc", 2, 'x'), "abxc");
    assert_eq!(insert_char("abc", 3, 'x'), "abcx");
    assert_eq!(insert_char("abc", 99, 'x'), "abcx");
    assert_eq!(insert_char("äb", 1, 'ö'), "äöb");
    assert_eq!(remove_char("abc", 0), "bc");
    assert_eq!(remove_char("abc", 2), "ab");
    assert_eq!(remove_char("abc", 3), "abc");
    assert_eq!(remove_char("äöü", 1), "äü");
}

#[test]
fn join_puts_the_separator_between_neighbours_only() {
    let none: Vec<String> = Vec::new();
    assert_eq!(join_strings(&none, " "), "");
    assert_eq!(join_strings(&vec![String::from("a")], " "), "a");
    assert_eq!(join_strings(&vec![String::from("a"), String::from("b"), String::from("c")], ", "), "a, b, c");
}

fn status(modified: usize, staged: usize, untracked: usize, ahead: usize, behind: usize) -> WorktreeStatus {
    WorktreeStatus { modified, staged, untracked, ahead, behind }
}

#[test]
fn summary_of_a_clean_worktree() {
    assert_eq!(status(0, 0, 0, 0, 0).summary(), "clean");
    assert_eq!(WorktreeStatus::default().summary(), "clean");
    assert!(WorktreeStatus::default().is_clean());
}

#[test]
fn summary_lists_the_counters_that_are_not_zero() {
    assert_eq!(status(2, 3, 1, 0, 0).summary(), "+3 ~2 ?1");
    assert_eq!(status(0, 0, 5, 0, 0).summary(), "?5");
    assert_eq!(status(12, 0, 0, 1, 2).summary(), "~12 \u{2191}1 \u{2193}2");
    assert_eq!(status(1, 1, 1, 1, 1).summary(), "+1 ~1 ?1 \u{2191}1 \u{2193}1");
}

#[test]
fn a_worktree_ahead_or_behind_is_not_clean() {
    let s = status(0, 0, 0, 1, 0);
    assert!(!s.is_clean());
    assert!(!s.has_local_changes());
    assert_eq!(s.summary(), "\u{2191}1");
    let t = status(0, 0, 0, 0, 9);
    assert!(!t.is_clean());
    assert!(!t.has_local_changes());
    assert_eq!(t.summary(), "\u{2193}9");
}

#[test]
fn clean_means_that_all_five_counters_are_zero() {
    assert!(status(0, 0, 0, 0, 0).is_clean());
    assert!(!status(0, 0, 0, 0, 0).has_local_changes());
    for i in 0..5 {
        let mut counters = [0usize; 5];
        counters[i] = 1;
        let s = status(counters[0], counters[1], counters[2], counters[3], counters[4]);
        assert!(!s.is_clean(), "{:?}", s);
        assert_eq!(s.has_local_changes(), i < 3, "{:?}", s);
        assert_ne!(s.summary(), "clean");
    }
}
