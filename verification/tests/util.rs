use apca::util::comma_join;
use apca::util::comma_split;
use apca::util::text_eq;

fn strings(items: &[&str]) -> Vec<String> {
    items.iter().map(|s| s.to_string()).collect()
}

#[test]
fn join_of_nothing_is_the_empty_string() {
    assert_eq!(comma_join(&[]), "");
}

#[test]
fn join_of_one_is_that_one() {
    assert_eq!(comma_join(&strings(&["ABC"])), "ABC");
}

#[test]
fn join_puts_commas_between() {
    assert_eq!(comma_join(&strings(&["AAPL", "GOOG", "IBM"])), "AAPL,GOOG,IBM");
}

#[test]
fn join_keeps_empty_elements() {
    assert_eq!(comma_join(&strings(&["", ""])), ",");
    assert_eq!(comma_join(&strings(&["a", "", "b"])), "a,,b");
    assert_eq!(comma_join(&strings(&["a", ""])), "a,");
}

#[test]
fn split_of_the_empty_string_is_nothing() {
    assert_eq!(comma_split(""), Vec::<String>::new());
}

#[test]
fn split_without_comma_is_one_piece() {
    assert_eq!(comma_split("ABC"), strings(&["ABC"]));
}

#[test]
fn split_cuts_at_every_comma() {
    assert_eq!(comma_split("AAPL,GOOG,IBM"), strings(&["AAPL", "GOOG", "IBM"]));
    assert_eq!(comma_split(","), strings(&["", ""]));
    assert_eq!(comma_split("a,,b"), strings(&["a", "", "b"]));
    assert_eq!(comma_split("a,"), strings(&["a", ""]));
    assert_eq!(comma_split(",a"), strings(&["", "a"]));
}

#[test]
fn split_keeps_characters_beyond_ascii() {
    assert_eq!(comma_split("é,日本,x"), strings(&["é", "日本", "x"]));
    assert_eq!(comma_join(&strings(&["é", "日本", "x"])), "é,日本,x");
}

#[test]
fn split_undoes_join() {
    let cases: Vec<Vec<String>> = vec![
        strings(&[]),
        strings(&["ABC"]),
        strings(&["AAPL", "GOOG"]),
        strings(&["", ""]),
        strings(&["a", "", ""]),
        strings(&["", "b"]),
        strings(&["x y", "z/1", "ü"]),
    ];
    for case in cases {
        assert_eq!(comma_split(&comma_join(&case)), case);
    }
}

#[test]
fn join_undoes_split() {
    for text in ["", "a", ",", "a,b", ",,", "a,,b,", "AAPL,GOOG,IBM"] {
        assert_eq!(comma_join(&comma_split(text)), text);
    }
}

#[test]
fn a_single_empty_string_does_not_come_back() {
    let joined = comma_join(&strings(&[""]));
    assert_eq!(joined, "");
    assert_eq!(comma_split(&joined), Vec::<String>::new());
}

#[test]
fn a_comma_in_an_element_splits_it() {
    let joined = comma_join(&strings(&["a,b"]));
    assert_eq!(comma_split(&joined), strings(&["a", "b"]));
}

#[test]
fn text_eq_compares_letter_for_letter() {
    assert!(text_eq("", ""));
    assert!(text_eq("open", "open"));
    assert!(!text_eq("open", "Open"));
    assert!(!text_eq("open", "opens"));
    assert!(!text_eq("opens", "open"));
    assert!(!text_eq("abc", "abd"));
    assert!(text_eq("日本", "日本"));
    assert!(!text_eq("日本", "日木"));
}
