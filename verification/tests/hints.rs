use vimium_linux::element::ClickableElement;
use vimium_linux::hints::{
    assign_hints, exact_match_for, filter_by_exact_prefix, filter_by_prefix, find_exact_match,
    find_unique_match, generate_hints, unique_match_for, HintedElement, DEFAULT_HINT_CHARS,
};

fn make_element(name: &str) -> ClickableElement {
    ClickableElement {
        name: name.to_string(),
        role: "button".to_string(),
        x: 0,
        y: 0,
        width: 10,
        height: 10,
    }
}

fn hinted(labels: &[&str]) -> Vec<HintedElement> {
    labels
        .iter()
        .map(|label| HintedElement { hint: label.to_string(), element: make_element(label) })
        .collect()
}

#[test]
fn test_generate_hints_single_char() {
    let hints = generate_hints(5, "asdfg");
    assert_eq!(hints, vec!["a", "s", "d", "f", "g"]);
}

#[test]
fn test_generate_hints_default_chars() {
    let hints = generate_hints(5, DEFAULT_HINT_CHARS);
    assert_eq!(hints, vec!["a", "s", "d", "f", "g"]);
}

#[test]
fn test_generate_hints_exceeds_single() {
    let hints = generate_hints(30, DEFAULT_HINT_CHARS);
    assert_eq!(hints.len(), 30);
    // Should start with single chars then move to doubles
    assert_eq!(hints[0], "a");
    assert_eq!(hints[25], "m");
    assert_eq!(hints[26], "aa");
}

#[test]
fn test_generate_hints_custom_chars() {
    let hints = generate_hints(5, "hjkl");
    assert_eq!(hints, vec!["h", "j", "k", "l", "hh"]);
}

#[test]
fn test_filter_by_prefix() {
    let elements = vec![make_element("btn1"), make_element("btn2"), make_element("btn3")];
    let hinted = assign_hints(&elements, "abc");

    let filtered = filter_by_prefix(&hinted, "a");
    assert_eq!(filtered.len(), 1);
    assert_eq!(filtered[0].hint, "a");

    let filtered = filter_by_prefix(&hinted, "");
    assert_eq!(filtered.len(), 3);
}

#[test]
fn test_find_exact_match() {
    let elements = vec![make_element("btn1"), make_element("btn2"), make_element("btn3")];
    let hinted = assign_hints(&elements, DEFAULT_HINT_CHARS);

    // Exact match
    assert!(find_exact_match(&hinted, "a").is_some());
    assert!(find_exact_match(&hinted, "s").is_some());

    // Partial match - no exact
    assert!(find_exact_match(&hinted, "").is_none());
}

#[test]
fn test_find_unique_match() {
    let elements = vec![make_element("btn1"), make_element("btn2")];
    let hinted = assign_hints(&elements, "ab");

    // "a" uniquely matches first element
    let m = find_unique_match(&hinted, "a");
    assert!(m.is_some());
    assert_eq!(m.unwrap().hint, "a");
}

#[test]
fn generate_hints_zero_count_or_empty_alphabet_gives_nothing() {
    assert!(generate_hints(0, "abc").is_empty());
    assert!(generate_hints(7, "").is_empty());
    assert!(generate_hints(0, "").is_empty());
}

#[test]
fn generate_hints_enumerates_pairs_then_triples_row_by_row() {
    let hints = generate_hints(14, "ab");
    assert_eq!(
        hints,
        vec![
            "a", "b", "aa", "ab", "ba", "bb", "aaa", "aab", "aba", "abb", "baa", "bab", "bba",
            "bbb"
        ]
    );
}

#[test]
fn generate_hints_stops_when_triples_run_out() {
    // 2 + 4 + 8 labels exist over two characters.
    assert_eq!(generate_hints(15, "ab").len(), 14);
    assert_eq!(generate_hints(1000, "ab").len(), 14);
    // 3 + 9 + 27 labels exist over three characters.
    let hints = generate_hints(usize::MAX, "xyz");
    assert_eq!(hints.len(), 39);
    assert_eq!(hints[38], "zzz");
    assert_eq!(hints[12], "xxx");
    assert_eq!(hints[11], "zz");
}

#[test]
fn generate_hints_single_character_alphabet() {
    assert_eq!(generate_hints(5, "q"), vec!["q", "qq", "qqq"]);
}

#[test]
fn generate_hints_labels_are_distinct_over_distinct_characters() {
    let hints = generate_hints(26 + 26 * 26 + 40, DEFAULT_HINT_CHARS);
    assert_eq!(hints.len(), 26 + 26 * 26 + 40);
    let mut sorted = hints.clone();
    sorted.sort();
    sorted.dedup();
    assert_eq!(sorted.len(), hints.len());
    assert_eq!(hints[26 + 26 * 26 - 1], "mm");
    assert_eq!(hints[26 + 26 * 26], "aaa");
    assert_eq!(hints[26 + 26 * 26 + 27], "ass");
}

#[test]
fn generate_hints_takes_characters_not_bytes() {
    assert_eq!(generate_hints(3, "äö"), vec!["ä", "ö", "ää"]);
}

#[test]
fn assign_hints_pairs_elements_and_labels_in_order() {
    let elements = vec![make_element("one"), make_element("two"), make_element("three")];
    let hinted = assign_hints(&elements, DEFAULT_HINT_CHARS);
    assert_eq!(hinted.len(), 3);
    assert_eq!(hinted[0].hint, "a");
    assert_eq!(hinted[1].hint, "s");
    assert_eq!(hinted[2].hint, "d");
    assert_eq!(hinted[0].element.name, "one");
    assert_eq!(hinted[1].element.name, "two");
    assert_eq!(hinted[2].element.name, "three");
    assert_eq!(hinted[2].element.width, 10);
}

#[test]
fn assign_hints_without_characters_gives_nothing() {
    let elements = vec![make_element("one"), make_element("two"), make_element("three")];
    assert!(assign_hints(&elements, "").is_empty());
    assert!(assign_hints(&[], "").is_empty());
    assert!(assign_hints(&[], "abc").is_empty());
}

#[test]
fn assign_hints_drops_elements_without_a_label() {
    let elements: Vec<ClickableElement> =
        (0..5).map(|i| make_element(&format!("e{}", i))).collect();
    let hinted = assign_hints(&elements, "z");
    assert_eq!(hinted.len(), 3);
    assert_eq!(hinted[2].hint, "zzz");
    assert_eq!(hinted[2].element.name, "e2");
    assert!(assign_hints(&[], "abc").is_empty());
}

#[test]
fn click_position_is_the_centre_of_the_box() {
    let mut element = make_element("e");
    element.x = 100;
    element.y = 40;
    element.width = 31;
    element.height = 9;
    assert_eq!(element.center(), (115, 44));
    let hinted = HintedElement { hint: "a".to_string(), element };
    assert_eq!(hinted.click_position(), (115, 44));
}

#[test]
fn filter_by_prefix_keeps_order_and_everything_for_the_empty_prefix() {
    let elements = hinted(&["a", "b", "aa", "ab", "ba"]);
    let all = filter_by_prefix(&elements, "");
    let labels: Vec<&str> = all.iter().map(|e| e.hint.as_str()).collect();
    assert_eq!(labels, vec!["a", "b", "aa", "ab", "ba"]);
    let some = filter_by_prefix(&elements, "a");
    let labels: Vec<&str> = some.iter().map(|e| e.hint.as_str()).collect();
    assert_eq!(labels, vec!["a", "aa", "ab"]);
    assert!(filter_by_prefix(&elements, "c").is_empty());
    assert!(filter_by_prefix(&elements, "aaa").is_empty());
}

#[test]
fn filter_by_prefix_lowers_the_prefix_and_the_exact_form_does_not() {
    let elements = hinted(&["a", "b", "ab"]);
    assert_eq!(filter_by_prefix(&elements, "A").len(), 2);
    assert_eq!(filter_by_prefix(&elements, "AB").len(), 1);
    assert_eq!(filter_by_exact_prefix(&elements, "A").len(), 0);
    assert_eq!(filter_by_exact_prefix(&elements, "a").len(), 2);
    assert_eq!(filter_by_exact_prefix(&elements, "").len(), 3);
}

#[test]
fn exact_match_needs_one_candidate_whose_label_is_complete() {
    let elements = hinted(&["a", "b", "aa", "cd"]);
    // "a" is a label, but "aa" starts with it too.
    assert!(find_exact_match(&elements, "a").is_none());
    assert_eq!(find_exact_match(&elements, "aa").unwrap().hint, "aa");
    assert_eq!(find_exact_match(&elements, "b").unwrap().hint, "b");
    assert_eq!(find_exact_match(&elements, "B").unwrap().hint, "b");
    // One candidate, but the label is longer than what was typed.
    assert!(find_exact_match(&elements, "c").is_none());
    assert!(find_exact_match(&elements, "x").is_none());
    assert!(exact_match_for(&elements, "B").is_none());
    assert_eq!(exact_match_for(&elements, "cd").unwrap().hint, "cd");
}

#[test]
fn unique_match_needs_one_candidate_only() {
    let elements = hinted(&["a", "b", "aa", "cd"]);
    assert!(find_unique_match(&elements, "a").is_none());
    assert_eq!(find_unique_match(&elements, "c").unwrap().hint, "cd");
    assert_eq!(find_unique_match(&elements, "C").unwrap().hint, "cd");
    assert_eq!(find_unique_match(&elements, "aa").unwrap().hint, "aa");
    assert!(find_unique_match(&elements, "").is_none());
    assert!(find_unique_match(&elements, "x").is_none());
    assert!(unique_match_for(&elements, "C").is_none());
    assert_eq!(unique_match_for(&elements, "b").unwrap().hint, "b");
    let single = hinted(&["q"]);
    assert_eq!(find_unique_match(&single, "").unwrap().hint, "q");
    assert!(find_exact_match(&single, "").is_none());
}

#[test]
fn three_elements_hinted_with_abc() {
    let elements = vec![make_element("btn1"), make_element("btn2"), make_element("btn3")];
    let hinted = assign_hints(&elements, "abc");
    let filtered = filter_by_prefix(&hinted, "a");
    assert_eq!(filtered.len(), 1);
    assert_eq!(filtered[0].hint, "a");
    assert!(find_exact_match(&hinted, "").is_none());
    assert!(find_unique_match(&hinted, "a").is_some());
}
