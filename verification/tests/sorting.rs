//! The sorter's five orders and the reverse flag, run against the real
//! natural-order comparison.

use riv::sort::{modification_key, SortOrder, Sorter};
use std::time::{SystemTime, UNIX_EPOCH};

#[test]
fn alphabetical_sort_ignores_a_leading_dot() {
    let mut paths: Vec<String> = vec![String::from(".b.png"), String::from("a.png")];
    let sorter = Sorter::new(SortOrder::Alphabetical, false);
    sorter.sort(&mut paths);
    assert_eq!(paths, vec![String::from("a.png"), String::from(".b.png")]);
}

#[test]
fn alphabetical_sort_is_natural_and_case_insensitive() {
    let mut paths: Vec<String> = vec![
        String::from("pic10.png"),
        String::from("Pic2.png"),
        String::from("pic1.png"),
    ];
    let sorter = Sorter::new(SortOrder::Alphabetical, false);
    sorter.sort(&mut paths);
    assert_eq!(
        paths,
        vec![
            String::from("pic1.png"),
            String::from("Pic2.png"),
            String::from("pic10.png"),
        ]
    );
}

#[test]
fn depth_first_puts_deeper_paths_first() {
    let mut paths: Vec<String> = vec![
        String::from("top.png"),
        String::from("a/b/deep.png"),
        String::from("a/mid.png"),
    ];
    let sorter = Sorter::new(SortOrder::DepthFirst, false);
    sorter.sort(&mut paths);
    assert_eq!(
        paths,
        vec![
            String::from("a/b/deep.png"),
            String::from("a/mid.png"),
            String::from("top.png"),
        ]
    );
}

#[test]
fn breadth_first_puts_shallower_paths_first() {
    let mut paths: Vec<String> = vec![
        String::from("a/b/deep.png"),
        String::from("top.png"),
        String::from("a/mid.png"),
    ];
    let sorter = Sorter::new(SortOrder::BreadthFirst, false);
    sorter.sort(&mut paths);
    assert_eq!(
        paths,
        vec![
            String::from("top.png"),
            String::from("a/mid.png"),
            String::from("a/b/deep.png"),
        ]
    );
}

#[test]
fn reverse_flag_reverses_the_sorted_order() {
    let mut paths: Vec<String> = vec![String::from("a.png"), String::from("b.png")];
    let sorter = Sorter::new(SortOrder::Alphabetical, true);
    sorter.sort(&mut paths);
    assert_eq!(paths, vec![String::from("b.png"), String::from("a.png")]);
}

#[test]
fn size_sort_of_missing_files_keeps_a_permutation() {
    let mut paths: Vec<String> = vec![
        String::from("/nowhere/one.png"),
        String::from("/nowhere/two.png"),
    ];
    let sorter = Sorter::new(SortOrder::Size, false);
    sorter.sort(&mut paths);
    assert_eq!(paths.len(), 2);
    assert!(paths.contains(&String::from("/nowhere/one.png")));
    assert!(paths.contains(&String::from("/nowhere/two.png")));
}

#[test]
fn date_sort_of_missing_files_keeps_a_permutation() {
    let mut paths: Vec<String> = vec![
        String::from("/nowhere/one.png"),
        String::from("/nowhere/two.png"),
    ];
    let sorter = Sorter::new(SortOrder::Date, false);
    sorter.sort(&mut paths);
    assert_eq!(paths.len(), 2);
    assert!(paths.contains(&String::from("/nowhere/one.png")));
    assert!(paths.contains(&String::from("/nowhere/two.png")));
}

#[test]
fn unreadable_files_date_as_the_present_moment() {
    // spec: a file whose metadata cannot be read sorts as newest.
    let before = SystemTime::now().duration_since(UNIX_EPOCH).unwrap().as_nanos();
    let key = modification_key("/nowhere/missing.png");
    let after = SystemTime::now().duration_since(UNIX_EPOCH).unwrap().as_nanos();
    assert!(before <= key && key <= after);
}

#[test]
fn sort_order_names_parse_in_both_spellings() {
    assert_eq!(SortOrder::from_str("Alphabetical"), Some(SortOrder::Alphabetical));
    assert_eq!(SortOrder::from_str("alphabetical"), Some(SortOrder::Alphabetical));
    assert_eq!(SortOrder::from_str("BreadthFirst"), Some(SortOrder::BreadthFirst));
    assert_eq!(SortOrder::from_str("date"), Some(SortOrder::Date));
    assert_eq!(SortOrder::from_str("DepthFirst"), Some(SortOrder::DepthFirst));
    assert_eq!(SortOrder::from_str("size"), Some(SortOrder::Size));
    assert_eq!(SortOrder::from_str("ALPHABETICAL"), Some(SortOrder::Alphabetical));
    assert_eq!(SortOrder::from_str("depthFIRST"), Some(SortOrder::DepthFirst));
    assert_eq!(SortOrder::from_str("Bogus"), None);
    assert_eq!(SortOrder::from_str(""), None);
}

#[test]
fn changing_the_order_does_not_itself_sort() {
    let mut sorter = Sorter::new(SortOrder::Alphabetical, false);
    let mut paths: Vec<String> = vec![String::from("b.png"), String::from("a.png")];
    sorter.set_order(SortOrder::DepthFirst);
    sorter.set_reverse(false);
    // Nothing was sorted by the setters alone.
    assert_eq!(paths, vec![String::from("b.png"), String::from("a.png")]);
    sorter.sort(&mut paths);
    assert_eq!(paths.len(), 2);
}
