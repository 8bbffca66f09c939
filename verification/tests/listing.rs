use disktree_ui::listing::{listing, order_positions, ListEntry};
use disktree_ui::model::{Metric, SortKey};

fn entry(id: u32, allocated: u64, logical: u64, files: u64, name: &str) -> ListEntry {
    ListEntry::new(id, allocated, logical, files, name)
}

fn sample() -> Vec<ListEntry> {
    vec![
        entry(7, 100, 10, 3, "beta"),
        entry(3, 300, 5, 1, "Alpha"),
        entry(5, 100, 50, 9, "gamma"),
        entry(9, 200, 20, 9, "alpha"),
    ]
}

#[test]
fn entry_sorts_by_lowercase_name() {
    let e = entry(1, 0, 0, 0, "ReadMe.TXT");
    let expected: Vec<char> = "readme.txt".chars().collect();
    assert_eq!(e.key, expected);
    assert_eq!(e.id, 1);
}

#[test]
fn size_descending_breaks_ties_by_id() {
    let es = sample();
    assert_eq!(listing(&es, SortKey::Size, Metric::Allocated, true), vec![3, 9, 5, 7]);
}

#[test]
fn size_ascending_is_the_reverse() {
    let es = sample();
    assert_eq!(listing(&es, SortKey::Size, Metric::Allocated, false), vec![7, 5, 9, 3]);
}

#[test]
fn logical_metric_changes_the_order() {
    let es = sample();
    assert_eq!(listing(&es, SortKey::Size, Metric::Logical, true), vec![5, 9, 7, 3]);
}

#[test]
fn files_descending_breaks_ties_by_id() {
    let es = sample();
    assert_eq!(listing(&es, SortKey::Files, Metric::Allocated, true), vec![5, 9, 7, 3]);
    assert_eq!(listing(&es, SortKey::Files, Metric::Allocated, false), vec![3, 7, 9, 5]);
}

#[test]
fn names_ascending_ignore_case_and_keep_order_of_equal_names() {
    let es = sample();
    // "Alpha" and "alpha" compare equal; they keep the order they came in.
    assert_eq!(listing(&es, SortKey::Name, Metric::Allocated, false), vec![3, 9, 7, 5]);
}

#[test]
fn names_descending_is_the_reverse() {
    let es = sample();
    assert_eq!(listing(&es, SortKey::Name, Metric::Allocated, true), vec![5, 7, 9, 3]);
}

#[test]
fn shorter_name_sorts_first() {
    let es = vec![entry(1, 0, 0, 0, "abc"), entry(2, 0, 0, 0, "ab"), entry(3, 0, 0, 0, "b")];
    assert_eq!(listing(&es, SortKey::Name, Metric::Allocated, false), vec![2, 1, 3]);
}

#[test]
fn switching_direction_reverses_every_listing() {
    let es = sample();
    for key in [SortKey::Size, SortKey::Name, SortKey::Files] {
        for metric in [Metric::Allocated, Metric::Logical] {
            let mut down = listing(&es, key, metric, true);
            let up = listing(&es, key, metric, false);
            down.reverse();
            assert_eq!(down, up);
        }
    }
}

#[test]
fn listing_holds_every_child_once() {
    let es = sample();
    let mut p = order_positions(&es, SortKey::Name, Metric::Logical, true);
    p.sort();
    assert_eq!(p, vec![0, 1, 2, 3]);
}

#[test]
fn empty_folder_lists_nothing() {
    let es: Vec<ListEntry> = Vec::new();
    assert!(listing(&es, SortKey::Size, Metric::Allocated, true).is_empty());
}

#[test]
fn large_folder_is_sorted() {
    let es: Vec<ListEntry> = (0..2000u32)
        .map(|i| entry(i, ((i * 7919) % 1000) as u64, 0, 0, "x"))
        .collect();
    let ids = listing(&es, SortKey::Size, Metric::Allocated, true);
    assert_eq!(ids.len(), 2000);
    for w in ids.windows(2) {
        let (a, b) = (&es[w[0] as usize], &es[w[1] as usize]);
        assert!(a.allocated > b.allocated || (a.allocated == b.allocated && a.id < b.id));
    }
}

