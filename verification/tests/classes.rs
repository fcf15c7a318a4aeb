use navkit::classes::class_union;
use navkit::classes::nav_link_classes;

fn names(v: &[&str]) -> Vec<String> {
    v.iter().map(|s| s.to_string()).collect()
}

#[test]
fn union_of_overlapping_sets_has_no_duplicates() {
    let base = names(&["nav", "item"]);
    let active = names(&["item", "active"]);
    let inactive = names(&["item", "muted"]);
    let when_active = nav_link_classes(&base, &inactive, &active, true);
    assert_eq!(when_active, names(&["nav", "item", "active"]));
    let when_inactive = nav_link_classes(&base, &inactive, &active, false);
    assert_eq!(when_inactive, names(&["nav", "item", "muted"]));
}

#[test]
fn union_keeps_first_occurrence_order() {
    let first = names(&["c", "a", "b"]);
    let second = names(&["b", "d", "a", "e"]);
    assert_eq!(class_union(&first, &second), names(&["c", "a", "b", "d", "e"]));
}

#[test]
fn union_of_empty_sets_is_empty() {
    let empty = names(&[]);
    assert_eq!(class_union(&empty, &empty), names(&[]));
    assert_eq!(nav_link_classes(&empty, &empty, &empty, true), names(&[]));
    assert_eq!(nav_link_classes(&empty, &empty, &empty, false), names(&[]));
}

#[test]
fn repeats_inside_one_set_are_dropped() {
    let first = names(&["a", "a", "b"]);
    let second = names(&["b", "b"]);
    assert_eq!(class_union(&first, &second), names(&["a", "b"]));
}

#[test]
fn inactive_and_active_sets_are_chosen_by_the_predicate() {
    let base = names(&["link"]);
    let inactive = names(&["plain"]);
    let active = names(&["highlight"]);
    assert_eq!(nav_link_classes(&base, &inactive, &active, false), names(&["link", "plain"]));
    assert_eq!(nav_link_classes(&base, &inactive, &active, true), names(&["link", "highlight"]));
}
