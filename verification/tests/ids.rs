use lycan::addon::{Addon, AddonKind};
use lycan::ids::holds;

fn numberless(project: &str) -> Addon {
    Addon::new(String::from(project), AddonKind::GithubRelease)
}

#[test]
fn gap_in_the_numbers_is_filled() {
    let mut addon = numberless("owner/new");
    let ids = addon.set_id(vec![1, 3]);
    assert_eq!(addon.id, 2);
    assert_ne!(addon.id, 4);
    assert_eq!(ids, vec![1, 3, 2]);
}

#[test]
fn first_number_is_one() {
    let mut addon = numberless("owner/new");
    let ids = addon.set_id(Vec::new());
    assert_eq!(addon.id, 1);
    assert_eq!(ids, vec![1]);
}

#[test]
fn number_after_a_full_range_is_the_next() {
    let mut addon = numberless("owner/new");
    let ids = addon.set_id(vec![3, 1, 2]);
    assert_eq!(addon.id, 4);
    assert_eq!(ids, vec![3, 1, 2, 4]);
}

#[test]
fn numbers_that_are_no_ids_do_not_count() {
    let mut addon = numberless("owner/new");
    let ids = addon.set_id(vec![0, 2, 2, 7]);
    assert_eq!(addon.id, 1);
    assert_eq!(ids, vec![0, 2, 2, 7, 1]);
}

#[test]
fn addon_with_a_number_keeps_it() {
    let mut addon = numberless("owner/old");
    addon.id = 5;
    let ids = addon.set_id(vec![1, 5]);
    assert_eq!(addon.id, 5);
    assert_eq!(ids, vec![1, 5]);
}

#[test]
fn numbers_given_in_a_row_differ() {
    let mut first = numberless("owner/a");
    let mut second = numberless("owner/b");
    let mut third = numberless("owner/c");
    let ids = first.set_id(vec![2]);
    let ids = second.set_id(ids);
    let ids = third.set_id(ids);
    assert_eq!(first.id, 1);
    assert_eq!(second.id, 3);
    assert_eq!(third.id, 4);
    assert_eq!(ids, vec![2, 1, 3, 4]);
}

#[test]
fn holds_says_whether_a_number_is_taken() {
    assert!(holds(&vec![1, 3], 3));
    assert!(!holds(&vec![1, 3], 2));
    assert!(!holds(&Vec::new(), 1));
}
