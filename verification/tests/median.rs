use chainscore::aggregator::{aggregate, median_of, quorum_reached};
use chainscore::request::Confirmation;

fn confirmations(values: &[u128]) -> Vec<Confirmation> {
    let id = vec![9u8; 32];
    let mut out = Vec::new();
    for (i, v) in values.iter().enumerate() {
        out.push(Confirmation::new(&id, format!("oracle-{}.near", i), *v));
    }
    out
}

#[test]
fn median_of_nothing_is_none() {
    assert_eq!(median_of(&vec![]), None);
}

#[test]
fn median_of_one_is_that_one() {
    assert_eq!(median_of(&vec![17]), Some(17));
}

#[test]
fn median_of_two_is_the_lower() {
    assert_eq!(median_of(&vec![50, 70]), Some(50));
    assert_eq!(median_of(&vec![70, 50]), Some(50));
}

#[test]
fn median_of_three_is_the_middle() {
    assert_eq!(median_of(&vec![9, 1, 5]), Some(5));
}

#[test]
fn median_of_four_is_the_lower_middle() {
    assert_eq!(median_of(&vec![40, 10, 30, 20]), Some(20));
}

#[test]
fn median_with_repeats() {
    assert_eq!(median_of(&vec![5, 5, 5, 5]), Some(5));
    assert_eq!(median_of(&vec![1, 5, 5, 9, 9]), Some(5));
    assert_eq!(median_of(&vec![3, 3, 8, 8]), Some(3));
}

#[test]
fn median_resists_one_outlier() {
    assert_eq!(median_of(&vec![100, 101, u128::MAX]), Some(101));
    assert_eq!(median_of(&vec![0, 100, 101]), Some(100));
}

#[test]
fn median_at_the_ends_of_the_range() {
    assert_eq!(median_of(&vec![u128::MAX, u128::MAX]), Some(u128::MAX));
    assert_eq!(median_of(&vec![0, u128::MAX]), Some(0));
}

#[test]
fn median_does_not_depend_on_order() {
    let sorted = vec![1u128, 2, 3, 4, 5, 6, 7];
    let shuffled = vec![6u128, 1, 7, 3, 5, 2, 4];
    assert_eq!(median_of(&sorted), Some(4));
    assert_eq!(median_of(&shuffled), Some(4));
}

#[test]
fn aggregate_takes_the_lower_median_of_the_reports() {
    assert_eq!(aggregate(&confirmations(&[50, 70])), Some(50));
    assert_eq!(aggregate(&confirmations(&[70, 50, 60])), Some(60));
    assert_eq!(aggregate(&confirmations(&[])), None);
}

#[test]
fn quorum_counts_confirmations() {
    assert!(quorum_reached(&confirmations(&[1, 2]), 2));
    assert!(quorum_reached(&confirmations(&[1, 2, 3]), 2));
    assert!(!quorum_reached(&confirmations(&[1]), 2));
    assert!(quorum_reached(&confirmations(&[]), 0));
}
