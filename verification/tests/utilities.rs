use rlox::chars::{is_alpha, is_alphanumeric, is_digit};
use rlox::utils::concat_contiguous_strs;

#[test]
fn digit_clusters() {
    assert!(is_digit("5"));
    assert!(is_digit("12"));
    assert!(!is_digit("a"));
    assert!(!is_digit("1a"));
}

#[test]
fn alpha_clusters() {
    assert!(is_alpha("a"));
    assert!(is_alpha("_"));
    assert!(is_alpha("Zz"));
    assert!(!is_alpha("1"));
    assert!(!is_alpha("a-"));
}

#[test]
fn alphanumeric_clusters() {
    assert!(is_alphanumeric("a1_"));
    assert!(!is_alphanumeric("a!"));
}

#[test]
fn concatenating_slices() {
    let parts = ["ab", "cd", "", "e"];
    assert_eq!(concat_contiguous_strs(&parts), "abcde");
    let none: [&str; 0] = [];
    assert_eq!(concat_contiguous_strs(&none), "");
}
