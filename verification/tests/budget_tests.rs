use weekly_report::budget::{allocate_budgets, char_allowance, truncate_chars};

#[test]
fn proportional_allocation_with_all_present() {
    let weights = vec![Some(4u64), Some(3), Some(2), Some(1)];
    let out = allocate_budgets(16000, &weights);
    assert_eq!(out, vec![6400, 4800, 3200, 1600]);
    let sum: u64 = out.iter().sum();
    assert!(sum <= 16000);
}

#[test]
fn absent_category_gets_zero_and_others_expand() {
    let out = allocate_budgets(16000, &vec![Some(4u64), None, Some(4)]);
    assert_eq!(out, vec![8000, 0, 8000]);
    // with fewer present categories, each present one gets more than it
    // would with all four present
    let all_present = allocate_budgets(16000, &vec![Some(4u64), Some(4), Some(4), Some(4)]);
    assert_eq!(all_present, vec![4000, 4000, 4000, 4000]);
    assert!(out[0] > all_present[0]);
}

#[test]
fn rounding_never_exceeds_total() {
    let out = allocate_budgets(100, &vec![Some(3u64), Some(3), Some(1)]);
    assert_eq!(out, vec![42, 42, 14]);
    let sum: u64 = out.iter().sum();
    assert!(sum <= 100);
}

#[test]
fn no_present_categories_allocates_nothing() {
    let out = allocate_budgets(16000, &vec![None, None]);
    assert_eq!(out, vec![0, 0]);
}

#[test]
fn zero_weight_category_gets_zero() {
    let out = allocate_budgets(100, &vec![Some(0u64), Some(10)]);
    assert_eq!(out, vec![0, 100]);
}

#[test]
fn huge_weights_do_not_overflow() {
    let out = allocate_budgets(100, &vec![Some(u64::MAX), Some(u64::MAX)]);
    assert_eq!(out, vec![50, 50]);
}

#[test]
fn char_allowance_is_three_per_unit() {
    assert_eq!(char_allowance(0), 0);
    assert_eq!(char_allowance(100), 300);
    assert_eq!(char_allowance(16000), 48000);
}

#[test]
fn truncate_chars_cuts_long_text_only() {
    assert_eq!(truncate_chars("hello", 3), "hel");
    assert_eq!(truncate_chars("hello", 10), "hello");
    assert_eq!(truncate_chars("", 4), "");
}
