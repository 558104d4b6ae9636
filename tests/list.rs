use lang_tour::list::List;
use lang_tour::list::push_decimal;

fn built_from(values: &[u32]) -> List {
    let mut list = List::new();
    for v in values {
        list = list.prepende(*v);
    }
    list
}

#[test]
fn new_list_has_length_zero() {
    assert_eq!(List::new().len(), 0);
}

#[test]
fn new_list_text_is_nil() {
    assert_eq!(List::new().stringify(), "Nil");
}

#[test]
fn length_counts_every_prepend() {
    for n in 0..60u32 {
        let values: Vec<u32> = (0..n).map(|i| i * 7 + 1).collect();
        assert_eq!(built_from(&values).len(), n);
    }
}

#[test]
fn length_counts_equal_values() {
    assert_eq!(built_from(&[5, 5, 5, 5]).len(), 4);
}

#[test]
fn traversal_reverses_prepend_order() {
    assert_eq!(built_from(&[1, 2, 3]).stringify(), "3, 2, 1, Nil");
}

#[test]
fn traversal_reverses_longer_list() {
    assert_eq!(built_from(&[10, 20, 30, 40, 50]).stringify(), "50, 40, 30, 20, 10, Nil");
}

#[test]
fn traversals_repeat_identically() {
    let list = built_from(&[7, 0, 42]);
    assert_eq!(list.len(), list.len());
    assert_eq!(list.stringify(), list.stringify());
    assert_eq!(list.len(), 3);
    assert_eq!(list.stringify(), "42, 0, 7, Nil");
}

#[test]
fn example_scenario_three_two_one() {
    let list = List::new().prepende(1).prepende(2).prepende(3);
    assert_eq!(list.len(), 3);
    assert_eq!(list.stringify(), "3, 2, 1, Nil");
}

#[test]
fn single_value_list() {
    let list = List::new().prepende(9);
    assert_eq!(list.len(), 1);
    assert_eq!(list.stringify(), "9, Nil");
}

#[test]
fn extreme_values_are_written_in_full() {
    let list = List::new().prepende(0).prepende(u32::MAX);
    assert_eq!(list.stringify(), "4294967295, 0, Nil");
}

#[test]
fn decimal_digits_are_appended() {
    let mut out = String::from("n=");
    push_decimal(&mut out, 1234567890);
    assert_eq!(out, "n=1234567890");
    let mut zero = String::new();
    push_decimal(&mut zero, 0);
    assert_eq!(zero, "0");
    let mut ten = String::new();
    push_decimal(&mut ten, 10);
    assert_eq!(ten, "10");
}
