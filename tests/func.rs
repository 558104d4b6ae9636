use lang_tour::func::any;
use lang_tour::func::apply;
use lang_tour::func::apply_to_3;
use lang_tour::func::call_me;
use lang_tour::func::find;
use lang_tour::func::fizzbuzz;
use lang_tour::func::fizzbuzz_to;
use lang_tour::func::func;
use lang_tour::func::is_divisible_by;
use lang_tour::func::is_odd;
use lang_tour::func::position;
use lang_tour::func::run9;
use lang_tour::func::sum_odd_numbers;
use lang_tour::func::sum_of_squared_odd_numbers;
use lang_tour::func::FizzBuzz;
use std::cell::Cell;

#[test]
fn divisibility() {
    assert!(is_divisible_by(15, 5));
    assert!(is_divisible_by(0, 3));
    assert!(!is_divisible_by(7, 2));
    assert!(!is_divisible_by(10, 0));
}

#[test]
fn fizzbuzz_words() {
    assert_eq!(fizzbuzz(15), FizzBuzz::FizzBuzz);
    assert_eq!(fizzbuzz(30), FizzBuzz::FizzBuzz);
    assert_eq!(fizzbuzz(9), FizzBuzz::Fizz);
    assert_eq!(fizzbuzz(10), FizzBuzz::Buzz);
    assert_eq!(fizzbuzz(7), FizzBuzz::Number(7));
    assert_eq!(fizzbuzz(0), FizzBuzz::FizzBuzz);
}

#[test]
fn fizzbuzz_sequence() {
    assert_eq!(
        fizzbuzz_to(6),
        vec![
            FizzBuzz::Number(1),
            FizzBuzz::Number(2),
            FizzBuzz::Fizz,
            FizzBuzz::Number(4),
            FizzBuzz::Buzz,
            FizzBuzz::Fizz,
        ]
    );
    assert!(fizzbuzz_to(0).is_empty());
}

#[test]
fn fizzbuzz_to_one_hundred() {
    let all = func();
    assert_eq!(all.len(), 100);
    assert_eq!(all[14], FizzBuzz::FizzBuzz);
    assert_eq!(all[99], FizzBuzz::Buzz);
    assert_eq!(all[97], FizzBuzz::Number(98));
}

#[test]
fn oddness() {
    assert!(is_odd(1));
    assert!(is_odd(u32::MAX));
    assert!(!is_odd(0));
    assert!(!is_odd(64));
}

#[test]
fn odd_squares_below_thousand() {
    assert_eq!(sum_of_squared_odd_numbers(1000), 5456);
    assert_eq!(sum_of_squared_odd_numbers(0), 0);
    assert_eq!(sum_of_squared_odd_numbers(1), 0);
    assert_eq!(sum_of_squared_odd_numbers(2), 1);
    assert_eq!(sum_of_squared_odd_numbers(10), 10);
}

#[test]
fn odd_squares_below_largest_bound() {
    let mut expected: u64 = 0;
    let mut n: u64 = 0;
    while n * n < u32::MAX as u64 {
        if (n * n) % 2 == 1 {
            expected += n * n;
        }
        n += 1;
    }
    assert_eq!(sum_of_squared_odd_numbers(u32::MAX), expected);
}

#[test]
fn odd_numbers_below() {
    assert_eq!(sum_odd_numbers(9), 16);
    assert_eq!(sum_odd_numbers(10), 25);
    assert_eq!(sum_odd_numbers(0), 0);
    assert_eq!(sum_odd_numbers(2), 1);
}

#[test]
fn apply_calls_once() {
    let calls = Cell::new(0);
    let text = String::from("bye");
    apply(|| {
        calls.set(calls.get() + 1);
        drop(text);
    });
    assert_eq!(calls.get(), 1);
}

#[test]
fn apply_to_three() {
    assert_eq!(apply_to_3(|x| 2 * x), 6);
    assert_eq!(apply_to_3(|x| x - 10), -7);
}

#[test]
fn call_me_calls() {
    let calls = Cell::new(0);
    call_me(|| calls.set(calls.get() + 1));
    assert_eq!(calls.get(), 1);
}

#[test]
fn searching_slices() {
    let first = [1, 2, 3];
    let second = [4, 5, 6];
    assert!(any(&first, |x| x == 2));
    assert!(!any(&second, |x| x == 2));
    assert_eq!(find(&first, |x| x == 2), Some(2));
    assert_eq!(find(&second, |x| x == 2), None);
    let numbers = [1, 9, 3, 3, 13, 2];
    assert_eq!(position(&numbers, |x| x % 2 == 0), Some(5));
    assert_eq!(position(&numbers, |x| x < 0), None);
    assert_eq!(position(&[], |x| x == 0), None);
    assert_eq!(position(&[3, 3], |x| x == 3), Some(0));
}

#[test]
fn functions_report() {
    let r = run9();
    assert_eq!(r.fizzbuzz.len(), 100);
    assert_eq!(r.fizzbuzz[2], FizzBuzz::Fizz);
    assert_eq!(r.doubled_three, 6);
    assert!(r.two_in_first);
    assert!(!r.two_in_second);
    assert_eq!(r.found_in_first, Some(2));
    assert_eq!(r.found_in_second, None);
    assert_eq!(r.first_even_index, Some(5));
    assert_eq!(r.first_negative_index, None);
    assert_eq!(r.odd_squares_sum, 5456);
    assert_eq!(r.odd_sum_below_nine, 16);
}
