//! Functions, methods, closures and higher-order functions.
use vstd::prelude::*;

verus! {

/// Whether `rhs` divides `lhs`; nothing divides by zero.
pub open spec fn divides(lhs: u32, rhs: u32) -> bool {
    rhs != 0 && lhs % rhs == 0
}

/// Whether `rhs` divides `lhs`; `false` when `rhs` is zero.
pub fn is_divisible_by(lhs: u32, rhs: u32) -> (r: bool)
    ensures
        r == divides(lhs, rhs),
{
    if rhs == 0 {
        return false;
    }
    lhs % rhs == 0
}

/// What the fizzbuzz game says for a number.
#[derive(Debug, Clone, Copy, PartialEq, Eq, Structural)]
pub enum FizzBuzz {
    /// A multiple of 15.
    FizzBuzz,
    /// A multiple of 3 but not of 5.
    Fizz,
    /// A multiple of 5 but not of 3.
    Buzz,
    /// Any other number, said as it is.
    Number(u32),
}

/// What the game says for `n`.
pub open spec fn fizzbuzz_of(n: u32) -> FizzBuzz {
    if divides(n, 15) {
        FizzBuzz::FizzBuzz
    } else if divides(n, 3) {
        FizzBuzz::Fizz
    } else if divides(n, 5) {
        FizzBuzz::Buzz
    } else {
        FizzBuzz::Number(n)
    }
}

/// What the game says for `n`.
pub fn fizzbuzz(n: u32) -> (r: FizzBuzz)
    ensures
        r == fizzbuzz_of(n),
{
    if is_divisible_by(n, 15) {
        FizzBuzz::FizzBuzz
    } else if is_divisible_by(n, 3) {
        FizzBuzz::Fizz
    } else if is_divisible_by(n, 5) {
        FizzBuzz::Buzz
    } else {
        FizzBuzz::Number(n)
    }
}

/// What the game says for each of 1, 2, ..., `n`, in that order.
pub fn fizzbuzz_to(n: u32) -> (r: Vec<FizzBuzz>)
    ensures
        r@.len() == n,
        forall|i: int| 0 <= i < n ==> #[trigger] r@[i] == fizzbuzz_of((i + 1) as u32),
{
    let mut out: Vec<FizzBuzz> = Vec::new();
    let mut k: u32 = 0;
    while k < n
        invariant
            k <= n,
            out@.len() == k,
            forall|i: int| 0 <= i < k ==> #[trigger] out@[i] == fizzbuzz_of((i + 1) as u32),
        decreases n - k,
    {
        k = k + 1;
        out.push(fizzbuzz(k));
    }
    out
}

/// The game played from 1 to 100.
pub fn func() -> (r: Vec<FizzBuzz>)
    ensures
        r@.len() == 100,
        forall|i: int| 0 <= i < 100 ==> #[trigger] r@[i] == fizzbuzz_of((i + 1) as u32),
{
    fizzbuzz_to(100)
}

/// Whether `n` is odd.
pub fn is_odd(n: u32) -> (r: bool)
    ensures
        r == (n % 2 == 1),
{
    n % 2 == 1
}

/// The sum of the odd squares `k * k`, for `k` counting up from `n` while
/// `k * k` stays below `upper`.
pub open spec fn odd_squares_sum_from(n: nat, upper: nat) -> nat
    decreases upper - n,
{
    if n >= upper || n * n >= upper {
        0
    } else {
        (if (n * n) % 2 == 1 { n * n } else { 0 }) + odd_squares_sum_from(n + 1, upper)
    }
}

/// The sum of the odd squares below `upper`: 1 + 9 + 25 + ... for 1000 is 5456.
pub fn sum_of_squared_odd_numbers(upper: u32) -> (r: u64)
    ensures
        r == odd_squares_sum_from(0, upper as nat),
{
    let mut acc: u64 = 0;
    let mut n: u64 = 0;
    loop
        invariant
            n == 0 || (n - 1) * (n - 1) < upper,
            acc <= n * (upper as nat),
            acc + odd_squares_sum_from(n as nat, upper as nat) == odd_squares_sum_from(0, upper as nat),
        ensures
            acc == odd_squares_sum_from(0, upper as nat),
        decreases upper - n,
    {
        assert(n <= 65536) by (nonlinear_arith)
            requires n == 0 || (n - 1) * (n - 1) < upper, upper <= u32::MAX;
        assert(n * n <= 65536 * 65536) by (nonlinear_arith)
            requires n <= 65536;
        let n_squared = n * n;
        if n_squared >= upper as u64 {
            assert(odd_squares_sum_from(n as nat, upper as nat) == 0);
            break;
        }
        assert(n < upper) by (nonlinear_arith)
            requires n * n < upper;
        assert(acc + n * n <= (n + 1) * (upper as nat) <= 65537 * 0xffff_ffff) by (nonlinear_arith)
            requires acc <= n * (upper as nat), n * n < upper, n <= 65536, upper <= u32::MAX;
        if is_odd(n_squared as u32) {
            acc = acc + n_squared;
        }
        n = n + 1;
    }
    acc
}

/// The sum of the odd numbers below `k`.
pub open spec fn odd_sum_below(k: nat) -> nat
    decreases k,
{
    if k == 0 {
        0
    } else {
        odd_sum_below((k - 1) as nat) + (if (k - 1) % 2 == 1 { (k - 1) as nat } else { 0 })
    }
}

/// The sum of the odd numbers below `up_to`: 1 + 3 + 5 + 7 = 16 for 9.
pub fn sum_odd_numbers(up_to: u32) -> (r: u64)
    ensures
        r == odd_sum_below(up_to as nat),
{
    let mut acc: u64 = 0;
    let mut i: u32 = 0;
    while i < up_to
        invariant
            i <= up_to,
            acc == odd_sum_below(i as nat),
            acc <= i * i,
        decreases up_to - i,
    {
        assert(acc + i <= (i + 1) * (i + 1) <= 0xffff_ffff * 0xffff_ffff) by (nonlinear_arith)
            requires acc <= i * i, i < up_to, up_to <= u32::MAX;
        if i % 2 == 1 {
            acc = acc + i as u64;
        }
        i = i + 1;
    }
    acc
}

/// Calls `f` once.
pub fn apply<F>(f: F)
    where
        F: FnOnce(),
    requires
        f.requires(()),
    ensures
        f.ensures((), ()),
{
    f();
}

/// Calls `f` on 3.
pub fn apply_to_3<F>(f: F) -> (r: i32)
    where
        F: Fn(i32) -> i32,
    requires
        f.requires((3i32,)),
    ensures
        f.ensures((3i32,), r),
{
    f(3)
}

/// Calls `f`, which may be a closure or a named function.
pub fn call_me<F: Fn()>(f: F)
    requires
        f.requires(()),
    ensures
        f.ensures((), ()),
{
    f();
}

/// The index of the first value of `v` on which `pred` holds, if any.
pub fn position<P: Fn(i32) -> bool>(v: &[i32], pred: P) -> (r: Option<usize>)
    requires
        forall|i: int| 0 <= i < v@.len() ==> pred.requires((#[trigger] v@[i],)),
    ensures
        match r {
            Some(k) => {
                &&& k < v@.len()
                &&& pred.ensures((v@[k as int],), true)
                &&& forall|j: int| 0 <= j < k ==> pred.ensures((#[trigger] v@[j],), false)
            },
            None => forall|j: int| 0 <= j < v@.len() ==> pred.ensures((#[trigger] v@[j],), false),
        },
{
    let mut k: usize = 0;
    while k < v.len()
        invariant
            k <= v@.len(),
            forall|i: int| 0 <= i < v@.len() ==> pred.requires((#[trigger] v@[i],)),
            forall|j: int| 0 <= j < k ==> pred.ensures((#[trigger] v@[j],), false),
        decreases v@.len() - k,
    {
        if pred(v[k]) {
            return Some(k);
        }
        k = k + 1;
    }
    None
}

/// Whether `pred` holds on some value of `v`.
pub fn any<P: Fn(i32) -> bool>(v: &[i32], pred: P) -> (r: bool)
    requires
        forall|i: int| 0 <= i < v@.len() ==> pred.requires((#[trigger] v@[i],)),
    ensures
        r ==> exists|j: int| 0 <= j < v@.len() && pred.ensures((#[trigger] v@[j],), true),
        !r ==> forall|j: int| 0 <= j < v@.len() ==> pred.ensures((#[trigger] v@[j],), false),
{
    match position(v, pred) {
        Some(k) => {
            assert(pred.ensures((v@[k as int],), true));
            true
        },
        None => false,
    }
}

/// The first value of `v` on which `pred` holds, if any.
pub fn find<P: Fn(i32) -> bool>(v: &[i32], pred: P) -> (r: Option<i32>)
    requires
        forall|i: int| 0 <= i < v@.len() ==> pred.requires((#[trigger] v@[i],)),
    ensures
        match r {
            Some(x) => exists|k: int| {
                &&& 0 <= k < v@.len()
                &&& v@[k] == x
                &&& pred.ensures((x,), true)
                &&& forall|j: int| 0 <= j < k ==> pred.ensures((#[trigger] v@[j],), false)
            },
            None => forall|j: int| 0 <= j < v@.len() ==> pred.ensures((#[trigger] v@[j],), false),
        },
{
    match position(v, pred) {
        Some(k) => Some(v[k]),
        None => None,
    }
}

/// A source of items that can be searched: `find` takes items until one
/// satisfies `predicate`, and returns it.
pub trait Iterator {
    type Item;

    fn find<P>(&mut self, predicate: P) -> Option<Self::Item>
        where
            P: FnMut(&Self::Item) -> bool,
    ;
}

/// The values that the tour of functions computes.
pub struct FuncReport {
    /// The fizzbuzz game from 1 to 100.
    pub fizzbuzz: Vec<FizzBuzz>,
    /// A doubling closure applied to 3.
    pub doubled_three: i32,
    /// Whether 2 is among 1, 2, 3.
    pub two_in_first: bool,
    /// Whether 2 is among 4, 5, 6.
    pub two_in_second: bool,
    /// The 2 found among 1, 2, 3.
    pub found_in_first: Option<i32>,
    /// What is found of 2 among 4, 5, 6.
    pub found_in_second: Option<i32>,
    /// The index of the first even number among 1, 9, 3, 3, 13, 2.
    pub first_even_index: Option<usize>,
    /// The index of the first negative number among 1, 9, 3, 3, 13, 2.
    pub first_negative_index: Option<usize>,
    /// The sum of the odd squares below 1000.
    pub odd_squares_sum: u64,
    /// The sum of the odd numbers below 9.
    pub odd_sum_below_nine: u64,
}

/// Runs the computing parts of the tour of functions.
pub fn run9() -> (r: FuncReport)
    ensures
        r.fizzbuzz@.len() == 100,
        forall|i: int| 0 <= i < 100 ==> #[trigger] r.fizzbuzz@[i] == fizzbuzz_of((i + 1) as u32),
        r.doubled_three == 6,
        r.two_in_first,
        !r.two_in_second,
        r.found_in_first == Some(2i32),
        r.found_in_second == None::<i32>,
        r.first_even_index == Some(5usize),
        r.first_negative_index == None::<usize>,
        r.odd_squares_sum == odd_squares_sum_from(0, 1000),
        r.odd_sum_below_nine == odd_sum_below(9),
{
    let fizzbuzz = func();

    let double = |x: i32| -> (y: i32)
        requires
            -1000 <= x <= 1000,
        ensures
            y == 2 * x,
        { 2 * x };
    let doubled_three = apply_to_3(double);

    let is_two = |x: i32| -> (b: bool)
        ensures
            b == (x == 2),
        { x == 2 };
    let first = [1i32, 2, 3];
    let second = [4i32, 5, 6];
    let two_in_first = any(&first, is_two);
    let two_in_second = any(&second, is_two);
    let found_in_first = find(&first, is_two);
    let found_in_second = find(&second, is_two);
    assert(first@[1] == 2);

    let numbers = [1i32, 9, 3, 3, 13, 2];
    let is_even = |x: i32| -> (b: bool)
        ensures
            b == (x % 2 == 0),
        { x % 2 == 0 };
    let is_negative = |x: i32| -> (b: bool)
        ensures
            b == (x < 0),
        { x < 0 };
    let first_even_index = position(&numbers, is_even);
    let first_negative_index = position(&numbers, is_negative);

    let odd_squares_sum = sum_of_squared_odd_numbers(1000);
    let odd_sum_below_nine = sum_odd_numbers(9);
    FuncReport {
        fizzbuzz,
        doubled_three,
        two_in_first,
        two_in_second,
        found_in_first,
        found_in_second,
        first_even_index,
        first_negative_index,
        odd_squares_sum,
        odd_sum_below_nine,
    }
}

} // verus!
