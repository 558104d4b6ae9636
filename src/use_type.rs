//! Custom types: an enum of operations under a shorter alias, a constant,
//! and the linked list put to use.
use vstd::prelude::*;

use crate::list::List;
use crate::list::list_text;

verus! {

/// The bound that `is_big` compares with.
pub const THRESHOLD: i32 = 10;

/// An arithmetic operation on two numbers.
#[derive(Debug, Clone, Copy, PartialEq, Eq, Structural)]
pub enum VeriVerboseEnumOfThingsDoWithNumber {
    Add,
    Substract,
}

/// A short name for `VeriVerboseEnumOfThingsDoWithNumber`.
pub type Operations = VeriVerboseEnumOfThingsDoWithNumber;

/// What `op.run(x, y)` computes, over the integers.
pub open spec fn operation_result(op: Operations, x: int, y: int) -> int {
    match op {
        VeriVerboseEnumOfThingsDoWithNumber::Add => x + y,
        VeriVerboseEnumOfThingsDoWithNumber::Substract => x - y,
    }
}

impl VeriVerboseEnumOfThingsDoWithNumber {
    /// Applies the operation to `x` and `y`; the result must fit in an `i32`.
    pub fn run(&self, x: i32, y: i32) -> (r: i32)
        requires
            i32::MIN <= operation_result(*self, x as int, y as int) <= i32::MAX,
        ensures
            r == operation_result(*self, x as int, y as int),
    {
        match self {
            Self::Add => x + y,
            Self::Substract => x - y,
        }
    }
}

/// Whether `n` is above `THRESHOLD`.
pub fn is_big(n: i32) -> (r: bool)
    ensures
        r == (n > THRESHOLD),
{
    n > THRESHOLD
}

/// Builds the list `3, 2, 1` by prepending 1, 2 and 3 onto an empty list,
/// and returns its length and its text.
pub fn example_list() -> (r: (u32, String))
    ensures
        r.0 == 3,
        r.1@ == "3, 2, 1, Nil"@,
{
    let mut list = List::new();
    list = list.prepende(1);
    list = list.prepende(2);
    list = list.prepende(3);
    assert(list@ =~= seq![3u32, 2, 1]);
    let len = list.len();
    let text = list.stringify();
    proof {
        reveal_strlit("3, 2, 1, Nil");
        reveal_with_fuel(list_text, 4);
        reveal_with_fuel(crate::list::decimal, 1);
        assert(list@.drop_first() =~= seq![2u32, 1]);
        assert(list@.drop_first().drop_first() =~= seq![1u32]);
        assert(list@.drop_first().drop_first().drop_first() =~= Seq::<u32>::empty());
        assert(text@ =~= "3, 2, 1, Nil"@);
    }
    (len, text)
}

/// The values that the tour of custom types computes.
pub struct TypesReport {
    /// `Operations::Add` run on 10 and 20.
    pub sum: i32,
    /// The length of the example list.
    pub list_len: u32,
    /// The text of the example list.
    pub list_text: String,
    /// Whether 16 is above `THRESHOLD`.
    pub sixteen_is_big: bool,
}

/// Runs the computing parts of the tour of custom types.
pub fn run3() -> (r: TypesReport)
    ensures
        r.sum == 30,
        r.list_len == 3,
        r.list_text@ == "3, 2, 1, Nil"@,
        r.sixteen_is_big,
{
    let op = Operations::Add;
    let sum = op.run(10, 20);
    let (list_len, list_text) = example_list();
    let sixteen_is_big = is_big(16);
    TypesReport { sum, list_len, list_text, sixteen_is_big }
}

} // verus!
