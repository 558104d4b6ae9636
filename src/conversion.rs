//! Conversions between types: `From` and `Into`, `TryFrom` and `TryInto`,
//! and reading a number from text.
use vstd::prelude::*;

use std::convert::TryFrom;
use std::convert::TryInto;

verus! {

/// A number made from an `i32` by `From`.
#[derive(Debug, Clone, Copy, PartialEq, Eq, Structural)]
pub struct Number {
    pub value: i32,
}

impl From<i32> for Number {
    fn from(item: i32) -> (r: Self) {
        Number { value: item }
    }
}

impl vstd::std_specs::convert::FromSpecImpl<i32> for Number {
    open spec fn obeys_from_spec() -> bool {
        true
    }

    open spec fn from_spec(v: i32) -> Self {
        Number { value: v }
    }
}

/// An even `i32`; `TryFrom` refuses an odd one.
#[derive(Debug, Clone, Copy, PartialEq, Eq, Structural)]
pub struct EvenNumber(pub i32);

/// What `EvenNumber::try_from(value)` returns.
pub open spec fn even_number_of(value: i32) -> Result<EvenNumber, ()> {
    if value % 2 == 0 {
        Ok(EvenNumber(value))
    } else {
        Err(())
    }
}

impl TryFrom<i32> for EvenNumber {
    type Error = ();

    fn try_from(value: i32) -> (r: Result<Self, Self::Error>) {
        if value % 2 == 0 {
            Ok(EvenNumber(value))
        } else {
            Err(())
        }
    }
}

impl vstd::std_specs::convert::TryFromSpecImpl<i32> for EvenNumber {
    open spec fn obeys_try_from_spec() -> bool {
        true
    }

    open spec fn try_from_spec(v: i32) -> Result<Self, ()> {
        even_number_of(v)
    }
}

/// `TryFrom` and `TryInto` agree: 8 becomes an `EvenNumber`, 5 is refused.
pub fn try_from_try_into()
{
    let a = EvenNumber::try_from(8);
    assert(a == Ok::<EvenNumber, ()>(EvenNumber(8)));
    let b = EvenNumber::try_from(5);
    assert(b == Err::<EvenNumber, ()>(()));
    let c: Result<EvenNumber, ()> = 8i32.try_into();
    assert(c == Ok::<EvenNumber, ()>(EvenNumber(8)));
    let d: Result<EvenNumber, ()> = 5i32.try_into();
    assert(d == Err::<EvenNumber, ()>(()));
}

/// Whether every character of `s` is an ASCII decimal digit.
pub open spec fn all_digits(s: Seq<char>) -> bool {
    forall|i: int| 0 <= i < s.len() ==> '0' <= #[trigger] s[i] <= '9'
}

/// The value of a run of decimal digits, most significant first.
pub open spec fn digits_value(s: Seq<char>) -> int
    decreases s.len(),
{
    if s.len() == 0 {
        0
    } else {
        digits_value(s.drop_last()) * 10 + (s.last() as int - '0' as int)
    }
}

/// The integer that `s` writes: an optional `+` or `-`, then one or more
/// decimal digits and nothing else.
pub open spec fn signed_value(s: Seq<char>) -> Option<int> {
    if s.len() > 1 && s[0] == '-' && all_digits(s.drop_first()) {
        Some(-digits_value(s.drop_first()))
    } else if s.len() > 1 && s[0] == '+' && all_digits(s.drop_first()) {
        Some(digits_value(s.drop_first()))
    } else if s.len() > 0 && all_digits(s) {
        Some(digits_value(s))
    } else {
        None
    }
}

/// What parsing `s` as an `i32` gives: its value where `s` writes an integer
/// that fits, else nothing.
pub open spec fn parsed_i32(s: Seq<char>) -> Option<i32> {
    match signed_value(s) {
        Some(v) => if i32::MIN <= v <= i32::MAX { Some(v as i32) } else { None },
        None => None,
    }
}

/// Relies on `str::parse::<i32>` (the `FromStr` of `i32`): it accepts an
/// optional sign followed by decimal digits only, and fails on anything else
/// and on a value out of range.
#[verifier::external_body]
fn parse_i32(s: &str) -> (r: Option<i32>)
    ensures
        r == parsed_i32(s@),
{
    s.parse::<i32>().ok()
}

/// Reads two numbers from text, in two ways of naming the target type, and
/// adds them: 5 and 10 give 15.
pub fn from_str() -> (r: i32)
    ensures
        r == 15,
{
    proof {
        reveal_strlit("5");
        reveal_strlit("10");
        assert("5"@.drop_last() =~= Seq::<char>::empty());
        assert("10"@.drop_last() =~= seq!['1']);
        assert(seq!['1'].drop_last() =~= Seq::<char>::empty());
        reveal_with_fuel(digits_value, 3);
    }
    let parsed = parse_i32("5").unwrap();
    let turbo_parsed = parse_i32("10").unwrap();
    parsed + turbo_parsed
}

/// The values that the tour of conversions computes.
pub struct ConversionReport {
    /// `Number::from(30)`.
    pub from_number: Number,
    /// `5.into()`.
    pub into_number: Number,
    /// The sum that `from_str` reads.
    pub parsed_sum: i32,
}

/// Runs the computing parts of the tour of conversions.
pub fn run6() -> (r: ConversionReport)
    ensures
        r.from_number == (Number { value: 30 }),
        r.into_number == (Number { value: 5 }),
        r.parsed_sum == 15,
{
    let from_number = Number::from(30);
    let into_number: Number = 5i32.into();
    try_from_try_into();
    let parsed_sum = from_str();
    ConversionReport { from_number, into_number, parsed_sum }
}

} // verus!
