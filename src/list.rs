//! A singly linked list of `u32`, built by prepending.
use vstd::prelude::*;

verus! {

/// A list is either empty (`Nil`) or a head value that owns the rest of the
/// list (`Cons`).
pub enum List {
    Cons(u32, Box<List>),
    Nil,
}

/// The values of a list, from the head to the last cell.
pub open spec fn list_values(l: &List) -> Seq<u32>
    decreases l,
{
    match l {
        List::Cons(head, tail) => seq![*head] + list_values(tail),
        List::Nil => Seq::empty(),
    }
}

/// The character of a decimal digit.
pub open spec fn digit_char(d: nat) -> char {
    if d == 0 { '0' }
    else if d == 1 { '1' }
    else if d == 2 { '2' }
    else if d == 3 { '3' }
    else if d == 4 { '4' }
    else if d == 5 { '5' }
    else if d == 6 { '6' }
    else if d == 7 { '7' }
    else if d == 8 { '8' }
    else { '9' }
}

/// The decimal digits of `n`, most significant first, with no leading zero.
pub open spec fn decimal(n: nat) -> Seq<char>
    decreases n,
{
    if n < 10 {
        seq![digit_char(n)]
    } else {
        decimal(n / 10) + seq![digit_char(n % 10)]
    }
}

/// The text of a list: each value in decimal followed by `", "`, then `"Nil"`.
pub open spec fn list_text(values: Seq<u32>) -> Seq<char>
    decreases values.len(),
{
    if values.len() == 0 {
        seq!['N', 'i', 'l']
    } else {
        decimal(values[0] as nat) + seq![',', ' '] + list_text(values.drop_first())
    }
}

/// The one-character string of a decimal digit.
fn digit_str(d: u32) -> (r: &'static str)
    requires
        d < 10,
    ensures
        r@ == seq![digit_char(d as nat)],
{
    proof {
        reveal_strlit("0");
        reveal_strlit("1");
        reveal_strlit("2");
        reveal_strlit("3");
        reveal_strlit("4");
        reveal_strlit("5");
        reveal_strlit("6");
        reveal_strlit("7");
        reveal_strlit("8");
        reveal_strlit("9");
    }
    let r = if d == 0 { "0" }
    else if d == 1 { "1" }
    else if d == 2 { "2" }
    else if d == 3 { "3" }
    else if d == 4 { "4" }
    else if d == 5 { "5" }
    else if d == 6 { "6" }
    else if d == 7 { "7" }
    else if d == 8 { "8" }
    else { "9" };
    assert(r@ =~= seq![digit_char(d as nat)]);
    r
}

/// Appends the decimal digits of `n` to `out`.
pub fn push_decimal(out: &mut String, n: u32)
    ensures
        final(out)@ == old(out)@ + decimal(n as nat),
    decreases n,
{
    if n >= 10 {
        push_decimal(out, n / 10);
    }
    out.append(digit_str(n % 10));
    proof {
        assert(final(out)@ =~= old(out)@ + decimal(n as nat));
    }
}

impl View for List {
    type V = Seq<u32>;

    open spec fn view(&self) -> Seq<u32> {
        list_values(self)
    }
}

impl List {
    /// The empty list.
    pub fn new() -> (r: List)
        ensures
            r@ == Seq::<u32>::empty(),
    {
        List::Nil
    }

    /// Takes the list and returns it with `elem` in front.
    pub fn prepende(self, elem: u32) -> (r: List)
        ensures
            r@ == seq![elem] + self@,
    {
        List::Cons(elem, Box::new(self))
    }

    /// The number of cells.
    pub fn len(&self) -> (r: u32)
        requires
            self@.len() <= u32::MAX,
        ensures
            r == self@.len(),
        decreases self,
    {
        match self {
            List::Cons(_, tail) => 1 + tail.len(),
            List::Nil => 0,
        }
    }

    /// The values in order from the head, each followed by `", "`, and `"Nil"`
    /// at the end: `"3, 2, 1, Nil"`.
    pub fn stringify(&self) -> (r: String)
        ensures
            r@ == list_text(self@),
    {
        let mut out = String::new();
        self.write_text(&mut out);
        assert(out@ =~= list_text(self@));
        out
    }

    /// Appends the text of this list to `out`.
    fn write_text(&self, out: &mut String)
        ensures
            final(out)@ == old(out)@ + list_text(self@),
        decreases self,
    {
        match self {
            List::Cons(head, tail) => {
                push_decimal(out, *head);
                out.append(", ");
                tail.write_text(out);
                proof {
                    reveal_strlit(", ");
                    assert(self@.drop_first() =~= tail@);
                    assert(final(out)@ =~= old(out)@ + list_text(self@));
                }
            },
            List::Nil => {
                out.append("Nil");
                proof {
                    reveal_strlit("Nil");
                    assert(final(out)@ =~= old(out)@ + list_text(self@));
                }
            },
        }
    }
}

/// The values of `prepende(...prepende(prepende(l, vs[0]), vs[1])..., vs[n - 1])`
/// where `l` holds `start`: the last call puts `vs[n - 1]` in front of what the
/// calls before it built.
pub open spec fn prepend_all(start: Seq<u32>, vs: Seq<u32>) -> Seq<u32>
    decreases vs.len(),
{
    if vs.len() == 0 {
        start
    } else {
        seq![vs.last()] + prepend_all(start, vs.drop_last())
    }
}

/// Prepending values one at a time puts them in front in reverse order: the
/// last value prepended is the head, and the old values follow.
pub proof fn lemma_prepend_all_reverses(start: Seq<u32>, vs: Seq<u32>)
    ensures
        prepend_all(start, vs) == vs.reverse() + start,
    decreases vs.len(),
{
    if vs.len() > 0 {
        let front = vs.drop_last();
        lemma_prepend_all_reverses(start, front);
        assert(vs.reverse() =~= seq![vs.last()] + front.reverse());
        assert(seq![vs.last()] + (front.reverse() + start) =~= vs.reverse() + start);
    } else {
        assert(vs.reverse() + start =~= start);
    }
}

/// Traversal visits the values in the reverse of the order in which they were
/// prepended onto `List::new()`: prepending 1, 2 and 3 gives `[3, 2, 1]`.
pub proof fn lemma_traversal_reverses_prepends(vs: Seq<u32>)
    ensures
        prepend_all(Seq::empty(), vs) == vs.reverse(),
        forall|i: int| 0 <= i < vs.len() ==>
            #[trigger] prepend_all(Seq::empty(), vs)[i] == vs[vs.len() - 1 - i],
{
    lemma_prepend_all_reverses(Seq::empty(), vs);
    assert(vs.reverse() + Seq::<u32>::empty() =~= vs.reverse());
}

/// A list made from `List::new()` by prepending the `n` values `vs` has
/// length `n`.
pub proof fn lemma_length_counts_prepends(vs: Seq<u32>)
    ensures
        prepend_all(Seq::empty(), vs).len() == vs.len(),
{
    lemma_traversal_reverses_prepends(vs);
}

/// Traversal does not change a list: any two results of `len` on one list
/// are equal, and so are any two results of `stringify`.
pub proof fn lemma_traversals_agree(l: &List, n1: u32, n2: u32, t1: Seq<char>, t2: Seq<char>)
    requires
        n1 == l@.len(),
        n2 == l@.len(),
        t1 == list_text(l@),
        t2 == list_text(l@),
    ensures
        n1 == n2,
        t1 == t2,
{
}

} // verus!
