//! Hygienic names for the wrappers that function expressions and arrow
//! functions are rewritten into: `_ref`, `_ref1`, `_ref2`, ...

use vstd::prelude::*;

verus! {

/// The character of a decimal digit.
pub open spec fn digit_char(d: nat) -> char {
    if d == 0 {
        '0'
    } else if d == 1 {
        '1'
    } else if d == 2 {
        '2'
    } else if d == 3 {
        '3'
    } else if d == 4 {
        '4'
    } else if d == 5 {
        '5'
    } else if d == 6 {
        '6'
    } else if d == 7 {
        '7'
    } else if d == 8 {
        '8'
    } else {
        '9'
    }
}

/// The decimal rendering of `n`, without leading zeros.
pub open spec fn decimal(n: nat) -> Seq<char>
    decreases n,
{
    if n < 10 {
        seq![digit_char(n)]
    } else {
        decimal(n / 10).push(digit_char(n % 10))
    }
}

/// The base of every generated wrapper name.
pub open spec fn ref_base() -> Seq<char> {
    seq!['_', 'r', 'e', 'f']
}

/// The `k`-th generated wrapper name of a pass: `_ref`, then `_ref1`, `_ref2`, ...
pub open spec fn ref_name(k: nat) -> Seq<char> {
    if k == 0 {
        ref_base()
    } else {
        ref_base() + decimal(k)
    }
}

fn digit_str(d: u64) -> (r: &'static str)
    requires
        d < 10,
    ensures
        r@ == seq![digit_char(d as nat)],
{
    if d == 0 {
        proof { reveal_strlit("0"); }
        "0"
    } else if d == 1 {
        proof { reveal_strlit("1"); }
        "1"
    } else if d == 2 {
        proof { reveal_strlit("2"); }
        "2"
    } else if d == 3 {
        proof { reveal_strlit("3"); }
        "3"
    } else if d == 4 {
        proof { reveal_strlit("4"); }
        "4"
    } else if d == 5 {
        proof { reveal_strlit("5"); }
        "5"
    } else if d == 6 {
        proof { reveal_strlit("6"); }
        "6"
    } else if d == 7 {
        proof { reveal_strlit("7"); }
        "7"
    } else if d == 8 {
        proof { reveal_strlit("8"); }
        "8"
    } else {
        proof { reveal_strlit("9"); }
        "9"
    }
}

/// Appends the decimal rendering of `n` to `s`.
pub fn push_decimal(s: &mut String, n: u64)
    ensures
        final(s)@ == old(s)@ + decimal(n as nat),
    decreases n,
{
    if n >= 10 {
        push_decimal(s, n / 10);
        s.append(digit_str(n % 10));
        assert(final(s)@ =~= old(s)@ + decimal(n as nat));
    } else {
        s.append(digit_str(n));
        assert(final(s)@ =~= old(s)@ + decimal(n as nat));
    }
}

/// The counter behind the generated wrapper names of one pass.
pub struct RefCounter {
    pub count: u64,
}

impl RefCounter {
    pub fn new() -> (r: RefCounter)
        ensures
            r.count == 0,
    {
        RefCounter { count: 0 }
    }

    /// The name that the next call of `next` hands out.
    pub fn peek(&self) -> (r: String)
        ensures
            r@ == ref_name(self.count as nat),
    {
        let mut name = String::from_str("_ref");
        proof { reveal_strlit("_ref"); }
        if self.count != 0 {
            push_decimal(&mut name, self.count);
        }
        name
    }

    /// Marks the name that `peek` returned as used.
    pub fn advance(&mut self)
        requires
            old(self).count < u64::MAX,
        ensures
            final(self).count == old(self).count + 1,
    {
        self.count = self.count + 1;
    }

    /// Hands out the next name and advances the counter.
    pub fn next(&mut self) -> (r: String)
        requires
            old(self).count < u64::MAX,
        ensures
            r@ == ref_name(old(self).count as nat),
            final(self).count == old(self).count + 1,
    {
        let name = self.peek();
        self.advance();
        name
    }
}

proof fn lemma_decimal_len(n: nat)
    ensures
        decimal(n).len() >= 1,
        n >= 10 ==> decimal(n).len() >= 2,
    decreases n,
{
    if n >= 10 {
        lemma_decimal_len(n / 10);
    }
}

proof fn lemma_digit_char_injective(a: nat, b: nat)
    requires
        a < 10,
        b < 10,
        digit_char(a) == digit_char(b),
    ensures
        a == b,
{
}

proof fn lemma_decimal_injective(a: nat, b: nat)
    requires
        decimal(a) == decimal(b),
    ensures
        a == b,
    decreases a,
{
    lemma_decimal_len(a);
    lemma_decimal_len(b);
    if a < 10 && b < 10 {
        assert(decimal(a)[0] == digit_char(a));
        assert(decimal(b)[0] == digit_char(b));
        lemma_digit_char_injective(a, b);
    } else if a >= 10 && b >= 10 {
        lemma_decimal_len(a / 10);
        lemma_decimal_len(b / 10);
        let da = decimal(a);
        let db = decimal(b);
        assert(da.last() == digit_char(a % 10));
        assert(db.last() == digit_char(b % 10));
        lemma_digit_char_injective(a % 10, b % 10);
        assert(da.drop_last() =~= decimal(a / 10));
        assert(db.drop_last() =~= decimal(b / 10));
        lemma_decimal_injective(a / 10, b / 10);
    } else {
        assert(decimal(a).len() != decimal(b).len());
    }
}

/// The name counter never hands out one name twice: different positions of
/// the counter give different names.
pub proof fn ref_names_distinct(i: nat, j: nat)
    requires
        i != j,
    ensures
        ref_name(i) != ref_name(j),
{
    lemma_decimal_len(i);
    lemma_decimal_len(j);
    if i != 0 && j != 0 {
        if ref_name(i) == ref_name(j) {
            assert(ref_name(i).subrange(4, ref_name(i).len() as int) =~= decimal(i));
            assert(ref_name(j).subrange(4, ref_name(j).len() as int) =~= decimal(j));
            lemma_decimal_injective(i, j);
        }
    } else {
        assert(ref_name(i).len() != ref_name(j).len());
    }
}

/// The first name is the bare base `_ref`; every later one is the base
/// followed by the counter's position in decimal, from `_ref1` on.
pub proof fn ref_names_shape(k: nat)
    ensures
        ref_name(0) == seq!['_', 'r', 'e', 'f'],
        k >= 1 ==> ref_name(k) == seq!['_', 'r', 'e', 'f'] + decimal(k),
        decimal(1) == seq!['1'],
{
}

} // verus!
