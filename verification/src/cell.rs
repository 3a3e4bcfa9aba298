use vstd::prelude::*;
use vstd::string::StrSliceExecFns;

use crate::describe::{int_text, push_i64};
use crate::strings::{digits, push_char};
use crate::values::text_le;

verus! {

/// `10` to the power `n`.
pub open spec fn pow10(n: nat) -> int
    decreases n,
{
    if n == 0 { 1 } else { 10 * pow10((n - 1) as nat) }
}

/// `s` padded on the left with `'0'` to `width` characters.
pub open spec fn zero_padded(s: Seq<char>, width: nat) -> Seq<char> {
    if s.len() >= width { s } else { Seq::new((width - s.len()) as nat, |i: int| '0') + s }
}

/// The character of decimal digit `d`.
pub open spec fn digit_char(d: nat) -> char {
    ((48 + d) as u32) as char
}

/// The last `w` decimal digits of `n`, with leading zeros.
pub open spec fn fixed_digits(n: nat, w: nat) -> Seq<char>
    decreases w,
{
    if w == 0 { seq![] } else { fixed_digits(n / 10, (w - 1) as nat).push(digit_char(n % 10)) }
}

/// The text a cell made by [`Cell::integer`] sorts by, for the value `v`.
pub open spec fn integer_sort_text(v: int, len: nat) -> Seq<char> {
    zero_padded(int_text(v + pow10(len)), len + 1)
}

proof fn lemma_fixed_len(n: nat, w: nat)
    ensures
        fixed_digits(n, w).len() == w,
    decreases w,
{
    if w > 0 {
        lemma_fixed_len(n / 10, (w - 1) as nat);
    }
}

proof fn lemma_fixed_zero(w: nat)
    ensures
        fixed_digits(0, w) == Seq::new(w, |i: int| '0'),
    decreases w,
{
    if w > 0 {
        lemma_fixed_zero((w - 1) as nat);
        assert(digit_char(0) == '0');
        assert(fixed_digits(0, w) =~= Seq::new(w, |i: int| '0'));
    }
}

/// A number below `10^w` written with its digits padded to `w` is its last `w` digits.
proof fn lemma_padded_is_fixed(n: nat, w: nat)
    requires
        w >= 1,
        n < pow10(w),
    ensures
        zero_padded(digits(n), w) == fixed_digits(n, w),
        digits(n).len() <= w,
    decreases w,
{
    if n < 10 {
        assert(digits(n) == seq![digit_char(n)]);
        lemma_fixed_zero((w - 1) as nat);
        assert(n / 10 == 0);
        assert(zero_padded(digits(n), w) =~= fixed_digits(n, w));
    } else {
        assert(w >= 2) by {
            if w == 1 {
                assert(pow10(1) == 10) by {
                    reveal_with_fuel(pow10, 2);
                }
            }
        }
        let w1 = (w - 1) as nat;
        assert(pow10(w) == 10 * pow10(w1));
        assert(n / 10 < pow10(w1)) by (nonlinear_arith)
            requires
                n < 10 * pow10(w1),
        ;
        lemma_padded_is_fixed(n / 10, w1);
        assert(digits(n) == digits(n / 10) + seq![digit_char(n % 10)]);
        assert(zero_padded(digits(n), w) =~= zero_padded(digits(n / 10), w1) + seq![digit_char(n % 10)]);
    }
}

/// Extending two different texts of one length, the first coming before the second, keeps their
/// order.
proof fn lemma_extend_before(p: Seq<char>, q: Seq<char>, x: char, y: char)
    requires
        p.len() == q.len(),
        text_le(p, q),
        p != q,
    ensures
        text_le(p.push(x), q.push(y)),
    decreases p.len(),
{
    if p.len() > 0 {
        assert(p.push(x)[0] == p[0] && q.push(y)[0] == q[0]);
        if p[0] == q[0] {
            assert(p.drop_first() != q.drop_first()) by {
                if p.drop_first() == q.drop_first() {
                    assert forall|i: int| 0 <= i < p.len() implies p[i] == q[i] by {
                        if i > 0 {
                            assert(p[i] == p.drop_first()[i - 1]);
                            assert(q[i] == q.drop_first()[i - 1]);
                        }
                    }
                    assert(p =~= q);
                }
            }
            lemma_extend_before(p.drop_first(), q.drop_first(), x, y);
            assert(p.push(x).drop_first() =~= p.drop_first().push(x));
            assert(q.push(y).drop_first() =~= q.drop_first().push(y));
        }
    } else {
        assert(p =~= q);
    }
}

/// One text extended by two characters is ordered like the characters.
proof fn lemma_extend_same(p: Seq<char>, x: char, y: char)
    requires
        x <= y,
    ensures
        text_le(p.push(x), p.push(y)),
    decreases p.len(),
{
    if p.len() > 0 {
        assert(p.push(x)[0] == p[0] && p.push(y)[0] == p[0]);
        lemma_extend_same(p.drop_first(), x, y);
        assert(p.push(x).drop_first() =~= p.drop_first().push(x));
        assert(p.push(y).drop_first() =~= p.drop_first().push(y));
    } else {
        assert(p.push(x) =~= seq![x]);
        assert(p.push(y) =~= seq![y]);
        assert(seq![x].drop_first() =~= Seq::<char>::empty());
        assert(seq![y].drop_first() =~= Seq::<char>::empty());
        assert(text_le(Seq::<char>::empty(), Seq::<char>::empty()));
    }
}

/// Fixed-width digit texts of numbers below `10^w` are ordered like the numbers.
proof fn lemma_fixed_order(a: nat, b: nat, w: nat)
    requires
        a < b < pow10(w),
    ensures
        text_le(fixed_digits(a, w), fixed_digits(b, w)),
        fixed_digits(a, w) != fixed_digits(b, w),
    decreases w,
{
    lemma_fixed_len(a, w);
    lemma_fixed_len(b, w);
    if w == 0 {
        assert(pow10(0) == 1);
    } else {
        let w1 = (w - 1) as nat;
        let pa = fixed_digits(a / 10, w1);
        let pb = fixed_digits(b / 10, w1);
        lemma_fixed_len(a / 10, w1);
        lemma_fixed_len(b / 10, w1);
        assert(pow10(w) == 10 * pow10(w1));
        assert(b / 10 < pow10(w1)) by (nonlinear_arith)
            requires
                b < 10 * pow10(w1),
        ;
        if a / 10 < b / 10 {
            lemma_fixed_order(a / 10, b / 10, w1);
            lemma_extend_before(pa, pb, digit_char(a % 10), digit_char(b % 10));
            assert(fixed_digits(a, w).drop_last() == pa);
            assert(fixed_digits(b, w).drop_last() == pb);
        } else {
            assert(a / 10 == b / 10);
            assert(a % 10 < b % 10);
            lemma_extend_same(pa, digit_char(a % 10), digit_char(b % 10));
            assert(fixed_digits(a, w).last() != fixed_digits(b, w).last());
        }
    }
}

/// The sort texts of integer cells made with the same `len` order like their values, and all have
/// `len + 1` characters, for values strictly between `-10^len` and `10^len`.
pub proof fn law_integer_sort_order(a: int, b: int, len: nat)
    requires
        -pow10(len) < a < b < pow10(len),
    ensures
        text_le(integer_sort_text(a, len), integer_sort_text(b, len)),
        integer_sort_text(a, len) != integer_sort_text(b, len),
        integer_sort_text(a, len).len() == len + 1,
        integer_sort_text(b, len).len() == len + 1,
{
    let na = (a + pow10(len)) as nat;
    let nb = (b + pow10(len)) as nat;
    let w = len + 1;
    lemma_pow10_positive(len);
    assert(pow10(w) == 10 * pow10(len));
    assert(nb < pow10(w));
    assert(int_text(na as int) == digits(na));
    assert(int_text(nb as int) == digits(nb));
    lemma_padded_is_fixed(na, w);
    lemma_padded_is_fixed(nb, w);
    lemma_fixed_len(na, w);
    lemma_fixed_len(nb, w);
    lemma_fixed_order(na, nb, w);
}

/// Table cell.
pub struct Cell {
    text: Option<String>,
    sort_text: Option<String>,
}

/// The parts of a cell that it shows and sorts by.
pub struct CellView {
    pub text: Option<Seq<char>>,
    pub sort_text: Option<Seq<char>>,
}

/// The view of an optional string.
pub open spec fn opt_view(s: Option<String>) -> Option<Seq<char>> {
    match s {
        Some(s) => Some(s@),
        None => None,
    }
}

impl View for Cell {
    type V = CellView;

    closed spec fn view(&self) -> CellView {
        CellView { text: opt_view(self.text), sort_text: opt_view(self.sort_text) }
    }
}

/// Returns `10` to the power `n`.
fn power_of_ten(n: u32) -> (r: i64)
    requires
        pow10(n as nat) <= i64::MAX,
    ensures
        r == pow10(n as nat),
{
    let mut r: i64 = 1;
    let mut i: u32 = 0;
    while i < n
        invariant
            i <= n,
            r == pow10(i as nat),
            pow10(n as nat) <= i64::MAX,
        decreases n - i,
    {
        proof {
            lemma_pow10_grows(i as nat, n as nat);
        }
        r = r * 10;
        i = i + 1;
    }
    r
}

/// Powers of ten grow with the exponent.
pub proof fn lemma_pow10_grows(a: nat, b: nat)
    requires
        a < b,
    ensures
        10 * pow10(a) <= pow10(b),
        pow10(a) >= 1,
    decreases b - a,
{
    lemma_pow10_positive(a);
    if a + 1 < b {
        lemma_pow10_grows(a + 1, b);
    }
}

/// Powers of ten are positive.
pub proof fn lemma_pow10_positive(a: nat)
    ensures
        pow10(a) >= 1,
    decreases a,
{
    if a > 0 {
        lemma_pow10_positive((a - 1) as nat);
    }
}

impl Cell {
    /// Creates new [`Cell`] instance from raw text.
    pub fn raw(text: &str, sort_text: &str) -> (r: Self)
        ensures
            r@ == (CellView { text: Some(text@), sort_text: Some(sort_text@) }),
    {
        Cell { text: Some(text.to_owned()), sort_text: Some(sort_text.to_owned()) }
    }

    /// Creates new [`Cell`] instance as an integer value (`0` when missing), sorted by the value
    /// plus `10^len`, zero-padded to `len + 1` characters.
    pub fn integer(value: Option<i64>, len: u32) -> (r: Self)
        requires
            pow10(len as nat) <= i64::MAX,
            pow10(len as nat) + (match value {
                Some(v) => v as int,
                None => 0,
            }) <= i64::MAX,
        ensures
            ({
                let v = match value {
                    Some(v) => v as int,
                    None => 0,
                };
                r@ == (CellView { text: Some(int_text(v)), sort_text: Some(integer_sort_text(v, len as nat)) })
            }),
    {
        let value = match value {
            Some(v) => v,
            None => 0,
        };
        proof {
            lemma_pow10_positive(len as nat);
            if len >= 19 {
                lemma_pow10_grows(18, len as nat);
                assert(pow10(18) == 1000000000000000000) by {
                    reveal_with_fuel(pow10, 19);
                }
            }
        }
        let sort_value = value + power_of_ten(len);
        let mut digits = String::new();
        push_i64(&mut digits, sort_value);
        let count = digits.as_str().unicode_len();
        let width = len as usize + 1;
        let mut sort = String::new();
        let mut i: usize = count;
        while i < width
            invariant
                count <= i <= width || (i == count && count >= width),
                sort@ == Seq::new((i - count) as nat, |k: int| '0'),
            decreases width - i,
        {
            push_char(&mut sort, '0');
            i = i + 1;
            assert(sort@ =~= Seq::new((i - count) as nat, |k: int| '0'));
        }
        <String as vstd::string::StringExecFns>::append(&mut sort, digits.as_str());
        proof {
            if count >= width {
                assert(sort@ =~= digits@);
            }
        }
        let mut text = String::new();
        push_i64(&mut text, value);
        Cell { text: Some(text), sort_text: Some(sort) }
    }

    /// Sets cell raw text.
    pub fn set_raw_text(&mut self, text: String)
        ensures
            final(self)@ == (CellView { text: Some(text@), sort_text: None }),
    {
        self.text = Some(text);
        self.sort_text = None;
    }

    /// Returns cell raw text.
    pub fn raw_text(&self) -> (r: Option<&str>)
        ensures
            match r {
                Some(t) => self@.text == Some(t@),
                None => self@.text is None,
            },
    {
        match &self.text {
            Some(t) => Some(t.as_str()),
            None => None,
        }
    }

    /// Returns cell value that can be used for sorting: the sort text, else the text, else `n/a`.
    pub fn sort_text(&self) -> (r: &str)
        ensures
            r@ == match self@.sort_text {
                Some(s) => s,
                None => match self@.text {
                    Some(t) => t,
                    None => "n/a"@,
                },
            },
    {
        match &self.sort_text {
            Some(s) => s.as_str(),
            None => match &self.text {
                Some(t) => t.as_str(),
                None => "n/a",
            },
        }
    }

    /// Returns cell text (`n/a` when it has none).
    pub fn text(&self) -> (r: &str)
        ensures
            r@ == match self@.text {
                Some(t) => t,
                None => "n/a"@,
            },
    {
        match &self.text {
            Some(t) => t.as_str(),
            None => "n/a",
        }
    }
}

impl From<Option<String>> for Cell {
    fn from(value: Option<String>) -> (r: Self) {
        Cell { text: value, sort_text: None }
    }
}

impl vstd::std_specs::convert::FromSpecImpl<Option<String>> for Cell {
    open spec fn obeys_from_spec() -> bool {
        true
    }

    closed spec fn from_spec(v: Option<String>) -> Self {
        Cell { text: v, sort_text: None }
    }
}

impl From<String> for Cell {
    fn from(value: String) -> (r: Self) {
        Cell { text: Some(value), sort_text: None }
    }
}

impl vstd::std_specs::convert::FromSpecImpl<String> for Cell {
    open spec fn obeys_from_spec() -> bool {
        true
    }

    closed spec fn from_spec(v: String) -> Self {
        Cell { text: Some(v), sort_text: None }
    }
}

impl Cell {
    /// Creates new [`Cell`] instance showing a boolean value.
    pub fn from_bool(value: bool) -> (r: Self)
        ensures
            r@ == (CellView { text: Some(if value { "true"@ } else { "false"@ }), sort_text: None }),
    {
        let text = if value {
            "true".to_owned()
        } else {
            "false".to_owned()
        };
        Cell { text: Some(text), sort_text: None }
    }
}

} // verus!
