use vstd::prelude::*;

use crate::strings::ascii_lower;
use crate::text::{
    cut_end, cut_start, insert_column, joined, lines_after_insert, lines_after_removal, removal_is_empty,
    removal_is_reversed, removed_lines, takes_line_break,
};

verus! {

/// Line-wise ASCII lower-case form of a text.
pub open spec fn lower_lines(l: Seq<Seq<char>>) -> Seq<Seq<char>> {
    l.map_values(|s: Seq<char>| ascii_lower(s))
}

proof fn lemma_lower_concat(a: Seq<char>, b: Seq<char>)
    ensures
        ascii_lower(a + b) == ascii_lower(a) + ascii_lower(b),
{
    assert(ascii_lower(a + b) =~= ascii_lower(a) + ascii_lower(b));
}

proof fn lemma_lower_subrange(a: Seq<char>, i: int, j: int)
    requires
        0 <= i <= j <= a.len(),
    ensures
        ascii_lower(a.subrange(i, j)) == ascii_lower(a).subrange(i, j),
{
    assert(ascii_lower(a.subrange(i, j)) =~= ascii_lower(a).subrange(i, j));
}

/// Lower-casing commutes with joining two lines.
pub proof fn lemma_lower_joined(l: Seq<Seq<char>>, n: int)
    ensures
        joined(lower_lines(l), n) == lower_lines(joined(l, n)),
{
    if 0 <= n && n + 1 < l.len() {
        lemma_lower_concat(l[n], l[n + 1]);
    }
    assert(joined(lower_lines(l), n) =~= lower_lines(joined(l, n)));
}

/// Lower-casing commutes with removing a range; the conditions on the range are the same.
pub proof fn lemma_lower_removal(l: Seq<Seq<char>>, sl: int, el: int, s: int, e: int)
    requires
        0 <= sl <= el < l.len(),
        0 <= s,
        0 <= e,
        !removal_is_reversed(l, sl, el, s, e),
    ensures
        removal_is_empty(lower_lines(l), sl, el, s, e) == removal_is_empty(l, sl, el, s, e),
        takes_line_break(lower_lines(l), el, e) == takes_line_break(l, el, e),
        removed_lines(lower_lines(l), sl, el, s, e) == lower_lines(removed_lines(l, sl, el, s, e)),
        lines_after_removal(lower_lines(l), sl, el, s, e) == lower_lines(lines_after_removal(l, sl, el, s, e)),
{
    let ll = lower_lines(l);
    let cs = cut_start(l, sl, s);
    let ce = cut_end(l, el, e);
    assert(cut_start(ll, sl, s) == cs);
    assert(cut_end(ll, el, e) == ce);
    lemma_lower_subrange(l[sl], cs, l[sl].len() as int);
    lemma_lower_subrange(l[sl], 0, cs);
    lemma_lower_subrange(l[el], 0, ce);
    lemma_lower_subrange(l[el], ce, l[el].len() as int);
    if sl == el && cs <= ce {
        lemma_lower_subrange(l[sl], cs, ce);
    }
    assert(ascii_lower(Seq::<char>::empty()) =~= Seq::<char>::empty());
    assert(removed_lines(ll, sl, el, s, e) =~= lower_lines(removed_lines(l, sl, el, s, e)));
    let merges_next = takes_line_break(l, el, e) && el + 1 < l.len();
    let suffix = if merges_next { l[el + 1] } else { l[el].subrange(ce, l[el].len() as int) };
    lemma_lower_concat(l[sl].subrange(0, cs), suffix);
    assert(lines_after_removal(ll, sl, el, s, e) =~= lower_lines(lines_after_removal(l, sl, el, s, e)));
}

/// Lower-casing commutes with inserting text.
pub proof fn lemma_lower_insert(l: Seq<Seq<char>>, y: int, x: int, text: Seq<Seq<char>>)
    requires
        0 <= x,
        0 <= y,
    ensures
        lines_after_insert(lower_lines(l), y, x, lower_lines(text)) == lower_lines(lines_after_insert(l, y, x, text)),
{
    let k = text.len() as int;
    if k > 0 && 0 <= y < l.len() {
        let c = insert_column(l, y, x);
        assert(insert_column(lower_lines(l), y, x) == c);
        let head = l[y].subrange(0, c);
        let tail = l[y].subrange(c, l[y].len() as int);
        lemma_lower_subrange(l[y], 0, c);
        lemma_lower_subrange(l[y], c, l[y].len() as int);
        lemma_lower_concat(head, text[0]);
        lemma_lower_concat(head + text[0], tail);
        lemma_lower_concat(text[k - 1], tail);
        if k == 1 {
            assert(lines_after_insert(lower_lines(l), y, x, lower_lines(text)) =~= lower_lines(lines_after_insert(l, y, x, text)));
        } else {
            assert(lower_lines(text).subrange(1, k - 1) =~= lower_lines(text.subrange(1, k - 1)));
            assert(lines_after_insert(lower_lines(l), y, x, lower_lines(text)) =~= lower_lines(lines_after_insert(l, y, x, text)));
        }
    }
    assert(lines_after_insert(lower_lines(l), y, x, lower_lines(text)) =~= lower_lines(lines_after_insert(l, y, x, text)));
}

} // verus!
