use vstd::prelude::*;

verus! {

/// `pat` occurs in `line` starting at character `i`.
pub open spec fn occurs_at(line: Seq<char>, pat: Seq<char>, i: int) -> bool {
    0 <= i && i + pat.len() <= line.len() && line.subrange(i, i + pat.len()) == pat
}

/// Distance to the next candidate after a match (an empty pattern advances by one character).
pub open spec fn match_step(pat: Seq<char>) -> int {
    if pat.len() == 0 { 1 } else { pat.len() as int }
}

/// Starting columns of the non-overlapping occurrences of `pat` in `line` found scanning left to
/// right from column `i`.
pub open spec fn matches_from(line: Seq<char>, pat: Seq<char>, i: int) -> Seq<int>
    decreases line.len() + 1 - i,
{
    if i < 0 || i > line.len() {
        seq![]
    } else if occurs_at(line, pat, i) {
        seq![i] + matches_from(line, pat, i + match_step(pat))
    } else {
        matches_from(line, pat, i + 1)
    }
}

/// Returns `true` if `pat` occurs in `line` at column `i`.
fn occurs(line: &Vec<char>, pat: &Vec<char>, i: usize) -> (r: bool)
    ensures
        r == occurs_at(line@, pat@, i as int),
{
    if pat.len() > line.len() || i > line.len() - pat.len() {
        return false;
    }
    let mut j: usize = 0;
    while j < pat.len()
        invariant
            j <= pat@.len(),
            i + pat@.len() <= line@.len(),
            line@.len() <= usize::MAX,
            forall|k: int| 0 <= k < j ==> line@[i + k] == pat@[k],
        decreases pat@.len() - j,
    {
        if line[i + j] != pat[j] {
            assert(line@.subrange(i as int, i + pat@.len())[j as int] != pat@[j as int]);
            return false;
        }
        j = j + 1;
    }
    assert(line@.subrange(i as int, i + pat@.len()) =~= pat@);
    true
}

/// Returns the starting columns of the non-overlapping occurrences of `pat` in `line`, left to right.
pub fn find_all(line: &Vec<char>, pat: &Vec<char>) -> (r: Vec<usize>)
    ensures
        r@.map_values(|x: usize| x as int) == matches_from(line@, pat@, 0),
{
    let mut r: Vec<usize> = Vec::new();
    let mut i: usize = 0;
    let step: usize = if pat.len() == 0 { 1 } else { pat.len() };
    let n = line.len();
    while i <= n
        invariant
            n == line@.len(),
            step == match_step(pat@),
            r@.map_values(|x: usize| x as int) + matches_from(line@, pat@, i as int) == matches_from(line@, pat@, 0),
        decreases n + 1 - i,
    {
        let ghost before = r@;
        if occurs(line, pat, i) {
            r.push(i);
            assert(r@.map_values(|x: usize| x as int) =~= before.map_values(|x: usize| x as int).push(i as int));
            assert(r@.map_values(|x: usize| x as int) + matches_from(line@, pat@, i + step) =~= before.map_values(|x: usize| x as int) + matches_from(line@, pat@, i as int));
            if step > n - i {
                assert(matches_from(line@, pat@, i + step) == Seq::<int>::empty());
                assert(r@.map_values(|x: usize| x as int) =~= matches_from(line@, pat@, 0));
                return r;
            }
            i = i + step;
        } else {
            if i == n {
                assert(matches_from(line@, pat@, i + 1) == Seq::<int>::empty());
                assert(r@.map_values(|x: usize| x as int) =~= matches_from(line@, pat@, 0));
                return r;
            }
            i = i + 1;
        }
    }
    assert(matches_from(line@, pat@, i as int) == Seq::<int>::empty());
    assert(r@.map_values(|x: usize| x as int) =~= matches_from(line@, pat@, 0));
    r
}

} // verus!
