use vstd::prelude::*;
use vstd::string::StrSliceExecFns;
use vstd::utf8::encode_utf8;

use crate::strings::push_char;

verus! {

/// Possible positions for the side select widget.
#[derive(Debug, Clone, Copy, PartialEq, Eq, Structural)]
pub enum Position {
    Left,
    Right,
}

/// The characters of `text` with a line break between each two of them.
pub open spec fn with_line_breaks(text: Seq<char>) -> Seq<char>
    decreases text.len(),
{
    if text.len() <= 1 {
        text
    } else {
        with_line_breaks(text.drop_last()) + seq!['\n', text.last()]
    }
}

/// Puts every character of `text` on a line of its own.
pub fn add_new_lines(text: &str) -> (r: String)
    ensures
        r@ == with_line_breaks(text@),
{
    let n = text.unicode_len();
    let mut result = String::new();
    let mut idx: usize = 0;
    while idx < n
        invariant
            idx <= n,
            n == text@.len(),
            result@ == with_line_breaks(text@.take(idx as int)),
        decreases n - idx,
    {
        let ch = text.get_char(idx);
        if idx != 0 {
            push_char(&mut result, '\n');
        }
        push_char(&mut result, ch);
        proof {
            let t = text@.take(idx + 1);
            assert(t.drop_last() =~= text@.take(idx as int));
            if idx == 0 {
                assert(t =~= seq![ch]);
            }
        }
        idx = idx + 1;
    }
    assert(text@.take(n as int) =~= text@);
    result
}

/// Returns `prefix` followed by `highlighted`.
pub fn combine_values(prefix: &str, highlighted: &str) -> (r: String)
    ensures
        r@ == prefix@ + highlighted@,
{
    let mut result = String::new();
    <String as vstd::string::StringExecFns>::append(&mut result, prefix);
    <String as vstd::string::StringExecFns>::append(&mut result, highlighted);
    assert(result@ =~= prefix@ + highlighted@);
    result
}

/// The parts of a path between `/` separators (empty parts included).
pub open spec fn path_parts(path: Seq<char>) -> Seq<Seq<char>>
    decreases path.len(),
{
    if path.len() == 0 {
        seq![seq![]]
    } else {
        let rest = path_parts(path.drop_last());
        if path.last() == '/' {
            rest.push(seq![])
        } else {
            rest.update(rest.len() - 1, rest.last().push(path.last()))
        }
    }
}

/// A path part that names a file or directory (not empty, not `.` or `..`).
pub open spec fn is_normal_part(part: Seq<char>) -> bool {
    part.len() > 0 && part != seq!['.'] && part != seq!['.', '.']
}

/// Each of the first `m` parts that is named takes at most 255 bytes.
pub open spec fn first_parts_fit(parts: Seq<Seq<char>>, m: int) -> bool {
    forall|i: int| 0 <= i < m && is_normal_part(#[trigger] parts[i]) ==> encode_utf8(parts[i]).len() <= 255
}

/// Every named part of the path takes at most 255 bytes.
pub open spec fn parts_fit(path: Seq<char>) -> bool {
    first_parts_fit(path_parts(path), path_parts(path).len() as int)
}

/// A usable path: not empty, with no NUL character, and with no named part longer than 255 bytes.
pub open spec fn valid_path(path: Seq<char>) -> bool {
    &&& path.len() > 0
    &&& forall|i: int| 0 <= i < path.len() ==> path[i] != '\0'
    &&& parts_fit(path)
}

proof fn lemma_path_parts_nonempty(path: Seq<char>)
    ensures
        path_parts(path).len() >= 1,
    decreases path.len(),
{
    if path.len() > 0 {
        lemma_path_parts_nonempty(path.drop_last());
    }
}

/// Returns `true` when every named part of `path` (split at `/`) takes at most 255 bytes.
pub fn validate_path_components(path: &str) -> (r: bool)
    ensures
        r == parts_fit(path@),
{
    let chars = crate::strings::chars_of(path);
    let n = chars.len();
    let mut part: String = String::new();
    let mut i: usize = 0;
    let mut ok = true;
    proof {
        lemma_path_parts_nonempty(path@);
    }
    while i < n
        invariant
            i <= n,
            n == chars@.len(),
            chars@ == path@,
            path_parts(chars@.take(i as int)).len() >= 1,
            part@ == path_parts(chars@.take(i as int)).last(),
            ok == first_parts_fit(path_parts(chars@.take(i as int)), path_parts(chars@.take(i as int)).len() - 1),
        decreases n - i,
    {
        let ghost before = path_parts(chars@.take(i as int));
        let c = chars[i];
        proof {
            assert(chars@.take(i + 1).drop_last() =~= chars@.take(i as int));
            lemma_path_parts_nonempty(chars@.take(i + 1));
        }
        if c == '/' {
            let fits = part_fits(&part);
            ok = ok && fits;
            part = String::new();
            proof {
                let after = path_parts(chars@.take(i + 1));
                let m = before.len() - 1;
                assert(after == before.push(seq![]));
                assert(first_parts_fit(after, m + 1) == (first_parts_fit(before, m) && (is_normal_part(before[m]) ==> encode_utf8(
                    before[m],
                ).len() <= 255))) by {
                    assert forall|k: int| 0 <= k < m + 1 implies #[trigger] after[k] == before[k] by {}
                    if first_parts_fit(before, m) && (is_normal_part(before[m]) ==> encode_utf8(before[m]).len() <= 255) {
                        assert forall|k: int| 0 <= k < m + 1 && is_normal_part(#[trigger] after[k]) implies encode_utf8(after[k]).len() <= 255 by {
                            if k < m {
                                assert(after[k] == before[k]);
                            }
                        }
                    }
                    if first_parts_fit(after, m + 1) {
                        assert forall|k: int| 0 <= k < m && is_normal_part(#[trigger] before[k]) implies encode_utf8(before[k]).len() <= 255 by {
                            assert(after[k] == before[k]);
                        }
                        assert(after[m] == before[m]);
                    }
                }
            }
        } else {
            push_char(&mut part, c);
            proof {
                let after = path_parts(chars@.take(i + 1));
                let m = before.len() - 1;
                assert(after == before.update(before.len() - 1, before.last().push(c)));
                assert(first_parts_fit(after, m) == first_parts_fit(before, m)) by {
                    if first_parts_fit(before, m) {
                        assert forall|k: int| 0 <= k < m && is_normal_part(#[trigger] after[k]) implies encode_utf8(after[k]).len() <= 255 by {
                            assert(after[k] == before[k]);
                        }
                    }
                    if first_parts_fit(after, m) {
                        assert forall|k: int| 0 <= k < m && is_normal_part(#[trigger] before[k]) implies encode_utf8(before[k]).len() <= 255 by {
                            assert(after[k] == before[k]);
                        }
                    }
                }
            }
        }
        i = i + 1;
    }
    let fits = part_fits(&part);
    proof {
        assert(chars@.take(n as int) =~= path@);
        let parts = path_parts(path@);
        let m = parts.len() - 1;
        assert(first_parts_fit(parts, m + 1) == (first_parts_fit(parts, m) && (is_normal_part(parts[m]) ==> encode_utf8(parts[m]).len() <= 255)));
    }
    ok && fits
}

/// Whether `part` is not a named part or takes at most 255 bytes.
fn part_fits(part: &String) -> (r: bool)
    ensures
        r == (is_normal_part(part@) ==> encode_utf8(part@).len() <= 255),
{
    let n = part.as_str().unicode_len();
    let is_dot = n == 1 && part.as_str().get_char(0) == '.';
    let is_dot_dot = n == 2 && part.as_str().get_char(0) == '.' && part.as_str().get_char(1) == '.';
    proof {
        if n == 1 {
            assert(part@ == seq!['.'] <==> part@[0] == '.') by {
                if part@[0] == '.' {
                    assert(part@ =~= seq!['.']);
                }
            }
        }
        if n == 2 {
            assert(part@ == seq!['.', '.'] <==> (part@[0] == '.' && part@[1] == '.')) by {
                if part@[0] == '.' && part@[1] == '.' {
                    assert(part@ =~= seq!['.', '.']);
                }
            }
        }
        assert(n != 1 ==> part@ != seq!['.']);
        assert(n != 2 ==> part@ != seq!['.', '.']);
    }
    if n == 0 || is_dot || is_dot_dot {
        return true;
    }
    part.as_str().as_bytes().len() <= 255
}

/// Returns `true` if `path_str` is a usable path.
pub fn validate_path(path_str: &str) -> (r: bool)
    ensures
        r == valid_path(path_str@),
{
    let n = path_str.unicode_len();
    if n == 0 {
        return false;
    }
    let mut i: usize = 0;
    while i < n
        invariant
            i <= n,
            n == path_str@.len(),
            forall|j: int| 0 <= j < i ==> path_str@[j] != '\0',
        decreases n - i,
    {
        if path_str.get_char(i) == '\0' {
            return false;
        }
        i = i + 1;
    }
    validate_path_components(path_str)
}


/// A part kept by normalisation: any part but an empty one or `.`.
pub open spec fn is_kept_part(part: Seq<char>) -> bool {
    part.len() > 0 && part != seq!['.']
}

/// The parts kept by normalisation, in order.
pub open spec fn kept_parts(parts: Seq<Seq<char>>) -> Seq<Seq<char>>
    decreases parts.len(),
{
    if parts.len() == 0 {
        seq![]
    } else {
        let rest = kept_parts(parts.drop_last());
        if is_kept_part(parts.last()) { rest.push(parts.last()) } else { rest }
    }
}

/// The parts joined with `/` between each two of them.
pub open spec fn joined_with_slash(parts: Seq<Seq<char>>) -> Seq<char>
    decreases parts.len(),
{
    if parts.len() == 0 {
        seq![]
    } else if parts.len() == 1 {
        parts[0]
    } else {
        joined_with_slash(parts.drop_last()) + seq!['/'] + parts.last()
    }
}

/// The components of a path that normalisation keeps: a `.` that starts a relative path, then
/// every part that is neither empty nor `.`.
pub open spec fn normal_components(path: Seq<char>) -> Seq<Seq<char>> {
    let parts = path_parts(path);
    let lead = if parts[0] == seq!['.'] { seq![parts[0]] } else { kept_parts(seq![parts[0]]) };
    lead + kept_parts(parts.skip(1))
}

/// The path rebuilt from its components: repeated separators, a trailing separator and `.` parts
/// past the start are dropped; an absolute path keeps its leading `/`.
pub open spec fn normalized_path(path: Seq<char>) -> Seq<char> {
    if path.len() > 0 && path[0] == '/' {
        seq!['/'] + joined_with_slash(normal_components(path))
    } else {
        joined_with_slash(normal_components(path))
    }
}

proof fn lemma_path_parts_first(path: Seq<char>)
    ensures
        path_parts(path).len() >= 1,
        (path.len() > 0 && path[0] == '/') ==> path_parts(path).len() >= 2 && path_parts(path)[0].len() == 0,
    decreases path.len(),
{
    lemma_path_parts_nonempty(path);
    if path.len() > 1 {
        assert(path.drop_last()[0] == path[0]);
        lemma_path_parts_first(path.drop_last());
        lemma_path_parts_nonempty(path.drop_last());
    } else if path.len() == 1 {
        assert(path.drop_last() =~= Seq::<char>::empty());
        assert(path_parts(Seq::<char>::empty()) == seq![Seq::<char>::empty()]);
    }
}

/// Splits `path` at `/` into its parts (empty parts included).
fn split_parts(path: &str) -> (r: Vec<String>)
    ensures
        crate::text::view_lines(r@) == path_parts(path@),
{
    let chars = crate::strings::chars_of(path);
    let n = chars.len();
    let mut done: Vec<String> = Vec::new();
    let mut part: String = String::new();
    let mut i: usize = 0;
    assert(chars@.take(0) =~= Seq::<char>::empty());
    assert(crate::text::view_lines(done@).push(part@) =~= path_parts(chars@.take(0)));
    while i < n
        invariant
            i <= n,
            n == chars@.len(),
            chars@ == path@,
            crate::text::view_lines(done@).push(part@) == path_parts(chars@.take(i as int)),
        decreases n - i,
    {
        let c = chars[i];
        proof {
            assert(chars@.take(i + 1).drop_last() =~= chars@.take(i as int));
        }
        if c == '/' {
            let finished = part;
            part = String::new();
            done.push(finished);
            assert(crate::text::view_lines(done@).push(part@) =~= path_parts(chars@.take(i as int)).push(seq![]));
        } else {
            push_char(&mut part, c);
            assert(crate::text::view_lines(done@).push(part@) =~= path_parts(chars@.take(i as int)).update(
                done@.len() as int,
                path_parts(chars@.take(i as int)).last().push(c),
            ));
        }
        i = i + 1;
    }
    assert(chars@.take(n as int) =~= path@);
    done.push(part);
    assert(crate::text::view_lines(done@) =~= path_parts(path@));
    done
}

/// Whether normalisation keeps `part` past the start of the path.
fn is_kept(part: &String) -> (r: bool)
    ensures
        r == is_kept_part(part@),
{
    let n = part.as_str().unicode_len();
    if n == 0 {
        return false;
    }
    let dot = n == 1 && part.as_str().get_char(0) == '.';
    proof {
        if n == 1 && part@[0] == '.' {
            assert(part@ =~= seq!['.']);
        }
    }
    !dot
}

/// Rebuilds `path` from its components (`/` separated parts).
pub fn normalize(path: &str) -> (r: String)
    ensures
        r@ == normalized_path(path@),
{
    let parts = split_parts(path);
    let ghost pv = crate::text::view_lines(parts@);
    proof {
        lemma_path_parts_first(path@);
    }
    let mut kept: Vec<String> = Vec::new();
    let first = &parts[0];
    let lead_dot = first.as_str().unicode_len() == 1 && first.as_str().get_char(0) == '.';
    proof {
        if first@.len() == 1 && first@[0] == '.' {
            assert(first@ =~= seq!['.']);
        }
        assert(seq![pv[0]].drop_last() =~= Seq::<Seq<char>>::empty());
        assert(kept_parts(Seq::<Seq<char>>::empty()) =~= Seq::<Seq<char>>::empty());
    }
    if lead_dot || is_kept(first) {
        kept.push(first.clone());
    }
    let ghost lead = crate::text::view_lines(kept@);
    assert(pv[0] == first@);
    proof {
        if pv[0] == seq!['.'] {
            assert(lead =~= seq![pv[0]]);
        } else if is_kept_part(pv[0]) {
            assert(seq![pv[0]].last() == pv[0]);
            assert(lead =~= kept_parts(seq![pv[0]]));
        } else {
            assert(lead =~= kept_parts(seq![pv[0]]));
        }
    }
    assert(lead =~= (if pv[0] == seq!['.'] { seq![pv[0]] } else { kept_parts(seq![pv[0]]) }));
    let mut j: usize = 1;
    assert(pv.subrange(1, 1) =~= Seq::<Seq<char>>::empty());
    assert(lead + kept_parts(pv.subrange(1, 1)) =~= lead);
    while j < parts.len()
        invariant
            1 <= j <= parts@.len(),
            pv == crate::text::view_lines(parts@),
            crate::text::view_lines(kept@) == lead + kept_parts(pv.subrange(1, j as int)),
        decreases parts@.len() - j,
    {
        proof {
            assert(pv.subrange(1, j + 1).drop_last() =~= pv.subrange(1, j as int));
            assert(pv.subrange(1, j + 1).last() == parts@[j as int]@);
            assert(pv.subrange(1, j + 1).len() > 0);
        }
        if is_kept(&parts[j]) {
            let ghost before = kept@;
            kept.push(parts[j].clone());
            assert(crate::text::view_lines(kept@) =~= crate::text::view_lines(before).push(parts@[j as int]@));
            assert(crate::text::view_lines(kept@) =~= lead + kept_parts(pv.subrange(1, j + 1)));
        } else {
            assert(crate::text::view_lines(kept@) =~= lead + kept_parts(pv.subrange(1, j + 1)));
        }
        j = j + 1;
    }
    assert(pv.subrange(1, pv.len() as int) =~= pv.skip(1));
    let ghost comps = crate::text::view_lines(kept@);
    assert(comps == normal_components(path@));
    let mut result = String::new();
    let is_absolute = path.unicode_len() > 0 && path.get_char(0) == '/';
    if is_absolute {
        push_char(&mut result, '/');
    }
    let ghost start = result@;
    let mut m: usize = 0;
    assert(comps.take(0) =~= Seq::<Seq<char>>::empty());
    assert(start + joined_with_slash(comps.take(0)) =~= start);
    while m < kept.len()
        invariant
            m <= kept@.len(),
            comps == crate::text::view_lines(kept@),
            result@ == start + joined_with_slash(comps.take(m as int)),
        decreases kept@.len() - m,
    {
        proof {
            assert(comps.take(m + 1).drop_last() =~= comps.take(m as int));
        }
        if m > 0 {
            push_char(&mut result, '/');
        }
        <String as vstd::string::StringExecFns>::append(&mut result, kept[m].as_str());
        proof {
            if m == 0 {
                assert(comps.take(1) =~= seq![comps[0]]);
            }
            assert(result@ =~= start + joined_with_slash(comps.take(m + 1)));
        }
        m = m + 1;
    }
    assert(comps.take(kept@.len() as int) =~= comps);
    result
}

} // verus!
