use vstd::prelude::*;

use crate::values::{comma, join_text, joined_by, present_texts, strategy_text, UpdateStrategy};

verus! {

/// `part` stands in `text` from position `k` on.
pub open spec fn occurs_at(text: Seq<char>, part: Seq<char>, k: int) -> bool {
    0 <= k && k + part.len() <= text.len() && text.subrange(k, k + part.len()) == part
}

/// Where part `i` starts in the parts joined with `sep`.
pub open spec fn part_offset(parts: Seq<Seq<char>>, sep: Seq<char>, i: int) -> int
    decreases i,
{
    if i <= 0 {
        0
    } else {
        part_offset(parts, sep, i - 1) + parts[i - 1].len() + sep.len()
    }
}

/// Offsets depend only on the parts before.
proof fn lemma_offset_prefix(parts: Seq<Seq<char>>, sep: Seq<char>, n: int, i: int)
    requires
        0 <= i <= n <= parts.len(),
    ensures
        part_offset(parts.take(n), sep, i) == part_offset(parts, sep, i),
    decreases i,
{
    if i > 0 {
        lemma_offset_prefix(parts, sep, n, i - 1);
    }
}

/// Later parts start later.
proof fn lemma_offset_increasing(parts: Seq<Seq<char>>, sep: Seq<char>, i: int, j: int)
    requires
        0 <= i < j,
        sep.len() > 0,
    ensures
        part_offset(parts, sep, i) + parts[i].len() < part_offset(parts, sep, j),
    decreases j,
{
    if j > i + 1 {
        lemma_offset_increasing(parts, sep, i, j - 1);
    }
}

/// Joined parts: the length is where the last part ends, and each part stands at its offset.
proof fn lemma_joined_parts(parts: Seq<Seq<char>>, sep: Seq<char>)
    requires
        parts.len() >= 1,
    ensures
        joined_by(parts, sep).len() == part_offset(parts, sep, parts.len() - 1) + parts.last().len(),
        forall|i: int| 0 <= i < parts.len() ==> #[trigger] occurs_at(joined_by(parts, sep), parts[i], part_offset(parts, sep, i)),
    decreases parts.len(),
{
    let t = joined_by(parts, sep);
    let n = parts.len() as int;
    if n == 1 {
        assert(t.subrange(0, parts[0].len() as int) =~= parts[0]);
    } else {
        let d = parts.drop_last();
        lemma_joined_parts(d, sep);
        let td = joined_by(d, sep);
        assert(d =~= parts.take(n - 1));
        lemma_offset_prefix(parts, sep, n - 1, n - 2);
        assert(t == td + sep + parts.last());
        assert forall|i: int| 0 <= i < parts.len() implies #[trigger] occurs_at(t, parts[i], part_offset(parts, sep, i)) by {
            if i < n - 1 {
                lemma_offset_prefix(parts, sep, n - 1, i);
                assert(d[i] == parts[i]);
                assert(occurs_at(td, d[i], part_offset(d, sep, i)));
                let k = part_offset(parts, sep, i);
                assert(t.subrange(k, k + parts[i].len()) =~= td.subrange(k, k + parts[i].len()));
            } else {
                let k = part_offset(parts, sep, i);
                assert(k == td.len() + sep.len());
                assert(t.subrange(k, k + parts[i].len()) =~= parts.last());
            }
        }
    }
}

/// `part`, where there is one, stands in `text` from position `k` on.
pub open spec fn opt_occurs_at(text: Seq<char>, part: Option<Seq<char>>, k: int) -> bool {
    match part {
        Some(p) => occurs_at(text, p, k),
        None => true,
    }
}

/// A present value followed by `suffix`.
pub open spec fn suffixed(value: Option<String>, suffix: Seq<char>) -> Option<Seq<char>> {
    match value {
        Some(v) => Some(v@ + suffix),
        None => None,
    }
}

/// `"partition {v}"` for a present partition.
pub open spec fn partition_part(value: Option<String>) -> Option<Seq<char>> {
    match value {
        Some(v) => Some("partition "@ + v@),
        None => None,
    }
}

/// The update strategy's text names every rolling update value that is there, in the order
/// maximum unavailable, maximum surge, partition: `"{v} max unavailable"`, `"{v} max surge"` and
/// `"partition {v}"` each stand in the text, one after the other; its type, where there is one,
/// starts it. There is a text exactly when one of them is there.
pub proof fn law_strategy_names_rolling_values(s: UpdateStrategy)
    requires
        s.rolling_update is Some,
    ensures
        (strategy_text(s) is Some) == (s.kind is Some || s.rolling_update->0.max_unavailable is Some
            || s.rolling_update->0.max_surge is Some || s.rolling_update->0.partition is Some),
        s.kind is Some ==> occurs_at(strategy_text(s)->0, s.kind->0@, 0),
        exists|a: int, b: int, c: int|
            {
                &&& a < b < c
                &&& #[trigger] opt_occurs_at(
                    strategy_text(s)->0,
                    suffixed(s.rolling_update->0.max_unavailable, " max unavailable"@),
                    a,
                )
                &&& #[trigger] opt_occurs_at(strategy_text(s)->0, suffixed(s.rolling_update->0.max_surge, " max surge"@), b)
                &&& #[trigger] opt_occurs_at(strategy_text(s)->0, partition_part(s.rolling_update->0.partition), c)
            },
{
    let r = s.rolling_update->0;
    let parts = crate::values::strategy_parts(s);
    let sep = comma();
    let n0: int = if s.kind is Some { 1 } else { 0 };
    let n1: int = n0 + if r.max_unavailable is Some { 1int } else { 0 };
    let n2: int = n1 + if r.max_surge is Some { 1int } else { 0 };
    let n3: int = n2 + if r.partition is Some { 1int } else { 0 };
    assert(parts.len() == n3);
    if n3 > 0 {
        lemma_joined_parts(parts, sep);
    }
    if s.kind is Some {
        assert(parts[0] == s.kind->0@);
    }
    if r.max_unavailable is Some {
        assert(parts[n0] == r.max_unavailable->0@ + " max unavailable"@);
    }
    if r.max_surge is Some {
        assert(parts[n1] == r.max_surge->0@ + " max surge"@);
    }
    if r.partition is Some {
        assert(parts[n2] == "partition "@ + r.partition->0@);
    }
    let t = joined_by(parts, sep);
    let c = if r.partition is Some { part_offset(parts, sep, n2) } else { t.len() as int + 10 };
    let b = if r.max_surge is Some { part_offset(parts, sep, n1) } else { c - 1 };
    let a = if r.max_unavailable is Some { part_offset(parts, sep, n0) } else { b - 1 };
    if r.max_unavailable is Some && r.max_surge is Some {
        lemma_offset_increasing(parts, sep, n0, n1);
    }
    if r.max_surge is Some && r.partition is Some {
        lemma_offset_increasing(parts, sep, n1, n2);
    }
    if r.max_unavailable is Some && r.partition is Some {
        lemma_offset_increasing(parts, sep, n0, n2);
    }
    if r.max_unavailable is Some {
        assert(occurs_at(t, parts[n0], part_offset(parts, sep, n0)));
    }
    if r.max_surge is Some {
        assert(occurs_at(t, parts[n1], part_offset(parts, sep, n1)));
    }
    if r.partition is Some {
        assert(occurs_at(t, parts[n2], part_offset(parts, sep, n2)));
    }
    assert(a < b < c);
    if n3 > 0 {
        assert(strategy_text(s) == Some(t));
    }
    if s.kind is Some {
        assert(occurs_at(t, parts[0], part_offset(parts, sep, 0)));
    }
    assert(opt_occurs_at(t, suffixed(r.max_unavailable, " max unavailable"@), a));
    assert(opt_occurs_at(t, suffixed(r.max_surge, " max surge"@), b));
    assert(opt_occurs_at(t, partition_part(r.partition), c));
    let u = strategy_text(s)->0;
    assert(opt_occurs_at(u, suffixed(r.max_unavailable, " max unavailable"@), a));
    assert(opt_occurs_at(u, suffixed(r.max_surge, " max surge"@), b));
    assert(opt_occurs_at(u, partition_part(r.partition), c));
}


/// Each present value has its text among the present texts.
proof fn lemma_present_text_listed(values: Seq<Option<String>>, i: int)
    requires
        0 <= i < values.len(),
        values[i] is Some,
    ensures
        exists|j: int| 0 <= j < present_texts(values).len() && present_texts(values)[j] == values[i]->0@,
    decreases values.len(),
{
    let d = values.drop_last();
    let rest = present_texts(d);
    if i == values.len() - 1 {
        assert(present_texts(values) == rest.push(values[i]->0@));
        assert(present_texts(values)[rest.len() as int] == values[i]->0@);
    } else {
        assert(d[i] == values[i]);
        lemma_present_text_listed(d, i);
        let j = choose|j: int| 0 <= j < rest.len() && rest[j] == values[i]->0@;
        assert(present_texts(values)[j] == rest[j]);
    }
}

/// Without present values there are no present texts, and with one there is at least one.
proof fn lemma_present_texts_empty(values: Seq<Option<String>>)
    ensures
        (present_texts(values).len() == 0) == (forall|i: int| 0 <= i < values.len() ==> values[i] is None),
    decreases values.len(),
{
    if values.len() > 0 {
        let d = values.drop_last();
        lemma_present_texts_empty(d);
        if forall|i: int| 0 <= i < values.len() ==> values[i] is None {
            assert(values.last() is None);
            assert forall|i: int| 0 <= i < d.len() implies d[i] is None by {
                assert(d[i] == values[i]);
            }
        } else {
            let i = choose|i: int| 0 <= i < values.len() && values[i] is Some;
            if i < values.len() - 1 {
                assert(d[i] == values[i]);
            }
        }
    }
}

/// The text of a list of optional values names every value that is there, and there is a text
/// exactly when one is.
pub proof fn law_join_text_names_values(values: Seq<Option<String>>)
    ensures
        (join_text(Some(values)) is Some) == (exists|i: int| 0 <= i < values.len() && values[i] is Some),
        forall|i: int|
            0 <= i < values.len() && values[i] is Some ==> exists|k: int| #[trigger]
                occurs_at(join_text(Some(values))->0, values[i]->0@, k),
{
    lemma_present_texts_empty(values);
    let parts = present_texts(values);
    assert forall|i: int| 0 <= i < values.len() && values[i] is Some implies exists|k: int| #[trigger]
        occurs_at(join_text(Some(values))->0, values[i]->0@, k) by {
        lemma_present_text_listed(values, i);
        let j = choose|j: int| 0 <= j < parts.len() && parts[j] == values[i]->0@;
        lemma_joined_parts(parts, comma());
        assert(join_text(Some(values))->0 == joined_by(parts, comma()));
        assert(occurs_at(joined_by(parts, comma()), parts[j], part_offset(parts, comma(), j)));
        assert(occurs_at(join_text(Some(values))->0, values[i]->0@, part_offset(parts, comma(), j)));
    }
}

} // verus!
