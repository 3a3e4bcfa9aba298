use vstd::prelude::*;
use vstd::multiset::Multiset;
use vstd::string::StrSliceExecFns;

use crate::strings::chars_of;
use crate::text::view_lines;

verus! {

broadcast use vstd::seq_lib::group_to_multiset_ensures;

/// Lexicographic order of texts by code point, the order in which `String`s compare (UTF-8
/// encoding keeps it).
pub open spec fn text_le(a: Seq<char>, b: Seq<char>) -> bool
    decreases a.len(),
{
    if a.len() == 0 {
        true
    } else if b.len() == 0 {
        false
    } else if a[0] != b[0] {
        a[0] < b[0]
    } else {
        text_le(a.drop_first(), b.drop_first())
    }
}

/// Every text of `s` is at most each text after it.
pub open spec fn is_sorted_texts(s: Seq<Seq<char>>) -> bool {
    forall|i: int, j: int| 0 <= i < j < s.len() ==> text_le(#[trigger] s[i], #[trigger] s[j])
}

/// The texts joined with `sep` between each two of them.
pub open spec fn joined_by(parts: Seq<Seq<char>>, sep: Seq<char>) -> Seq<char>
    decreases parts.len(),
{
    if parts.len() == 0 {
        seq![]
    } else if parts.len() == 1 {
        parts[0]
    } else {
        joined_by(parts.drop_last(), sep) + sep + parts.last()
    }
}

/// The separator of joined values.
pub open spec fn comma() -> Seq<char> {
    seq![',', ' ']
}

proof fn lemma_text_le_total(a: Seq<char>, b: Seq<char>)
    ensures
        text_le(a, b) || text_le(b, a),
    decreases a.len(),
{
    if a.len() > 0 && b.len() > 0 && a[0] == b[0] {
        lemma_text_le_total(a.drop_first(), b.drop_first());
    }
}

proof fn lemma_text_le_reflexive(a: Seq<char>)
    ensures
        text_le(a, a),
    decreases a.len(),
{
    if a.len() > 0 {
        lemma_text_le_reflexive(a.drop_first());
    }
}

proof fn lemma_text_le_antisymmetric(a: Seq<char>, b: Seq<char>)
    requires
        text_le(a, b),
        text_le(b, a),
    ensures
        a == b,
    decreases a.len(),
{
    if a.len() == 0 {
        assert(b.len() == 0);
        assert(a =~= b);
    } else {
        lemma_text_le_antisymmetric(a.drop_first(), b.drop_first());
        assert(a =~= seq![a[0]] + a.drop_first());
        assert(b =~= seq![b[0]] + b.drop_first());
    }
}

proof fn lemma_text_le_transitive(a: Seq<char>, b: Seq<char>, c: Seq<char>)
    requires
        text_le(a, b),
        text_le(b, c),
    ensures
        text_le(a, c),
    decreases a.len(),
{
    if a.len() > 0 && b.len() > 0 && c.len() > 0 && a[0] == b[0] && b[0] == c[0] {
        lemma_text_le_transitive(a.drop_first(), b.drop_first(), c.drop_first());
    }
}

/// Two sorted arrangements of the same texts are equal: the sorted order of texts is unique.
pub proof fn lemma_sorted_arrangement_unique(s1: Seq<Seq<char>>, s2: Seq<Seq<char>>)
    requires
        s1.to_multiset() == s2.to_multiset(),
        is_sorted_texts(s1),
        is_sorted_texts(s2),
    ensures
        s1 == s2,
    decreases s1.len(),
{
    broadcast use vstd::seq_lib::to_multiset_remove;
    vstd::seq_lib::to_multiset_len(s1);
    vstd::seq_lib::to_multiset_len(s2);
    assert(s1.len() == s2.len());
    if s1.len() > 0 {
        assert(s2.to_multiset().count(s1[0]) > 0);
        assert(s2.contains(s1[0]));
        let j = choose|j: int| 0 <= j < s2.len() && s2[j] == s1[0];
        assert(s1.to_multiset().count(s2[0]) > 0);
        assert(s1.contains(s2[0]));
        let i = choose|i: int| 0 <= i < s1.len() && s1[i] == s2[0];
        if i > 0 {
            assert(text_le(s1[0], s1[i]));
        } else {
            lemma_text_le_reflexive(s1[0]);
        }
        if j > 0 {
            assert(text_le(s2[0], s2[j]));
        } else {
            lemma_text_le_reflexive(s2[0]);
        }
        lemma_text_le_antisymmetric(s1[0], s2[0]);
        assert(s1.remove(0) =~= s1.drop_first());
        assert(s2.remove(0) =~= s2.drop_first());
        assert(s1.drop_first().to_multiset() == s2.drop_first().to_multiset());
        assert(is_sorted_texts(s1.drop_first())) by {
            assert forall|a: int, b: int| 0 <= a < b < s1.drop_first().len() implies text_le(
                #[trigger] s1.drop_first()[a],
                #[trigger] s1.drop_first()[b],
            ) by {
                assert(s1.drop_first()[a] == s1[a + 1] && s1.drop_first()[b] == s1[b + 1]);
            }
        }
        assert(is_sorted_texts(s2.drop_first())) by {
            assert forall|a: int, b: int| 0 <= a < b < s2.drop_first().len() implies text_le(
                #[trigger] s2.drop_first()[a],
                #[trigger] s2.drop_first()[b],
            ) by {
                assert(s2.drop_first()[a] == s2[a + 1] && s2.drop_first()[b] == s2[b + 1]);
            }
        }
        lemma_sorted_arrangement_unique(s1.drop_first(), s2.drop_first());
        assert(s1 =~= seq![s1[0]] + s1.drop_first());
        assert(s2 =~= seq![s2[0]] + s2.drop_first());
    }
}

/// Whether `a` comes before `b` or equals it, in code point order.
fn text_less_or_equal(a: &str, b: &str) -> (r: bool)
    ensures
        r == text_le(a@, b@),
{
    let x = chars_of(a);
    let y = chars_of(b);
    let mut i: usize = 0;
    assert(x@.skip(0) =~= x@ && y@.skip(0) =~= y@);
    while i < x.len()
        invariant
            x@ == a@,
            y@ == b@,
            i <= x@.len(),
            i <= y@.len(),
            text_le(a@, b@) == text_le(x@.skip(i as int), y@.skip(i as int)),
        decreases x@.len() - i,
    {
        if i >= y.len() {
            return false;
        }
        proof {
            assert(x@.skip(i as int)[0] == x@[i as int] && y@.skip(i as int)[0] == y@[i as int]);
            assert(x@.skip(i as int).drop_first() =~= x@.skip(i + 1));
            assert(y@.skip(i as int).drop_first() =~= y@.skip(i + 1));
        }
        if x[i] != y[i] {
            return x[i] < y[i];
        }
        i = i + 1;
    }
    true
}

/// Sorts texts in code point order.
pub fn sort_texts(items: Vec<String>) -> (r: Vec<String>)
    ensures
        view_lines(r@).to_multiset() == view_lines(items@).to_multiset(),
        is_sorted_texts(view_lines(r@)),
{
    let mut items = items;
    let ghost all = view_lines(items@);
    let mut sorted: Vec<String> = Vec::new();
    assert(view_lines(sorted@).to_multiset().add(view_lines(items@).to_multiset()) =~= all.to_multiset()) by {
        broadcast use vstd::multiset::group_multiset_axioms;
    }
    while items.len() > 0
        invariant
            view_lines(sorted@).to_multiset().add(view_lines(items@).to_multiset()) == all.to_multiset(),
            is_sorted_texts(view_lines(sorted@)),
        decreases items@.len(),
    {
        let ghost before_items = view_lines(items@);
        let ghost before_sorted = view_lines(sorted@);
        let item = items.pop().unwrap();
        proof {
            assert(before_items =~= view_lines(items@).push(item@));
            vstd::seq_lib::to_multiset_build(view_lines(items@), item@);
        }
        let mut p: usize = 0;
        while p < sorted.len() && text_less_or_equal(sorted[p].as_str(), item.as_str())
            invariant
                p <= sorted@.len(),
                view_lines(sorted@) == before_sorted,
                forall|k: int| 0 <= k < p ==> text_le(#[trigger] before_sorted[k], item@),
            decreases sorted@.len() - p,
        {
            p = p + 1;
        }
        proof {
            if p < sorted@.len() {
                assert(!text_le(before_sorted[p as int], item@));
                lemma_text_le_total(before_sorted[p as int], item@);
            }
        }
        sorted.insert(p, item);
        proof {
            let s = view_lines(sorted@);
            assert(s =~= before_sorted.insert(p as int, item@));
            vstd::seq_lib::to_multiset_insert(before_sorted, p as int, item@);
            assert(s.to_multiset().add(view_lines(items@).to_multiset()) =~= all.to_multiset()) by {
                broadcast use vstd::multiset::group_multiset_axioms;
            }
            assert forall|a: int, b: int| 0 <= a < b < s.len() implies text_le(#[trigger] s[a], #[trigger] s[b]) by {
                if b < p {
                    assert(s[a] == before_sorted[a] && s[b] == before_sorted[b]);
                } else if b == p {
                    assert(s[a] == before_sorted[a]);
                } else if a == p {
                    assert(s[b] == before_sorted[b - 1]);
                    if b - 1 > p {
                        assert(text_le(before_sorted[p as int], before_sorted[b - 1]));
                        lemma_text_le_transitive(item@, before_sorted[p as int], before_sorted[b - 1]);
                    }
                } else if a < p {
                    assert(s[a] == before_sorted[a] && s[b] == before_sorted[b - 1]);
                } else {
                    assert(s[a] == before_sorted[a - 1] && s[b] == before_sorted[b - 1]);
                }
            }
        }
    }
    assert(view_lines(items@).to_multiset() =~= Multiset::<Seq<char>>::empty()) by {
        broadcast use vstd::multiset::group_multiset_axioms;
    }
    assert(view_lines(sorted@).to_multiset() =~= all.to_multiset()) by {
        broadcast use vstd::multiset::group_multiset_axioms;
    }
    sorted
}

/// Joins texts with `", "` between each two of them.
pub(crate) fn join_texts(parts: &Vec<String>) -> (r: String)
    ensures
        r@ == joined_by(view_lines(parts@), comma()),
{
    let ghost pv = view_lines(parts@);
    let mut result = String::new();
    let mut m: usize = 0;
    assert(pv.take(0) =~= Seq::<Seq<char>>::empty());
    while m < parts.len()
        invariant
            m <= parts@.len(),
            pv == view_lines(parts@),
            result@ == joined_by(pv.take(m as int), comma()),
        decreases parts@.len() - m,
    {
        proof {
            assert(pv.take(m + 1).drop_last() =~= pv.take(m as int));
            if m == 0 {
                assert(pv.take(1) =~= seq![pv[0]]);
            }
        }
        if m > 0 {
            <String as vstd::string::StringExecFns>::append(&mut result, ", ");
            proof {
                reveal_strlit(", ");
            }
        }
        <String as vstd::string::StringExecFns>::append(&mut result, parts[m].as_str());
        assert(result@ =~= joined_by(pv.take(m + 1), comma()));
        m = m + 1;
    }
    assert(pv.take(parts@.len() as int) =~= pv);
    result
}

/// `sorted` holds the texts of `items` in sorted order.
pub open spec fn is_sorted_arrangement(items: Seq<Seq<char>>, sorted: Seq<Seq<char>>) -> bool {
    &&& sorted.to_multiset() == items.to_multiset()
    &&& is_sorted_texts(sorted)
}

/// The texts of `items` in sorted order (unique: see `lemma_sorted_arrangement_unique`).
pub open spec fn sorted_texts(items: Seq<Seq<char>>) -> Seq<Seq<char>> {
    choose|s: Seq<Seq<char>>| is_sorted_arrangement(items, s)
}

/// `None` for no texts, else the texts sorted and joined with `", "`.
pub open spec fn joined_sorted(items: Seq<Seq<char>>) -> Option<Seq<char>> {
    if items.len() == 0 { None } else { Some(joined_by(sorted_texts(items), comma())) }
}

/// The text of an optional string.
pub open spec fn opt_text(r: Option<String>) -> Option<Seq<char>> {
    match r {
        Some(s) => Some(s@),
        None => None,
    }
}

/// An optional text as a sequence of none or one text.
pub open spec fn opt_seq(t: Option<Seq<char>>) -> Seq<Seq<char>> {
    match t {
        Some(x) => seq![x],
        None => seq![],
    }
}

/// Returns `Some` with the texts sorted and joined, or `None` when there are none.
fn sorted_and_joined(items: Vec<String>) -> (r: Option<String>)
    ensures
        opt_text(r) == joined_sorted(view_lines(items@)),
{
    if items.len() == 0 {
        return None;
    }
    let ghost iv = view_lines(items@);
    let sorted = sort_texts(items);
    let text = join_texts(&sorted);
    proof {
        let sv = view_lines(sorted@);
        assert(is_sorted_arrangement(iv, sv));
        let c = sorted_texts(iv);
        assert(is_sorted_arrangement(iv, c));
        lemma_sorted_arrangement_unique(c, sv);
    }
    Some(text)
}

/// The text of a key and value entry: `key=value`, with an empty value for none.
pub open spec fn entry_text(entry: (String, Option<String>)) -> Seq<char> {
    entry.0@ + seq!['='] + match entry.1 {
        Some(v) => v@,
        None => seq![],
    }
}

/// The texts of the entries, in order.
pub open spec fn entry_texts(entries: Seq<(String, Option<String>)>) -> Seq<Seq<char>> {
    entries.map_values(|e: (String, Option<String>)| entry_text(e))
}

/// The text of a key and value map: its entries sorted and joined; `None` for no map or an empty one.
pub open spec fn map_text(entries: Option<Seq<(String, Option<String>)>>) -> Option<Seq<char>> {
    match entries {
        Some(e) => joined_sorted(entry_texts(e)),
        None => None,
    }
}

/// The entries of an optional map.
pub open spec fn opt_entries(m: Option<&Vec<(String, Option<String>)>>) -> Option<Seq<(String, Option<String>)>> {
    match m {
        Some(e) => Some(e@),
        None => None,
    }
}

/// Creates the text of a key and value map (each value already rendered as text, where it has
/// one): its `key=value` entries sorted and joined with `", "`, or `None` for no map or an empty one.
pub fn map_to_string(selector: Option<&Vec<(String, Option<String>)>>) -> (r: Option<String>)
    ensures
        opt_text(r) == map_text(opt_entries(selector)),
{
    let entries = match selector {
        Some(e) => e,
        None => return None,
    };
    let mut items: Vec<String> = Vec::new();
    let mut i: usize = 0;
    while i < entries.len()
        invariant
            i <= entries@.len(),
            view_lines(items@) == entry_texts(entries@.take(i as int)),
        decreases entries@.len() - i,
    {
        let (key, value) = &entries[i];
        let mut text = key.clone();
        crate::strings::push_char(&mut text, '=');
        match value {
            Some(v) => <String as vstd::string::StringExecFns>::append(&mut text, v.as_str()),
            None => {},
        }
        assert(text@ == entry_text(entries@[i as int]));
        let ghost before = items@;
        items.push(text);
        proof {
            assert(entries@.take(i + 1) =~= entries@.take(i as int).push(entries@[i as int]));
            assert(view_lines(items@) =~= view_lines(before).push(entry_text(entries@[i as int])));
            assert(entry_texts(entries@.take(i + 1)) =~= entry_texts(entries@.take(i as int)).push(entry_text(entries@[i as int])));
        }
        i = i + 1;
    }
    assert(entries@.take(entries@.len() as int) =~= entries@);
    sorted_and_joined(items)
}

/// The texts present among `values`, in order.
pub open spec fn present_texts(values: Seq<Option<String>>) -> Seq<Seq<char>>
    decreases values.len(),
{
    if values.len() == 0 {
        seq![]
    } else {
        let rest = present_texts(values.drop_last());
        match values.last() {
            Some(v) => rest.push(v@),
            None => rest,
        }
    }
}

/// The texts present among optional values joined with `", "`; `None` for no values or no text.
pub open spec fn join_text(values: Option<Seq<Option<String>>>) -> Option<Seq<char>> {
    match values {
        Some(v) => if present_texts(v).len() == 0 { None } else { Some(joined_by(present_texts(v), comma())) },
        None => None,
    }
}

/// The values of an optional list.
pub open spec fn opt_values(m: Option<&Vec<Option<String>>>) -> Option<Seq<Option<String>>> {
    match m {
        Some(v) => Some(v@),
        None => None,
    }
}

/// Joins the texts present among mapped values with `", "`; `None` when there are no values or
/// none of them has a text.
pub fn map_join(values: Option<&Vec<Option<String>>>) -> (r: Option<String>)
    ensures
        opt_text(r) == join_text(opt_values(values)),
{
    let values = match values {
        Some(v) => v,
        None => return None,
    };
    let mut filtered: Vec<String> = Vec::new();
    let mut i: usize = 0;
    assert(values@.take(0) =~= Seq::<Option<String>>::empty());
    while i < values.len()
        invariant
            i <= values@.len(),
            view_lines(filtered@) == present_texts(values@.take(i as int)),
        decreases values@.len() - i,
    {
        proof {
            assert(values@.take(i + 1).drop_last() =~= values@.take(i as int));
        }
        match &values[i] {
            Some(v) => {
                let ghost before = filtered@;
                filtered.push(v.clone());
                assert(view_lines(filtered@) =~= view_lines(before).push(v@));
            },
            None => {},
        }
        i = i + 1;
    }
    assert(values@.take(values@.len() as int) =~= values@);
    if filtered.len() == 0 {
        return None;
    }
    Some(join_texts(&filtered))
}

/// A label selector, its values already rendered as text: the entries of its `matchLabels` map
/// (when that is a map), the rendered `matchExpressions` elements (when that is a list), and all
/// of its own entries.
pub struct Selector {
    pub match_labels: Option<Vec<(String, Option<String>)>>,
    pub match_expressions: Option<Vec<Option<String>>>,
    pub entries: Vec<(String, Option<String>)>,
}

/// The texts a selector is made of: the text of its labels and of its expressions, or the text of
/// all its entries when it has neither.
pub open spec fn selector_items(sel: Selector) -> Seq<Seq<char>> {
    let labels = match sel.match_labels {
        Some(l) => Some(l@),
        None => None,
    };
    let expressions = match sel.match_expressions {
        Some(e) => Some(e@),
        None => None,
    };
    let items = opt_seq(map_text(labels)) + opt_seq(join_text(expressions));
    if items.len() == 0 { opt_seq(map_text(Some(sel.entries@))) } else { items }
}

/// Creates the text of a selector: the texts of its labels and of its expressions (or of all its
/// entries when it has neither) sorted and joined with `", "`.
pub fn selector(selector_map: Option<&Selector>) -> (r: Option<String>)
    ensures
        opt_text(r) == match selector_map {
            Some(sel) => joined_sorted(selector_items(*sel)),
            None => None,
        },
{
    let sel = match selector_map {
        Some(s) => s,
        None => return None,
    };
    let mut items: Vec<String> = Vec::new();
    let labels = map_to_string(sel.match_labels.as_ref());
    let expressions = map_join(sel.match_expressions.as_ref());
    match labels {
        Some(l) => items.push(l),
        None => {},
    }
    match expressions {
        Some(e) => items.push(e),
        None => {},
    }
    assert(view_lines(items@) =~= opt_seq(opt_text(labels)) + opt_seq(opt_text(expressions)));
    if items.len() == 0 {
        match map_to_string(Some(&sel.entries)) {
            Some(all) => items.push(all),
            None => {},
        }
        assert(view_lines(items@) =~= selector_items(*sel));
    } else {
        assert(view_lines(items@) =~= selector_items(*sel));
    }
    sorted_and_joined(items)
}

/// The rolling update settings of an update strategy, each value rendered as text where present.
pub struct RollingUpdate {
    pub max_unavailable: Option<String>,
    pub max_surge: Option<String>,
    pub partition: Option<String>,
}

/// An update strategy: its type and its rolling update settings, values rendered as text.
pub struct UpdateStrategy {
    pub kind: Option<String>,
    pub rolling_update: Option<RollingUpdate>,
}

/// A present value followed by `suffix`, as a sequence of none or one text.
pub open spec fn with_suffix(value: Option<String>, suffix: Seq<char>) -> Seq<Seq<char>> {
    match value {
        Some(v) => seq![v@ + suffix],
        None => seq![],
    }
}

/// The parts of an update strategy's text: its type, then the maximum unavailable, the maximum
/// surge and the partition of its rolling update, each where present.
pub open spec fn strategy_parts(strategy: UpdateStrategy) -> Seq<Seq<char>> {
    let first = opt_seq(opt_text(strategy.kind));
    match strategy.rolling_update {
        Some(r) => first + with_suffix(r.max_unavailable, " max unavailable"@) + with_suffix(r.max_surge, " max surge"@)
            + match r.partition {
            Some(p) => seq!["partition "@ + p@],
            None => seq![],
        },
        None => first,
    }
}

/// Appends `suffix` to a present value.
fn push_suffixed(parts: &mut Vec<String>, value: &Option<String>, suffix: &str)
    ensures
        view_lines(final(parts)@) == view_lines(old(parts)@) + with_suffix(*value, suffix@),
{
    match value {
        Some(v) => {
            let mut text = v.clone();
            <String as vstd::string::StringExecFns>::append(&mut text, suffix);
            parts.push(text);
        },
        None => {},
    }
    assert(view_lines(parts@) =~= view_lines(old(parts)@) + with_suffix(*value, suffix@));
}

/// The text of an update strategy: its parts joined with `", "`, or `None` when it has none.
pub open spec fn strategy_text(strategy: UpdateStrategy) -> Option<Seq<char>> {
    if strategy_parts(strategy).len() == 0 { None } else { Some(joined_by(strategy_parts(strategy), comma())) }
}

/// Returns the update strategy as text: its parts joined with `", "`, or `None` when it has none.
pub fn update_strategy(strategy: Option<&UpdateStrategy>) -> (r: Option<String>)
    ensures
        opt_text(r) == match strategy {
            Some(s) => strategy_text(*s),
            None => None,
        },
{
    let strategy = match strategy {
        Some(s) => s,
        None => return None,
    };
    let mut parts: Vec<String> = Vec::new();
    push_suffixed(&mut parts, &strategy.kind, "");
    proof {
        reveal_strlit("");
        assert(with_suffix(strategy.kind, ""@) =~= opt_seq(opt_text(strategy.kind))) by {
            match strategy.kind {
                Some(v) => assert(v@ + ""@ =~= v@),
                None => {},
            }
        }
    }
    match &strategy.rolling_update {
        Some(rolling) => {
            push_suffixed(&mut parts, &rolling.max_unavailable, " max unavailable");
            push_suffixed(&mut parts, &rolling.max_surge, " max surge");
            match &rolling.partition {
                Some(p) => {
                    let mut text = String::from_str("partition ");
                    <String as vstd::string::StringExecFns>::append(&mut text, p.as_str());
                    parts.push(text);
                },
                None => {},
            }
        },
        None => {},
    }
    assert(view_lines(parts@) =~= strategy_parts(*strategy));
    if parts.len() == 0 {
        return None;
    }
    Some(join_texts(&parts))
}

} // verus!
