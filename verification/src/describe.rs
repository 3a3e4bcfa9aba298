use vstd::prelude::*;
use vstd::string::StrSliceExecFns;

use crate::strings::{digits, push_char};
use crate::text::view_lines;
use crate::values::{comma, join_texts, joined_by};

verus! {

/// Kind used to style property value.
#[derive(Debug, Clone, Copy, PartialEq, Eq, Structural)]
pub enum ValueKind {
    String,
    Numeric,
    Boolean,
    Normal,
}

/// The characters that `char::to_uppercase` maps `c` to.
pub uninterp spec fn uppercase_of(c: char) -> Seq<char>;

/// Calls `char::to_uppercase` and collects its characters. The full Unicode case mapping is not
/// written out here: the result is named `uppercase_of`.
#[verifier::external_body]
fn char_uppercase(c: char) -> (r: String)
    ensures
        r@ == uppercase_of(c),
{
    c.to_uppercase().collect::<String>()
}

/// `value` with its first character replaced by `first` (just `first` for an empty `value`).
pub fn replace_first(first: String, value: &str) -> (r: String)
    ensures
        value@.len() == 0 ==> r@ == first@,
        value@.len() > 0 ==> r@ == first@ + value@.skip(1),
{
    let n = value.unicode_len();
    let mut r = first;
    if n > 1 {
        <String as vstd::string::StringExecFns>::append(&mut r, value.substring_char(1, n));
        assert(value@.subrange(1, n as int) =~= value@.skip(1));
    } else if n == 1 {
        assert(value@.skip(1) =~= Seq::<char>::empty());
        assert(first@ + value@.skip(1) =~= first@);
    }
    r
}

/// Returns `value` with its first letter in upper case.
pub fn uppercase_first_letter(value: &str) -> (r: String)
    ensures
        value@.len() == 0 ==> r@ == Seq::<char>::empty(),
        value@.len() > 0 ==> r@ == uppercase_of(value@[0]) + value@.skip(1),
{
    if value.unicode_len() == 0 {
        return String::new();
    }
    let first = char_uppercase(value.get_char(0));
    replace_first(first, value)
}

/// Decimal text of an integer (with a minus sign when negative).
pub open spec fn int_text(n: int) -> Seq<char> {
    if n < 0 { seq!['-'] + digits((-n) as nat) } else { digits(n as nat) }
}

/// Appends the decimal digits of `n` to `s`.
pub(crate) fn push_u64(s: &mut String, n: u64)
    ensures
        final(s)@ == old(s)@ + digits(n as nat),
    decreases n,
{
    if n >= 10 {
        push_u64(s, n / 10);
    }
    let d = (n % 10) as u8;
    push_char(s, (48 + d) as char);
    assert(final(s)@ =~= old(s)@ + digits(n as nat));
}

/// Appends the decimal text of `n` to `s`.
pub(crate) fn push_i64(s: &mut String, n: i64)
    ensures
        final(s)@ == old(s)@ + int_text(n as int),
{
    if n < 0 {
        push_char(s, '-');
        let m: u64 = if n == i64::MIN { 9223372036854775808u64 } else { (-n) as u64 };
        push_u64(s, m);
        assert(final(s)@ =~= old(s)@ + int_text(n as int));
    } else {
        push_u64(s, n as u64);
    }
}

/// A count read from a resource, or `default` when it is not there.
pub open spec fn count_or(value: Option<i64>, default: i64) -> int {
    match value {
        Some(v) => v as int,
        None => default as int,
    }
}

/// Counts joined with labels: `"{count} {label} | {count} {label} | ..."`.
pub open spec fn counts_text(parts: Seq<(int, Seq<char>)>) -> Seq<char>
    decreases parts.len(),
{
    if parts.len() == 0 {
        seq![]
    } else if parts.len() == 1 {
        int_text(parts[0].0) + seq![' '] + parts[0].1
    } else {
        counts_text(parts.drop_last()) + seq![' ', '|', ' '] + int_text(parts.last().0) + seq![' '] + parts.last().1
    }
}

/// Appends `"{count} {label}"` (with `" | "` before it when `first` is `false`).
fn push_count(s: &mut String, count: i64, label: &str, first: bool)
    ensures
        final(s)@ == old(s)@ + (if first { seq![] } else { seq![' ', '|', ' '] }) + int_text(count as int) + seq![' '] + label@,
{
    if !first {
        push_char(s, ' ');
        push_char(s, '|');
        push_char(s, ' ');
    }
    push_i64(s, count);
    push_char(s, ' ');
    <String as vstd::string::StringExecFns>::append(s, label);
    assert(final(s)@ =~= old(s)@ + (if first { seq![] } else { seq![' ', '|', ' '] }) + int_text(count as int) + seq![' '] + label@);
}

/// Builds `"{count} {label} | ..."` from counts that default to `0` (or to the given default).
fn counts_line(counts: &[(Option<i64>, i64)], labels: &[&str]) -> (r: String)
    requires
        counts@.len() == labels@.len(),
        counts@.len() >= 1,
    ensures
        r@ == counts_text(
            Seq::new(counts@.len(), |i: int| (count_or(counts@[i].0, counts@[i].1), labels@[i]@)),
        ),
{
    let ghost parts = Seq::new(counts@.len(), |i: int| (count_or(counts@[i].0, counts@[i].1), labels@[i]@));
    let mut s = String::new();
    let mut i: usize = 0;
    while i < counts.len()
        invariant
            i <= counts@.len(),
            counts@.len() == labels@.len(),
            counts@.len() >= 1,
            parts == Seq::new(counts@.len(), |i: int| (count_or(counts@[i].0, counts@[i].1), labels@[i]@)),
            s@ == counts_text(parts.take(i as int)),
        decreases counts@.len() - i,
    {
        let (value, default) = counts[i];
        let count = match value {
            Some(v) => v,
            None => default,
        };
        push_count(&mut s, count, labels[i], i == 0);
        proof {
            let t = parts.take(i + 1);
            assert(t.drop_last() =~= parts.take(i as int));
            assert(t.last() == parts[i as int]);
            if i == 0 {
                assert(parts.take(0) =~= Seq::<(int, Seq<char>)>::empty());
            }
        }
        i = i + 1;
    }
    assert(parts.take(counts@.len() as int) =~= parts);
    s
}

/// Daemon set pods summary from its status counts (each `0` when missing).
pub fn daemonset_pods(
    desired: Option<i64>,
    current: Option<i64>,
    ready: Option<i64>,
    available: Option<i64>,
    up_to_date: Option<i64>,
    misscheduled: Option<i64>,
) -> (r: Option<String>)
    ensures
        r is Some,
        r->0@ == counts_text(
            seq![
                (count_or(desired, 0), "desired"@),
                (count_or(current, 0), "current"@),
                (count_or(ready, 0), "ready"@),
                (count_or(available, 0), "available"@),
                (count_or(up_to_date, 0), "up-to-date"@),
                (count_or(misscheduled, 0), "misscheduled"@),
            ],
        ),
{
    let counts = [(desired, 0i64), (current, 0), (ready, 0), (available, 0), (up_to_date, 0), (misscheduled, 0)];
    let labels = ["desired", "current", "ready", "available", "up-to-date", "misscheduled"];
    let r = counts_line(&counts, &labels);
    assert(Seq::new(6, |i: int| (count_or(counts@[i].0, counts@[i].1), labels@[i]@)) =~= seq![
        (count_or(desired, 0), "desired"@),
        (count_or(current, 0), "current"@),
        (count_or(ready, 0), "ready"@),
        (count_or(available, 0), "available"@),
        (count_or(up_to_date, 0), "up-to-date"@),
        (count_or(misscheduled, 0), "misscheduled"@),
    ]);
    Some(r)
}

/// Deployment replicas summary from its spec and status (desired `1`, the others `0` when missing).
pub fn deployment_replicas(
    desired: Option<i64>,
    updated: Option<i64>,
    total: Option<i64>,
    available: Option<i64>,
    unavailable: Option<i64>,
) -> (r: Option<String>)
    ensures
        r is Some,
        r->0@ == counts_text(
            seq![
                (count_or(desired, 1), "desired"@),
                (count_or(updated, 0), "updated"@),
                (count_or(total, 0), "total"@),
                (count_or(available, 0), "available"@),
                (count_or(unavailable, 0), "unavailable"@),
            ],
        ),
{
    let counts = [(desired, 1i64), (updated, 0i64), (total, 0i64), (available, 0i64), (unavailable, 0i64)];
    let labels = ["desired", "updated", "total", "available", "unavailable"];
    let r = counts_line(&counts, &labels);
    assert(Seq::new(5, |i: int| (count_or(counts@[i].0, counts@[i].1), labels@[i]@)) =~= seq![
        (count_or(desired, 1), "desired"@),
        (count_or(updated, 0), "updated"@),
        (count_or(total, 0), "total"@),
        (count_or(available, 0), "available"@),
        (count_or(unavailable, 0), "unavailable"@),
    ]);
    Some(r)
}

/// Job status summary from its status counts (each `0` when missing).
pub fn job_status(
    active: Option<i64>,
    succeeded: Option<i64>,
    failed: Option<i64>,
    ready: Option<i64>,
    terminating: Option<i64>,
) -> (r: Option<String>)
    ensures
        r is Some,
        r->0@ == counts_text(
            seq![
                (count_or(active, 0), "active"@),
                (count_or(ready, 0), "ready"@),
                (count_or(succeeded, 0), "succeeded"@),
                (count_or(failed, 0), "failed"@),
                (count_or(terminating, 0), "terminating"@),
            ],
        ),
{
    let counts = [(active, 0i64), (ready, 0i64), (succeeded, 0i64), (failed, 0i64), (terminating, 0i64)];
    let labels = ["active", "ready", "succeeded", "failed", "terminating"];
    let r = counts_line(&counts, &labels);
    assert(Seq::new(5, |i: int| (count_or(counts@[i].0, counts@[i].1), labels@[i]@)) =~= seq![
        (count_or(active, 0), "active"@),
        (count_or(ready, 0), "ready"@),
        (count_or(succeeded, 0), "succeeded"@),
        (count_or(failed, 0), "failed"@),
        (count_or(terminating, 0), "terminating"@),
    ]);
    Some(r)
}

/// Replica set replicas summary from its spec and status (desired `1`, the others `0` when missing).
pub fn replicaset_replicas(
    current: Option<i64>,
    desired: Option<i64>,
    ready: Option<i64>,
    available: Option<i64>,
) -> (r: Option<String>)
    ensures
        r is Some,
        r->0@ == counts_text(
            seq![
                (count_or(current, 0), "current"@),
                (count_or(desired, 1), "desired"@),
                (count_or(ready, 0), "ready"@),
                (count_or(available, 0), "available"@),
            ],
        ),
{
    let counts = [(current, 0i64), (desired, 1i64), (ready, 0i64), (available, 0i64)];
    let labels = ["current", "desired", "ready", "available"];
    let r = counts_line(&counts, &labels);
    assert(Seq::new(4, |i: int| (count_or(counts@[i].0, counts@[i].1), labels@[i]@)) =~= seq![
        (count_or(current, 0), "current"@),
        (count_or(desired, 1), "desired"@),
        (count_or(ready, 0), "ready"@),
        (count_or(available, 0), "available"@),
    ]);
    Some(r)
}

/// Stateful set replicas summary from its spec and status (desired `1`, the others `0` when missing).
pub fn statefulset_replicas(
    desired: Option<i64>,
    current: Option<i64>,
    ready: Option<i64>,
    available: Option<i64>,
    updated: Option<i64>,
) -> (r: Option<String>)
    ensures
        r is Some,
        r->0@ == counts_text(
            seq![
                (count_or(desired, 1), "desired"@),
                (count_or(current, 0), "current"@),
                (count_or(ready, 0), "ready"@),
                (count_or(available, 0), "available"@),
                (count_or(updated, 0), "updated"@),
            ],
        ),
{
    let counts = [(desired, 1i64), (current, 0i64), (ready, 0i64), (available, 0i64), (updated, 0i64)];
    let labels = ["desired", "current", "ready", "available", "updated"];
    let r = counts_line(&counts, &labels);
    assert(Seq::new(5, |i: int| (count_or(counts@[i].0, counts@[i].1), labels@[i]@)) =~= seq![
        (count_or(desired, 1), "desired"@),
        (count_or(current, 0), "current"@),
        (count_or(ready, 0), "ready"@),
        (count_or(available, 0), "available"@),
        (count_or(updated, 0), "updated"@),
    ]);
    Some(r)
}


/// A section of the describe view: its content and its indentation.
pub enum SectionData<T, R, L> {
    Text(T, u16),
    Resources(R, u16),
    List(L, u16),
}

impl<T, R, L> SectionData<T, R, L> {
    /// The indentation of the section.
    pub open spec fn indent(&self) -> u16 {
        match self {
            SectionData::Text(_, i) => *i,
            SectionData::Resources(_, i) => *i,
            SectionData::List(_, i) => *i,
        }
    }

    /// `self` is `other` with the indentation `indent`: the same variant holding the same content.
    pub open spec fn reindented(&self, other: &Self, indent: u16) -> bool {
        match (self, other) {
            (SectionData::Text(a, i), SectionData::Text(b, _)) => a == b && *i == indent,
            (SectionData::Resources(a, i), SectionData::Resources(b, _)) => a == b && *i == indent,
            (SectionData::List(a, i), SectionData::List(b, _)) => a == b && *i == indent,
            _ => false,
        }
    }
}

/// Extension methods for a collection of sections.
pub trait SectionDataExt: Sized {
    /// The indentation of every section fits in `u16` after adding `indent` to it.
    spec fn indent_fits(&self, indent: u16) -> bool;

    /// The sections of `self` each indented by `indent` more than in `other`.
    spec fn indented_from(&self, other: &Self, indent: u16) -> bool;

    /// Sets `indent` for all sections in the collection.
    fn with_indent(self, indent: u16) -> (r: Self)
        requires
            self.indent_fits(indent),
        ensures
            r.indented_from(&self, indent),
    ;
}

impl<T, R, L> SectionDataExt for Vec<SectionData<T, R, L>> {
    open spec fn indent_fits(&self, indent: u16) -> bool {
        forall|i: int| 0 <= i < self@.len() ==> #[trigger] self@[i].indent() + indent <= u16::MAX
    }

    open spec fn indented_from(&self, other: &Self, indent: u16) -> bool {
        &&& self@.len() == other@.len()
        &&& forall|i: int| 0 <= i < self@.len() ==> #[trigger] self@[i].reindented(&other@[i], (other@[i].indent() + indent) as u16)
    }

    fn with_indent(self, indent: u16) -> (r: Self) {
        let ghost old_sections = self@;
        let mut sections = self;
        let mut result: Vec<SectionData<T, R, L>> = Vec::new();
        let mut rest = Vec::new();
        // Taking the sections out in reverse keeps each move a cheap `pop`.
        while sections.len() > 0
            invariant
                sections@ + rest@.reverse() == old_sections,
                forall|i: int| 0 <= i < old_sections.len() ==> #[trigger] old_sections[i].indent() + indent <= u16::MAX,
            decreases sections@.len(),
        {
            let ghost before = sections@;
            let s = sections.pop().unwrap();
            rest.push(s);
            proof {
                assert(sections@ + rest@.reverse() =~= before.drop_last() + seq![before.last()] + (rest@.drop_last()).reverse());
                assert(before =~= before.drop_last().push(before.last()));
            }
        }
        assert(rest@.reverse() =~= old_sections);
        while rest.len() > 0
            invariant
                result@.len() + rest@.len() == old_sections.len(),
                rest@.reverse() == old_sections.skip(result@.len() as int),
                forall|i: int| 0 <= i < old_sections.len() ==> #[trigger] old_sections[i].indent() + indent <= u16::MAX,
                forall|i: int| 0 <= i < result@.len() ==> #[trigger] result@[i].reindented(&old_sections[i], (old_sections[i].indent() + indent) as u16),
            decreases rest@.len(),
        {
            let ghost before = rest@;
            let ghost k = result@.len() as int;
            let s = rest.pop().unwrap();
            proof {
                assert(before.reverse()[0] == s);
                assert(old_sections[k] == s);
                assert(old_sections[k].indent() + indent <= u16::MAX);
            }
            let moved = match s {
                SectionData::Text(t, i) => SectionData::Text(t, i + indent),
                SectionData::Resources(t, i) => SectionData::Resources(t, i + indent),
                SectionData::List(t, i) => SectionData::List(t, i + indent),
            };
            result.push(moved);
            proof {
                assert(rest@.reverse() =~= old_sections.skip(k + 1)) by {
                    assert(before.reverse() =~= seq![s] + rest@.reverse());
                    assert(old_sections.skip(k + 1) =~= old_sections.skip(k).drop_first());
                    assert((seq![s] + rest@.reverse()).drop_first() =~= rest@.reverse());
                }
            }
        }
        result
    }
}

/// An entry of a node's address list: its type and its address, where these are strings.
pub struct NodeAddress {
    pub kind: Option<String>,
    pub address: Option<String>,
}

/// The address of the first entry whose type is `address_type` (`None` when there is no such entry
/// or its address is not a string).
pub open spec fn node_address(addresses: Seq<NodeAddress>, address_type: Seq<char>) -> Option<Seq<char>>
    decreases addresses.len(),
{
    if addresses.len() == 0 {
        None
    } else if addresses[0].kind.is_some() && addresses[0].kind.unwrap()@ == address_type {
        match addresses[0].address {
            Some(a) => Some(a@),
            None => None,
        }
    } else {
        node_address(addresses.drop_first(), address_type)
    }
}

/// Returns the address of the given type from a node's address list.
pub fn find_node_address(addresses: &[NodeAddress], address_type: &str) -> (r: Option<String>)
    ensures
        r.is_some() == node_address(addresses@, address_type@).is_some(),
        r.is_some() ==> r.unwrap()@ == node_address(addresses@, address_type@).unwrap(),
{
    let mut i: usize = 0;
    assert(addresses@.skip(0) =~= addresses@);
    while i < addresses.len()
        invariant
            i <= addresses@.len(),
            node_address(addresses@.skip(i as int), address_type@) == node_address(addresses@, address_type@),
        decreases addresses@.len() - i,
    {
        let entry = &addresses[i];
        proof {
            assert(addresses@.skip(i as int)[0] == *entry);
            assert(addresses@.skip(i as int).drop_first() =~= addresses@.skip(i + 1));
        }
        let matches = match &entry.kind {
            Some(k) => crate::strings::same_text(k.as_str(), address_type),
            None => false,
        };
        if matches {
            return match &entry.address {
                Some(a) => Some(a.clone()),
                None => None,
            };
        }
        i = i + 1;
    }
    None
}


/// The security settings of a pod's spec that its describe view shows, as read from the
/// resource: each is `None` when missing or not of the expected type; the supplemental groups
/// hold `None` for an item that is not an integer.
pub struct PodSecurityValues {
    pub run_as_user: Option<i64>,
    pub run_as_group: Option<i64>,
    pub run_as_non_root: Option<bool>,
    pub fs_group: Option<i64>,
    pub supplemental_groups: Option<Vec<Option<i64>>>,
    pub seccomp_type: Option<String>,
}

/// The decimal texts of the integer items of a supplemental groups list, in order.
pub open spec fn group_texts(g: Seq<Option<i64>>) -> Seq<Seq<char>>
    decreases g.len(),
{
    if g.len() == 0 {
        seq![]
    } else {
        let t = group_texts(g.drop_last());
        match g.last() {
            Some(n) => t.push(int_text(n as int)),
            None => t,
        }
    }
}

/// `"{label}{n}"` for a present integer, nothing otherwise.
pub open spec fn int_item(label: Seq<char>, value: Option<i64>) -> Seq<Seq<char>> {
    match value {
        Some(n) => seq![label + int_text(n as int)],
        None => seq![],
    }
}

/// The items of a pod security summary: `runAsUser=`, `runAsGroup=`, `runAsNonRoot=`, `fsGroup=`,
/// `supplementalGroups=` (the integer groups joined with `/`, left out when there are none) and
/// `seccomp=`, each only where its value is there.
pub open spec fn security_items(v: PodSecurityValues) -> Seq<Seq<char>> {
    let non_root = match v.run_as_non_root {
        Some(b) => seq!["runAsNonRoot="@ + (if b { "true"@ } else { "false"@ })],
        None => seq![],
    };
    let groups = match v.supplemental_groups {
        Some(g) => if group_texts(g@).len() > 0 {
            seq!["supplementalGroups="@ + joined_by(group_texts(g@), seq!['/'])]
        } else {
            seq![]
        },
        None => seq![],
    };
    let seccomp = match v.seccomp_type {
        Some(t) => seq!["seccomp="@ + t@],
        None => seq![],
    };
    int_item("runAsUser="@, v.run_as_user) + int_item("runAsGroup="@, v.run_as_group) + non_root + int_item(
        "fsGroup="@,
        v.fs_group,
    ) + groups + seccomp
}

/// Appends `"{label}{n}"` to `items` where `value` is there.
fn push_int_item(items: &mut Vec<String>, label: &str, value: Option<i64>)
    ensures
        view_lines(final(items)@) == view_lines(old(items)@) + int_item(label@, value),
{
    if let Some(n) = value {
        let mut s = String::new();
        <String as vstd::string::StringExecFns>::append(&mut s, label);
        push_i64(&mut s, n);
        items.push(s);
        assert(view_lines(items@) =~= view_lines(old(items)@) + int_item(label@, value));
    } else {
        assert(view_lines(items@) =~= view_lines(old(items)@) + int_item(label@, value));
    }
}

/// The integer items of `groups` joined with `/`; the flag tells whether there was any.
fn join_groups(groups: &Vec<Option<i64>>) -> (r: (String, bool))
    ensures
        r.0@ == joined_by(group_texts(groups@), seq!['/']),
        r.1 == (group_texts(groups@).len() > 0),
{
    let mut s = String::new();
    let mut any = false;
    let mut i: usize = 0;
    assert(groups@.take(0) =~= Seq::<Option<i64>>::empty());
    while i < groups.len()
        invariant
            i <= groups@.len(),
            s@ == joined_by(group_texts(groups@.take(i as int)), seq!['/']),
            any == (group_texts(groups@.take(i as int)).len() > 0),
        decreases groups@.len() - i,
    {
        let ghost t = group_texts(groups@.take(i as int));
        assert(groups@.take(i + 1).drop_last() =~= groups@.take(i as int));
        if let Some(n) = groups[i] {
            proof {
                assert(t.push(int_text(n as int)).drop_last() =~= t);
            }
            if any {
                push_char(&mut s, '/');
            }
            push_i64(&mut s, n);
            any = true;
        }
        i = i + 1;
    }
    assert(groups@.take(groups@.len() as int) =~= groups@);
    (s, any)
}

/// The one-line summary of a pod's security context: its items joined with `", "` (`None` when it
/// has none of them).
pub open spec fn security_context_text(v: PodSecurityValues) -> Option<Seq<char>> {
    if security_items(v).len() == 0 { None } else { Some(joined_by(security_items(v), comma())) }
}

/// Builds the summary of a pod's security context shown in its describe view (`None` when the
/// context is missing or has none of the items).
pub fn pod_security_context(values: Option<&PodSecurityValues>) -> (r: Option<String>)
    ensures
        match values {
            Some(v) => match security_context_text(*v) {
                Some(t) => r is Some && r->0@ == t,
                None => r is None,
            },
            None => r is None,
        },
{
    let values = match values {
        Some(v) => v,
        None => {
            return None;
        },
    };
    let mut items: Vec<String> = Vec::new();
    assert(view_lines(items@) =~= Seq::<Seq<char>>::empty());
    push_int_item(&mut items, "runAsUser=", values.run_as_user);
    push_int_item(&mut items, "runAsGroup=", values.run_as_group);
    let ghost before = view_lines(items@);
    if let Some(b) = values.run_as_non_root {
        let mut s = String::new();
        <String as vstd::string::StringExecFns>::append(&mut s, "runAsNonRoot=");
        <String as vstd::string::StringExecFns>::append(&mut s, if b { "true" } else { "false" });
        items.push(s);
        assert(view_lines(items@) =~= before.push(s@));
    }
    push_int_item(&mut items, "fsGroup=", values.fs_group);
    let ghost before = view_lines(items@);
    if let Some(groups) = &values.supplemental_groups {
        let (joined, any) = join_groups(groups);
        if any {
            let mut s = String::new();
            <String as vstd::string::StringExecFns>::append(&mut s, "supplementalGroups=");
            <String as vstd::string::StringExecFns>::append(&mut s, joined.as_str());
            items.push(s);
            assert(view_lines(items@) =~= before.push(s@));
        }
    }
    let ghost before = view_lines(items@);
    if let Some(t) = &values.seccomp_type {
        let mut s = String::new();
        <String as vstd::string::StringExecFns>::append(&mut s, "seccomp=");
        <String as vstd::string::StringExecFns>::append(&mut s, t.as_str());
        items.push(s);
        assert(view_lines(items@) =~= before.push(s@));
    }
    assert(view_lines(items@) =~= security_items(*values));
    if items.len() == 0 {
        None
    } else {
        Some(join_texts(&items))
    }
}


/// A secret or config map that a projected volume source refers to: its name where the source
/// has the key (as text, empty when null) and the text of its `optional` flag (empty when missing).
pub struct ProjectedRef {
    pub name: Option<String>,
    pub optional: String,
}

/// A source of a projected volume as its describe view reads it: the secret and config map it
/// refers to, whether it has a downward API part, and the text of its service account token's
/// expiration where the token has one.
pub struct ProjectedSource {
    pub secret: Option<ProjectedRef>,
    pub config_map: Option<ProjectedRef>,
    pub downward_api: bool,
    pub token_expiration_seconds: Option<String>,
}

/// A property of a volume: its label, its value and how the value is styled.
pub type TypedProperty = (&'static str, String, ValueKind);

/// A property as texts.
pub open spec fn property_view(p: TypedProperty) -> (Seq<char>, Seq<char>, ValueKind) {
    (p.0@, p.1@, p.2)
}

/// The properties of a referenced secret or config map: `label` with its name (where there is
/// one), then `Optional`.
pub open spec fn ref_properties(r: Option<ProjectedRef>, label: Seq<char>) -> Seq<(Seq<char>, Seq<char>, ValueKind)> {
    match r {
        Some(r) => (match r.name {
            Some(n) => seq![(label, n@, ValueKind::String)],
            None => seq![],
        }) + seq![("Optional"@, r.optional@, ValueKind::Boolean)],
        None => seq![],
    }
}

/// The properties of one projected source: its secret, its config map, `DownwardAPI` and
/// `TokenExpirationSeconds`, each where it is there.
pub open spec fn source_properties(s: ProjectedSource) -> Seq<(Seq<char>, Seq<char>, ValueKind)> {
    ref_properties(s.secret, "SecretName"@) + ref_properties(s.config_map, "ConfigMapName"@) + (if s.downward_api {
        seq![("DownwardAPI"@, "true"@, ValueKind::Boolean)]
    } else {
        seq![]
    }) + match s.token_expiration_seconds {
        Some(t) => seq![("TokenExpirationSeconds"@, t@, ValueKind::Numeric)],
        None => seq![],
    }
}

/// The properties of the sources, one source after another.
pub open spec fn sources_properties(sources: Seq<ProjectedSource>) -> Seq<(Seq<char>, Seq<char>, ValueKind)>
    decreases sources.len(),
{
    if sources.len() == 0 {
        seq![]
    } else {
        sources_properties(sources.drop_last()) + source_properties(sources.last())
    }
}

/// Appends the properties of a referenced secret or config map.
fn push_ref_properties(properties: &mut Vec<TypedProperty>, r: &Option<ProjectedRef>, label: &'static str)
    ensures
        final(properties)@.map_values(|p: TypedProperty| property_view(p)) == old(properties)@.map_values(
            |p: TypedProperty| property_view(p),
        ) + ref_properties(*r, label@),
{
    if let Some(r) = r {
        let ghost before = properties@.map_values(|p: TypedProperty| property_view(p));
        if let Some(name) = &r.name {
            properties.push((label, name.clone(), ValueKind::String));
        }
        properties.push(("Optional", r.optional.clone(), ValueKind::Boolean));
        assert(properties@.map_values(|p: TypedProperty| property_view(p)) =~= before + ref_properties(Some(*r), label@));
    } else {
        assert(properties@.map_values(|p: TypedProperty| property_view(p)) =~= old(properties)@.map_values(
            |p: TypedProperty| property_view(p),
        ) + ref_properties(*r, label@));
    }
}

/// Appends the properties of one projected source.
fn push_source_properties(properties: &mut Vec<TypedProperty>, source: &ProjectedSource)
    ensures
        final(properties)@.map_values(|p: TypedProperty| property_view(p)) == old(properties)@.map_values(
            |p: TypedProperty| property_view(p),
        ) + source_properties(*source),
{
    let ghost before = properties@.map_values(|p: TypedProperty| property_view(p));
    push_ref_properties(properties, &source.secret, "SecretName");
    push_ref_properties(properties, &source.config_map, "ConfigMapName");
    let ghost mid = properties@.map_values(|p: TypedProperty| property_view(p));
    if source.downward_api {
        properties.push(("DownwardAPI", "true".to_string(), ValueKind::Boolean));
    }
    let ghost downward = if source.downward_api {
        seq![("DownwardAPI"@, "true"@, ValueKind::Boolean)]
    } else {
        seq![]
    };
    assert(properties@.map_values(|p: TypedProperty| property_view(p)) =~= mid + downward);
    let ghost mid2 = properties@.map_values(|p: TypedProperty| property_view(p));
    if let Some(t) = &source.token_expiration_seconds {
        properties.push(("TokenExpirationSeconds", t.clone(), ValueKind::Numeric));
    }
    let ghost token = match &source.token_expiration_seconds {
        Some(t) => seq![("TokenExpirationSeconds"@, t@, ValueKind::Numeric)],
        None => seq![],
    };
    assert(properties@.map_values(|p: TypedProperty| property_view(p)) =~= mid2 + token);
    assert(properties@.map_values(|p: TypedProperty| property_view(p)) =~= before + source_properties(*source));
}

/// The properties of a projected volume: `Type` = `Projected`, then those of each of its sources.
pub fn projected_properties(sources: Option<&Vec<ProjectedSource>>) -> (r: Vec<TypedProperty>)
    ensures
        r@.map_values(|p: TypedProperty| property_view(p)) == seq![("Type"@, "Projected"@, ValueKind::String)] + match sources {
            Some(s) => sources_properties(s@),
            None => seq![],
        },
{
    let mut properties: Vec<TypedProperty> = Vec::new();
    properties.push(("Type", "Projected".to_string(), ValueKind::String));
    let ghost head = seq![("Type"@, "Projected"@, ValueKind::String)];
    assert(properties@.map_values(|p: TypedProperty| property_view(p)) =~= head);
    if let Some(sources) = sources {
        let mut i: usize = 0;
        assert(sources@.take(0) =~= Seq::<ProjectedSource>::empty());
        assert(head + sources_properties(sources@.take(0)) =~= head);
        while i < sources.len()
            invariant
                i <= sources@.len(),
                head == seq![("Type"@, "Projected"@, ValueKind::String)],
                properties@.map_values(|p: TypedProperty| property_view(p)) == head + sources_properties(sources@.take(i as int)),
            decreases sources@.len() - i,
        {
            let source = &sources[i];
            push_source_properties(&mut properties, source);
            proof {
                assert(sources@.take(i + 1).drop_last() =~= sources@.take(i as int));
                assert(sources@.take(i + 1).last() == *source);
                assert(properties@.map_values(|p: TypedProperty| property_view(p)) =~= head + sources_properties(sources@.take(i + 1)));
            }
            i = i + 1;
        }
        assert(sources@.take(sources@.len() as int) =~= sources@);
    }
    properties
}

} // verus!
