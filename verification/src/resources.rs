use vstd::prelude::*;

use crate::strings::push_char;

verus! {

/// Actions to apply to the resources list when it is refreshed next.
pub struct NextRefreshActions {
    pub highlight_item: Option<(String, String)>,
    pub apply_filter: Option<String>,
    pub apply_offset: Option<usize>,
    pub sort_info: Option<(usize, bool)>,
    pub clear_header_scope: bool,
}

impl NextRefreshActions {
    /// Creates new [`NextRefreshActions`] instance from the state of the list before it was left:
    /// the highlighted item (name and namespace), the filter, the scroll offset and the sort column
    /// with its direction.
    pub fn from_previous(
        highlighted: Option<(String, String)>,
        filter: Option<String>,
        offset: usize,
        sort_info: (usize, bool),
    ) -> (r: Self)
        ensures
            r.highlight_item == highlighted,
            r.apply_filter == filter,
            r.apply_offset == Some(offset),
            r.sort_info == Some(sort_info),
            !r.clear_header_scope,
    {
        NextRefreshActions {
            highlight_item: highlighted,
            apply_filter: filter,
            apply_offset: Some(offset),
            sort_info: Some(sort_info),
            clear_header_scope: false,
        }
    }

    /// Clears the [`NextRefreshActions`] object.
    pub fn clear(&mut self)
        ensures
            final(self).highlight_item is None,
            final(self).apply_filter is None,
            final(self).apply_offset == old(self).apply_offset,
            final(self).sort_info == old(self).sort_info,
            final(self).clear_header_scope == old(self).clear_header_scope,
    {
        self.highlight_item = None;
        self.apply_filter = None;
    }
}

/// Whether a resource kind lives in a namespace or in the whole cluster.
#[derive(Debug, Clone, Copy, PartialEq, Eq, Structural)]
pub enum Scope {
    Namespaced,
    Cluster,
}

/// The key under which a resources list is cached: `namespace/pods/kind` for the containers of a
/// namespaced resource, `namespace/kind/filter` for a namespaced kind, `kind/filter` otherwise (the
/// filter key is empty when there is no filter).
pub open spec fn cache_key(scope: Scope, kind: Seq<char>, namespace: Seq<char>, is_container: bool, filter: Seq<char>) -> Seq<char> {
    match (scope, is_container) {
        (Scope::Namespaced, true) => namespace + "/pods/"@ + kind,
        (Scope::Namespaced, false) => namespace + seq!['/'] + kind + seq!['/'] + filter,
        _ => kind + seq!['/'] + filter,
    }
}

/// Appends the characters of `s` to `text`.
fn push_str(text: &mut String, s: &str)
    ensures
        final(text)@ == old(text)@ + s@,
{
    <String as vstd::string::StringExecFns>::append(text, s);
}

/// Builds the key under which a resources list is cached (`filter_key` is the key of the resource
/// filter, if there is one).
pub fn build_cache_key(scope: Scope, kind: &str, namespace: &str, is_container: bool, filter_key: Option<&str>) -> (r: String)
    ensures
        r@ == cache_key(
            scope,
            kind@,
            namespace@,
            is_container,
            match filter_key {
                Some(f) => f@,
                None => Seq::<char>::empty(),
            },
        ),
{
    let filter = match filter_key {
        Some(f) => f,
        None => "",
    };
    let mut key = String::new();
    match (scope, is_container) {
        (Scope::Namespaced, true) => {
            push_str(&mut key, namespace);
            push_str(&mut key, "/pods/");
            push_str(&mut key, kind);
        },
        (Scope::Namespaced, false) => {
            push_str(&mut key, namespace);
            push_char(&mut key, '/');
            push_str(&mut key, kind);
            push_char(&mut key, '/');
            push_str(&mut key, filter);
        },
        _ => {
            push_str(&mut key, kind);
            push_char(&mut key, '/');
            push_str(&mut key, filter);
        },
    }
    proof {
        reveal_strlit("");
        reveal_strlit("/pods/");
    }
    assert(key@ =~= cache_key(scope, kind@, namespace@, is_container, match filter_key {
        Some(f) => f@,
        None => Seq::<char>::empty(),
    }));
    key
}

} // verus!
