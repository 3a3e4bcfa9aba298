use vstd::prelude::*;
use vstd::string::StrSliceExecFns;

use crate::strings::{ascii_lower, push_char, to_ascii_lowercase};

verus! {

/// The character that encloses a description in a list row.
pub open spec fn separator() -> char {
    '\u{241d}'
}

/// `n` spaces.
pub open spec fn spaces(n: nat) -> Seq<char> {
    Seq::new(n, |i: int| ' ')
}

/// The first `n` characters of `s` (all of it when it is shorter).
pub open spec fn truncated(s: Seq<char>, n: nat) -> Seq<char> {
    if n < s.len() { s.take(n as int) } else { s }
}

/// Number of characters of `s` other than the description separator.
pub open spec fn visible_width(s: Seq<char>) -> nat
    decreases s.len(),
{
    if s.len() == 0 {
        0
    } else {
        visible_width(s.drop_last()) + if s.last() != separator() { 1nat } else { 0 }
    }
}

/// `pat` occurs in `text` at index `i`.
pub open spec fn occurs_in_at(text: Seq<char>, pat: Seq<char>, i: int) -> bool {
    0 <= i && i + pat.len() <= text.len() && text.subrange(i, i + pat.len()) == pat
}

/// Returns the first `n` characters of `s` (all of it when it is shorter).
pub fn truncate(s: &str, n: usize) -> (r: String)
    ensures
        r@ == truncated(s@, n as nat),
{
    let len = s.unicode_len();
    let end = if n < len { n } else { len };
    let r = <String as vstd::string::StringExecFns>::from_str(s.substring_char(0, end));
    proof {
        if n >= len {
            assert(s@.subrange(0, len as int) =~= s@);
        }
    }
    r
}

/// Appends `n` spaces to `text`.
pub(crate) fn push_spaces(text: &mut String, n: usize)
    ensures
        final(text)@ == old(text)@ + spaces(n as nat),
{
    let mut i: usize = 0;
    while i < n
        invariant
            i <= n,
            text@ == old(text)@ + spaces(i as nat),
        decreases n - i,
    {
        push_char(text, ' ');
        i = i + 1;
        assert(text@ =~= old(text)@ + spaces(i as nat));
    }
}

/// Appends the characters of `s` to `text`.
fn push_text(text: &mut String, s: &str)
    ensures
        final(text)@ == old(text)@ + s@,
{
    <String as vstd::string::StringExecFns>::append(text, s);
}

/// Returns `true` when `pat` occurs in `text` at index `i`.
fn occurs_at_index(text: &Vec<char>, pat: &Vec<char>, i: usize) -> (r: bool)
    requires
        i + pat@.len() <= text@.len(),
    ensures
        r == occurs_in_at(text@, pat@, i as int),
{
    let mut k: usize = 0;
    let n = text.len();
    while k < pat.len()
        invariant
            k <= pat@.len(),
            n == text@.len(),
            i + pat@.len() <= text@.len(),
            text@.subrange(i as int, i + k) == pat@.take(k as int),
        decreases pat@.len() - k,
    {
        if text[i + k] != pat[k] {
            assert(text@.subrange(i as int, i + pat@.len())[k as int] != pat@[k as int]);
            return false;
        }
        assert(text@.subrange(i as int, i + k + 1) =~= text@.subrange(i as int, i + k).push(text@[i + k]));
        assert(pat@.take(k + 1) =~= pat@.take(k as int).push(pat@[k as int]));
        k = k + 1;
    }
    assert(pat@.take(pat@.len() as int) =~= pat@);
    true
}

/// Returns `true` if `pattern` occurs in `text`.
pub fn contains_text(text: &str, pattern: &str) -> (r: bool)
    ensures
        r == exists|i: int| occurs_in_at(text@, pattern@, i),
{
    let chars = crate::strings::chars_of(text);
    let pat = crate::strings::chars_of(pattern);
    if pat.len() > chars.len() {
        assert forall|i: int| !occurs_in_at(chars@, pat@, i) by {}
        return false;
    }
    let last = chars.len() - pat.len();
    let mut i: usize = 0;
    loop
        invariant
            i <= last,
            last + pat@.len() == chars@.len(),
            chars@ == text@,
            pat@ == pattern@,
            forall|j: int| 0 <= j < i ==> !occurs_in_at(chars@, pat@, j),
        decreases last - i,
    {
        if occurs_at_index(&chars, &pat, i) {
            assert(occurs_in_at(text@, pattern@, i as int));
            return true;
        }
        if i == last {
            assert forall|j: int| !occurs_in_at(chars@, pat@, j) by {
                if 0 <= j && j + pat@.len() <= chars@.len() {
                    assert(j <= last);
                }
            }
            return false;
        }
        i = i + 1;
    }
}

/// Filter pattern item.
pub struct PatternItem {
    value: String,
    lowercase_value: String,
    sort_value: Option<String>,
    icon: Option<&'static str>,
    is_fixed: bool,
}

/// The parts of a pattern item that its behaviour depends on.
pub struct PatternItemView {
    pub value: Seq<char>,
    pub sort_value: Option<Seq<char>>,
    pub icon: Option<Seq<char>>,
    pub is_fixed: bool,
}

impl View for PatternItem {
    type V = PatternItemView;

    closed spec fn view(&self) -> PatternItemView {
        PatternItemView {
            value: self.value@,
            sort_value: match self.sort_value {
                Some(s) => Some(s@),
                None => None,
            },
            icon: match self.icon {
                Some(i) => Some(i@),
                None => None,
            },
            is_fixed: self.is_fixed,
        }
    }
}

/// Width left for the value of an item with `icon` in a row of `width` characters.
pub open spec fn text_width(icon: Option<Seq<char>>, width: usize) -> usize {
    match icon {
        Some(i) => if width >= i.len() + 1 { (width - i.len() - 1) as usize } else { 0 },
        None => width,
    }
}

/// The icon suffix of a row: a space and the icon, if any.
pub open spec fn icon_suffix(icon: Option<Seq<char>>) -> Seq<char> {
    match icon {
        Some(i) => seq![' '] + i,
        None => seq![],
    }
}

/// The row text of an item: its value cut to the width left by the icon, padded with spaces to that
/// width, then the icon.
pub open spec fn row_text(item: PatternItemView, width: usize) -> Seq<char> {
    let tw = text_width(item.icon, width);
    let vw = visible_width(item.value);
    let padding = if tw >= vw { (tw - vw) as nat } else { 0 };
    truncated(item.value, tw as nat) + spaces(padding) + icon_suffix(item.icon)
}

/// The row text of an item with a description: as [`row_text`], with the description (cut to fit
/// the padding, one character shorter) right-aligned in the padding between separators.
pub open spec fn row_text_with_description(item: PatternItemView, width: usize, description: Seq<char>) -> Seq<char> {
    let tw = text_width(item.icon, width);
    let vw = visible_width(item.value);
    let padding = if tw >= vw { (tw - vw) as nat } else { 0 };
    let descr = truncated(description, if padding >= 1 { (padding - 1) as nat } else { 0 });
    let middle = if descr.len() == 0 {
        spaces(padding)
    } else {
        spaces(if padding >= descr.len() { (padding - descr.len()) as nat } else { 0 }) + seq![separator()] + descr + seq![
            separator(),
        ]
    };
    truncated(item.value, tw as nat) + middle + icon_suffix(item.icon)
}

impl PatternItem {
    /// The lower-case copy is the ASCII lower-case form of the value.
    pub closed spec fn wf(&self) -> bool {
        self.lowercase_value@ == ascii_lower(self.value@)
    }

    /// Creates new fixed [`PatternItem`] instance.
    pub fn fixed(value: String) -> (r: Self)
        ensures
            r.wf(),
            r@ == (PatternItemView { value: value@, sort_value: None, icon: None, is_fixed: true }),
    {
        let lowercase_value = to_ascii_lowercase(value.as_str());
        PatternItem { value, lowercase_value, sort_value: None, icon: None, is_fixed: true }
    }

    /// Creates new [`PatternItem`] instance for a value taken from the history.
    pub fn from_history(value: &str) -> (r: Self)
        ensures
            r.wf(),
            r@ == (PatternItemView { value: value@, sort_value: None, icon: None, is_fixed: false }),
    {
        PatternItem {
            value: value.to_owned(),
            lowercase_value: to_ascii_lowercase(value),
            sort_value: None,
            icon: None,
            is_fixed: false,
        }
    }

    /// Returns the pattern item value, consuming the item.
    pub fn into_value(self) -> (r: String)
        ensures
            r@ == self@.value,
    {
        self.value
    }

    /// Returns pattern item value.
    pub fn value(&self) -> (r: &str)
        ensures
            r@ == self@.value,
    {
        self.value.as_str()
    }

    /// Returns `true` if pattern item is fixed.
    pub fn is_fixed(&self) -> (r: bool)
        ensures
            r == self@.is_fixed,
    {
        self.is_fixed
    }

    /// Returns pattern item icon.
    pub fn icon(&self) -> (r: Option<&str>)
        ensures
            match r {
                Some(i) => self@.icon == Some(i@),
                None => self@.icon is None,
            },
    {
        match self.icon {
            Some(i) => Some(i),
            None => None,
        }
    }

    /// Sets new icon value.
    pub fn set_icon(&mut self, icon: Option<&'static str>)
        requires
            old(self).wf(),
        ensures
            final(self).wf(),
            final(self)@ == (PatternItemView {
                icon: match icon {
                    Some(i) => Some(i@),
                    None => None,
                },
                ..old(self)@
            }),
    {
        self.icon = icon;
    }

    /// Sets sort value.
    pub fn set_sort_value(&mut self, sort_value: Option<String>)
        requires
            old(self).wf(),
        ensures
            final(self).wf(),
            final(self)@ == (PatternItemView {
                sort_value: match sort_value {
                    Some(s) => Some(s@),
                    None => None,
                },
                ..old(self)@
            }),
    {
        self.sort_value = sort_value;
    }

    fn get_text_width(&self, width: usize) -> (r: usize)
        ensures
            r == text_width(self@.icon, width),
    {
        match self.icon {
            Some(i) => {
                let n = i.unicode_len();
                width.saturating_sub(n).saturating_sub(1)
            },
            None => width,
        }
    }

    fn get_value_width(&self) -> (r: usize)
        ensures
            r == visible_width(self@.value),
    {
        let n = self.value.as_str().unicode_len();
        let mut count: usize = 0;
        let mut i: usize = 0;
        while i < n
            invariant
                i <= n,
                n == self@.value.len(),
                count == visible_width(self@.value.take(i as int)),
                count <= i,
            decreases n - i,
        {
            assert(self@.value.take(i + 1).drop_last() =~= self@.value.take(i as int));
            if self.value.as_str().get_char(i) != '\u{241d}' {
                count = count + 1;
            }
            i = i + 1;
        }
        assert(self@.value.take(n as int) =~= self@.value);
        count
    }

    fn add_icon(&self, text: &mut String)
        ensures
            final(text)@ == old(text)@ + icon_suffix(self@.icon),
    {
        match self.icon {
            Some(icon) => {
                push_char(text, ' ');
                push_text(text, icon);
                assert(final(text)@ =~= old(text)@ + icon_suffix(self@.icon));
            },
            None => {
                assert(old(text)@ + icon_suffix(self@.icon) =~= old(text)@);
            },
        }
    }

    /// Returns the unique identifier of the row (its value).
    pub fn uid(&self) -> (r: &str)
        ensures
            r@ == self@.value,
    {
        self.value.as_str()
    }

    /// Returns the group of the row (items have none).
    pub fn group(&self) -> (r: &str)
        ensures
            r@ == "n/a"@,
    {
        "n/a"
    }

    /// Returns the name of the row (its value).
    pub fn name(&self) -> (r: &str)
        ensures
            r@ == self@.value,
    {
        self.value.as_str()
    }

    /// Returns the row text for a row of `width` characters.
    pub fn get_name(&self, width: usize) -> (r: String)
        ensures
            r@ == row_text(self@, width),
    {
        let text_width = self.get_text_width(width);
        let value_width = self.get_value_width();
        let padding_len = text_width.saturating_sub(value_width);
        let mut text = truncate(self.value.as_str(), text_width);
        push_spaces(&mut text, padding_len);
        self.add_icon(&mut text);
        text
    }

    /// Returns the row text for a row of `width` characters, with a description.
    pub fn get_name_with_description(&self, width: usize, description: &str) -> (r: String)
        ensures
            r@ == row_text_with_description(self@, width, description@),
    {
        let text_width = self.get_text_width(width);
        let value_width = self.get_value_width();
        let padding_len = text_width.saturating_sub(value_width);
        let description = truncate(description, padding_len.saturating_sub(1));
        let mut text = truncate(self.value.as_str(), text_width);
        let dlen = description.as_str().unicode_len();
        if dlen == 0 {
            push_spaces(&mut text, padding_len);
        } else {
            push_spaces(&mut text, padding_len.saturating_sub(dlen));
            push_char(&mut text, '\u{241d}');
            push_text(&mut text, description.as_str());
            push_char(&mut text, '\u{241d}');
        }
        self.add_icon(&mut text);
        text
    }

    /// Returns the text of column `column` (the value in column 1).
    pub fn column_text(&self, column: usize) -> (r: &str)
        ensures
            column == 1 ==> r@ == self@.value,
            column != 1 ==> r@ == "n/a"@,
    {
        if column == 1 {
            self.value.as_str()
        } else {
            "n/a"
        }
    }

    /// Returns the text column `column` is sorted by (the sort value, or else the value, in column 1).
    pub fn column_sort_text(&self, column: usize) -> (r: &str)
        ensures
            column == 1 ==> r@ == match self@.sort_value {
                Some(s) => s,
                None => self@.value,
            },
            column != 1 ==> r@ == "n/a"@,
    {
        if column == 1 {
            match &self.sort_value {
                Some(s) => s.as_str(),
                None => self.value.as_str(),
            }
        } else {
            "n/a"
        }
    }

    /// Returns `true` if the value contains `pattern` (ASCII case-insensitive).
    pub fn contains(&self, pattern: &str) -> (r: bool)
        requires
            self.wf(),
        ensures
            r == exists|i: int| occurs_in_at(ascii_lower(self@.value), ascii_lower(pattern@), i),
    {
        let lower = to_ascii_lowercase(pattern);
        let r = contains_text(self.lowercase_value.as_str(), lower.as_str());
        assert(self.lowercase_value@ == ascii_lower(self@.value));
        assert(lower@ == ascii_lower(pattern@));
        r
    }

    /// Returns `true` if the value starts with `pattern` (ASCII case-insensitive).
    pub fn starts_with(&self, pattern: &str) -> (r: bool)
        requires
            self.wf(),
        ensures
            r == occurs_in_at(ascii_lower(self@.value), ascii_lower(pattern@), 0),
    {
        let text = crate::strings::chars_of(self.lowercase_value.as_str());
        let lower = to_ascii_lowercase(pattern);
        let pat = crate::strings::chars_of(lower.as_str());
        if pat.len() > text.len() {
            return false;
        }
        occurs_at_index(&text, &pat, 0)
    }

    /// Returns `true` if the value equals `pattern` (ASCII case-insensitive).
    pub fn is_equal(&self, pattern: &str) -> (r: bool)
        requires
            self.wf(),
        ensures
            r == (ascii_lower(self@.value) == ascii_lower(pattern@)),
    {
        let lower = to_ascii_lowercase(pattern);
        crate::strings::same_text(self.lowercase_value.as_str(), lower.as_str())
    }
}

} // verus!
