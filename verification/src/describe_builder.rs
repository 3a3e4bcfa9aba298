use vstd::prelude::*;

use crate::describe::{int_text, push_i64, ValueKind};
use crate::position::sat_sub;
use crate::strings::push_char;
use vstd::utf8::encode_utf8;

verus! {

/// What a span of a describe line is drawn as: plain text, a property name, or a value of a kind
/// (the program picks the colours).
#[derive(Debug, Clone, Copy, PartialEq, Eq, Structural)]
pub enum SpanRole {
    Normal,
    Property,
    Value(ValueKind),
}

/// A line of a describe section: its spans, each with its role.
pub type StyledLine = Vec<(SpanRole, String)>;

/// A line as texts.
pub open spec fn line_view(line: Seq<(SpanRole, String)>) -> Seq<(SpanRole, Seq<char>)> {
    line.map_values(|p: (SpanRole, String)| (p.0, p.1@))
}

/// `n` spaces.
pub open spec fn blanks(n: nat) -> Seq<char> {
    Seq::new(n, |i: int| ' ')
}

/// Returns `n` spaces.
fn spaces(n: usize) -> (r: String)
    ensures
        r@ == blanks(n as nat),
{
    let mut s = String::new();
    let mut i: usize = 0;
    while i < n
        invariant
            i <= n,
            s@ == blanks(i as nat),
        decreases n - i,
    {
        push_char(&mut s, ' ');
        assert(s@ =~= blanks((i + 1) as nat));
        i = i + 1;
    }
    s
}

/// The `--none--` line.
pub open spec fn none_line() -> Seq<(SpanRole, Seq<char>)> {
    seq![(SpanRole::Normal, "  --none--"@)]
}

/// Returns the `--none--` line.
pub fn none() -> (r: StyledLine)
    ensures
        line_view(r@) == none_line(),
{
    let r = vec![(SpanRole::Normal, "  --none--".to_string())];
    assert(line_view(r@) =~= none_line());
    r
}

/// A header line: `name` followed by `:`, indented by `indent` spaces.
pub open spec fn header_line(name: Seq<char>, indent: usize) -> Seq<(SpanRole, Seq<char>)> {
    seq![(SpanRole::Normal, blanks(indent as nat)), (SpanRole::Property, name), (SpanRole::Normal, ":"@)]
}

/// Returns a header line with `name`.
pub fn header(name: &str, indent: usize) -> (r: StyledLine)
    ensures
        line_view(r@) == header_line(name@, indent),
{
    let r = vec![(SpanRole::Normal, spaces(indent)), (SpanRole::Property, name.to_string()), (SpanRole::Normal, ":".to_string())];
    assert(line_view(r@) =~= header_line(name@, indent));
    r
}

/// A property line: `name: value`, indented by `indent` spaces.
pub open spec fn property_line(name: Seq<char>, value: Seq<char>, kind: ValueKind, indent: usize) -> Seq<(SpanRole, Seq<char>)> {
    seq![
        (SpanRole::Normal, blanks(indent as nat)),
        (SpanRole::Property, name),
        (SpanRole::Normal, ": "@),
        (SpanRole::Value(kind), value),
    ]
}

/// Returns a property line with `name` and `value`.
pub fn property(name: &str, value: String, kind: ValueKind, indent: usize) -> (r: StyledLine)
    ensures
        line_view(r@) == property_line(name@, value@, kind, indent),
{
    let r = vec![
        (SpanRole::Normal, spaces(indent)),
        (SpanRole::Property, name.to_string()),
        (SpanRole::Normal, ": ".to_string()),
        (SpanRole::Value(kind), value),
    ];
    assert(line_view(r@) =~= property_line(name@, value@, kind, indent));
    r
}

/// An aligned property line: the values of such lines start one space after a column `width`
/// bytes past the names (right after the colon where a name is longer).
pub open spec fn aligned_line(name: Seq<char>, value: Seq<char>, kind: ValueKind, indent: usize, width: usize) -> Seq<
    (SpanRole, Seq<char>),
> {
    seq![
        (SpanRole::Normal, blanks(indent as nat)),
        (SpanRole::Property, name),
        (SpanRole::Normal, seq![':'] + blanks((sat_sub(width, encode_utf8(name).len() as usize) + 1) as nat)),
        (SpanRole::Value(kind), value),
    ]
}

/// Returns an aligned property line with `name` and `value`.
pub fn aligned_property(name: &str, value: String, kind: ValueKind, indent: usize, width: usize) -> (r: StyledLine)
    requires
        width < usize::MAX,
    ensures
        line_view(r@) == aligned_line(name@, value@, kind, indent, width),
{
    let mut spacing = String::new();
    push_char(&mut spacing, ':');
    let blank = spaces(width.saturating_sub(name.len()) + 1);
    <String as vstd::string::StringExecFns>::append(&mut spacing, blank.as_str());
    let r = vec![(SpanRole::Normal, spaces(indent)), (SpanRole::Property, name.to_string()), (SpanRole::Normal, spacing), (SpanRole::Value(kind), value)];
    assert(line_view(r@) =~= aligned_line(name@, value@, kind, indent, width));
    r
}

/// The abstract state of a section builder: the lines so far, the indentation of properties and
/// the width their names are aligned to (none: not aligned).
pub struct BuilderState {
    pub lines: Seq<Seq<(SpanRole, Seq<char>)>>,
    pub indent: usize,
    pub width: Option<usize>,
}

/// An alignment width leaves room for the space after it.
pub open spec fn width_fits(width: Option<usize>) -> bool {
    width matches Some(w) ==> w < usize::MAX
}

/// The state after a property line `key: value` was added.
pub open spec fn with_line(s: BuilderState, key: Seq<char>, value: Seq<char>, kind: ValueKind) -> BuilderState {
    let line = match s.width {
        Some(w) => aligned_line(key, value, kind, s.indent, w),
        None => property_line(key, value, kind, s.indent),
    };
    BuilderState { lines: s.lines.push(line), ..s }
}

/// The state after a sub-section header was added with new indentation and width.
pub open spec fn with_sub_section(s: BuilderState, name: Seq<char>, header_indent: usize, indent: usize, width: Option<usize>) -> BuilderState {
    BuilderState { lines: s.lines.push(header_line(name, header_indent)), indent, width }
}

/// The state after a new section (an empty line, then its header) was started.
pub open spec fn with_section(s: BuilderState, name: Seq<char>, header_indent: usize, indent: usize, width: Option<usize>) -> BuilderState {
    with_sub_section(BuilderState { lines: s.lines.push(seq![]), ..s }, name, header_indent, indent, width)
}

/// The text of an optional value (empty when missing).
pub open spec fn text_or_empty(value: Option<String>) -> Seq<char> {
    match value {
        Some(v) => v@,
        None => seq![],
    }
}

/// The text of an optional integer (empty when missing).
pub open spec fn int_or_empty(value: Option<i64>) -> Seq<char> {
    match value {
        Some(n) => int_text(n as int),
        None => seq![],
    }
}

/// The text of an optional flag (`false` when missing).
pub open spec fn bool_or_false(value: Option<bool>) -> Seq<char> {
    if value == Some(true) { "true"@ } else { "false"@ }
}

/// Builds the lines of a text section of a describe view.
pub struct TextSectionBuilder {
    lines: Vec<StyledLine>,
    indent: usize,
    width: Option<usize>,
}

impl View for TextSectionBuilder {
    type V = BuilderState;

    closed spec fn view(&self) -> BuilderState {
        BuilderState { lines: self.lines@.map_values(|l: StyledLine| line_view(l@)), indent: self.indent, width: self.width }
    }
}

impl TextSectionBuilder {
    /// Creates a builder that adds to `lines`, with no indentation and no alignment.
    pub fn new(lines: Vec<StyledLine>) -> (r: Self)
        ensures
            r@ == (BuilderState { lines: lines@.map_values(|l: StyledLine| line_view(l@)), indent: 0, width: None }),
    {
        TextSectionBuilder { lines, indent: 0, width: None }
    }

    /// Returns the lines built.
    pub fn into_lines(self) -> (r: Vec<StyledLine>)
        ensures
            r@.map_values(|l: StyledLine| line_view(l@)) == self@.lines,
    {
        self.lines
    }

    /// Adds a line to the lines.
    fn push_line(&mut self, line: StyledLine)
        ensures
            final(self)@ == (BuilderState { lines: old(self)@.lines.push(line_view(line@)), ..old(self)@ }),
    {
        self.lines.push(line);
        assert(self@.lines =~= old(self)@.lines.push(line_view(line@)));
    }

    /// Starts a new empty section with the given indentation and alignment width.
    pub fn start_empty(&mut self, indent: usize, width: Option<usize>)
        ensures
            final(self)@ == (BuilderState { lines: old(self)@.lines.push(seq![]), indent, width }),
    {
        self.indent = indent;
        self.width = width;
        let empty: StyledLine = Vec::new();
        assert(line_view(empty@) =~= seq![]);
        self.push_line(empty);
    }

    /// Starts a new section: an empty line, then the header `name`; properties follow with the
    /// given indentation and alignment width.
    pub fn start_section(&mut self, name: &str, header_indent: usize, indent: usize, width: Option<usize>)
        ensures
            final(self)@ == with_section(old(self)@, name@, header_indent, indent, width),
    {
        let empty: StyledLine = Vec::new();
        assert(line_view(empty@) =~= seq![]);
        self.push_line(empty);
        self.sub_section(name, header_indent, indent, width);
    }

    /// Adds the header of a sub-section; properties follow with the given indentation and
    /// alignment width.
    pub fn sub_section(&mut self, name: &str, header_indent: usize, indent: usize, width: Option<usize>)
        ensures
            final(self)@ == with_sub_section(old(self)@, name@, header_indent, indent, width),
    {
        self.push_line(header(name, header_indent));
        self.indent = indent;
        self.width = width;
    }

    /// Adds the `--none--` line.
    pub fn add_none(&mut self)
        ensures
            final(self)@ == (BuilderState { lines: old(self)@.lines.push(none_line()), ..old(self)@ }),
    {
        self.push_line(none());
    }

    /// Adds a text property (empty when missing).
    pub fn add_str(&mut self, key: &str, value: Option<String>)
        requires
            width_fits(old(self)@.width),
        ensures
            final(self)@ == with_line(old(self)@, key@, text_or_empty(value), ValueKind::String),
    {
        let text = match value {
            Some(v) => v,
            None => String::new(),
        };
        self.add_line(key, text, ValueKind::String);
    }

    /// Adds a numeric property given as text (empty when missing).
    pub fn add_num(&mut self, key: &str, value: Option<String>)
        requires
            width_fits(old(self)@.width),
        ensures
            final(self)@ == with_line(old(self)@, key@, text_or_empty(value), ValueKind::Numeric),
    {
        let text = match value {
            Some(v) => v,
            None => String::new(),
        };
        self.add_line(key, text, ValueKind::Numeric);
    }

    /// Adds an integer property (empty when missing).
    pub fn add_inum(&mut self, key: &str, value: Option<i64>)
        requires
            width_fits(old(self)@.width),
        ensures
            final(self)@ == with_line(old(self)@, key@, int_or_empty(value), ValueKind::Numeric),
    {
        let mut text = String::new();
        if let Some(n) = value {
            push_i64(&mut text, n);
        }
        assert(text@ =~= int_or_empty(value));
        self.add_line(key, text, ValueKind::Numeric);
    }

    /// Adds a flag property (`false` when missing).
    pub fn add_bool(&mut self, key: &str, value: Option<bool>)
        requires
            width_fits(old(self)@.width),
        ensures
            final(self)@ == with_line(old(self)@, key@, bool_or_false(value), ValueKind::Boolean),
    {
        let flag = match value {
            Some(b) => b,
            None => false,
        };
        let text = if flag { "true".to_string() } else { "false".to_string() };
        self.add_line(key, text, ValueKind::Boolean);
    }

    /// Adds a property line, aligned when the section has an alignment width.
    pub fn add_line(&mut self, key: &str, value: String, kind: ValueKind)
        requires
            width_fits(old(self)@.width),
        ensures
            final(self)@ == with_line(old(self)@, key@, value@, kind),
    {
        let line = match self.width {
            Some(width) => aligned_property(key, value, kind, self.indent, width),
            None => property(key, value, kind, self.indent),
        };
        self.push_line(line);
    }
}

} // verus!
