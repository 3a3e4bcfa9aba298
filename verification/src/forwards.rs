use vstd::prelude::*;
use vstd::string::StrSliceExecFns;

use crate::cell::zero_padded;
use crate::describe::{int_text, push_i64, push_u64};
use crate::pattern::{push_spaces, spaces, truncate, truncated};
use crate::strings::{digits, push_char};

verus! {

/// What a port forward list row shows of a running port forward.
pub struct PortForwardTask {
    pub uuid: String,
    pub namespace: String,
    pub name: Option<String>,
    pub container: Option<String>,
    /// Start time, in milliseconds since the epoch.
    pub start_time: Option<i64>,
    pub bind_address: String,
    pub port: u16,
    /// Connection counters, as read when the row is made.
    pub overall_connections: u64,
    pub active_connections: u64,
    pub connection_errors: u64,
}

/// Represents port forward list item.
pub struct PortForwardItem {
    pub uid: String,
    group: String,
    name: String,
    container: Option<String>,
    age: Option<String>,
    creation_timestamp: Option<i64>,
    bind_address: String,
    port: String,
    port_sort: String,
    overall: String,
    overall_sort: String,
    active: String,
    active_sort: String,
    errors: String,
    errors_sort: String,
}

/// The decimal text of `n` padded on the left with zeros to six characters.
pub open spec fn sort_key(n: nat) -> Seq<char> {
    zero_padded(digits(n), 6)
}

/// Text shown in place of a missing value.
pub open spec fn not_available() -> Seq<char> {
    seq!['n', '/', 'a']
}

/// The decimal text of a counter.
fn counter_text(n: u64) -> (r: String)
    ensures
        r@ == digits(n as nat),
{
    let mut s = String::new();
    push_u64(&mut s, n);
    assert(s@ =~= digits(n as nat));
    s
}

/// The decimal text of a counter padded on the left with zeros to six characters.
fn counter_sort_text(n: u64) -> (r: String)
    ensures
        r@ == sort_key(n as nat),
{
    let digits_text = counter_text(n);
    let len = digits_text.as_str().unicode_len();
    let mut s = String::new();
    let mut i: usize = len;
    while i < 6
        invariant
            len <= i <= 6 || (len > 6 && i == len),
            len == digits(n as nat).len(),
            s@ == Seq::new((i - len) as nat, |k: int| '0'),
        decreases 6 - i,
    {
        push_char(&mut s, '0');
        assert(s@ =~= Seq::new((i + 1 - len) as nat, |k: int| '0'));
        i = i + 1;
    }
    <String as vstd::string::StringExecFns>::append(&mut s, digits_text.as_str());
    proof {
        if len >= 6 {
            assert(s@ =~= sort_key(n as nat));
        } else {
            assert(s@ =~= sort_key(n as nat));
        }
    }
    s
}

impl PortForwardItem {
    /// The row's unique id (that of the port forward).
    pub closed spec fn spec_uid(&self) -> Seq<char> {
        self.uid@
    }

    /// The row's group (the namespace of the forwarded resource).
    pub closed spec fn spec_group(&self) -> Seq<char> {
        self.group@
    }

    /// The row's name (the forwarded resource's name, empty when it has none).
    pub closed spec fn spec_name(&self) -> Seq<char> {
        self.name@
    }

    /// Text of column `column` of the row: namespace, name, bind address, port, active
    /// connections, connection errors, all connections, age; `n/a` past the last column or for a
    /// missing age.
    pub closed spec fn spec_column_text(&self, column: int) -> Seq<char> {
        if column == 0 {
            self.group@
        } else if column == 1 {
            self.name@
        } else if column == 2 {
            self.bind_address@
        } else if column == 3 {
            self.port@
        } else if column == 4 {
            self.active@
        } else if column == 5 {
            self.errors@
        } else if column == 6 {
            self.overall@
        } else if column == 7 {
            match self.age {
                Some(a) => a@,
                None => not_available(),
            }
        } else {
            not_available()
        }
    }

    /// Text by which column `column` sorts: the column text, with the numbers padded with zeros.
    pub closed spec fn spec_column_sort_text(&self, column: int) -> Seq<char> {
        if column == 3 {
            self.port_sort@
        } else if column == 4 {
            self.active_sort@
        } else if column == 5 {
            self.errors_sort@
        } else if column == 6 {
            self.overall_sort@
        } else {
            self.spec_column_text(column)
        }
    }

    /// The container of the forwarded resource.
    pub closed spec fn spec_container(&self) -> Option<String> {
        self.container
    }

    /// The start time, in milliseconds since the epoch.
    pub closed spec fn spec_creation_timestamp(&self) -> Option<i64> {
        self.creation_timestamp
    }

    /// Creates new [`PortForwardItem`] instance.
    pub fn from(task: &PortForwardTask) -> (r: Self)
        ensures
            r.spec_uid() == task.uuid@,
            r.spec_group() == task.namespace@,
            r.spec_name() == (match task.name {
                Some(n) => n@,
                None => Seq::<char>::empty(),
            }),
            r.spec_container() == task.container,
            r.spec_creation_timestamp() == task.start_time,
            r.spec_column_text(2) == task.bind_address@,
            r.spec_column_text(3) == digits(task.port as nat),
            r.spec_column_text(4) == digits(task.active_connections as nat),
            r.spec_column_text(5) == digits(task.connection_errors as nat),
            r.spec_column_text(6) == digits(task.overall_connections as nat),
            r.spec_column_text(7) == (match task.start_time {
                Some(t) => int_text(t as int),
                None => not_available(),
            }),
            r.spec_column_sort_text(3) == sort_key(task.port as nat),
            r.spec_column_sort_text(4) == sort_key(task.active_connections as nat),
            r.spec_column_sort_text(5) == sort_key(task.connection_errors as nat),
            r.spec_column_sort_text(6) == sort_key(task.overall_connections as nat),
    {
        let age = match task.start_time {
            Some(t) => {
                let mut s = String::new();
                push_i64(&mut s, t);
                assert(s@ =~= int_text(t as int));
                Some(s)
            },
            None => None,
        };
        let name = match &task.name {
            Some(n) => n.clone(),
            None => String::new(),
        };
        proof {
            reveal_strlit("");
        }
        PortForwardItem {
            uid: task.uuid.clone(),
            group: task.namespace.clone(),
            name,
            container: task.container.clone(),
            age,
            creation_timestamp: task.start_time,
            bind_address: task.bind_address.clone(),
            port: counter_text(task.port as u64),
            port_sort: counter_sort_text(task.port as u64),
            overall: counter_text(task.overall_connections),
            overall_sort: counter_sort_text(task.overall_connections),
            active: counter_text(task.active_connections),
            active_sort: counter_sort_text(task.active_connections),
            errors: counter_text(task.connection_errors),
            errors_sort: counter_sort_text(task.connection_errors),
        }
    }

    /// Returns container name.
    pub fn container(&self) -> (r: Option<&str>)
        ensures
            r.is_some() == self.spec_container().is_some(),
            r.is_some() ==> r.unwrap()@ == self.spec_container().unwrap()@,
    {
        match &self.container {
            Some(c) => Some(c.as_str()),
            None => None,
        }
    }

    /// Returns the row's unique id.
    pub fn uid(&self) -> (r: &str)
        ensures
            r@ == self.spec_uid(),
    {
        self.uid.as_str()
    }

    /// Returns the row's group.
    pub fn group(&self) -> (r: &str)
        ensures
            r@ == self.spec_group(),
    {
        self.group.as_str()
    }

    /// Returns the row's name.
    pub fn name(&self) -> (r: &str)
        ensures
            r@ == self.spec_name(),
    {
        self.name.as_str()
    }

    /// Returns the start time, in milliseconds since the epoch.
    pub fn creation_timestamp(&self) -> (r: Option<i64>)
        ensures
            r == self.spec_creation_timestamp(),
    {
        self.creation_timestamp
    }

    /// Returns the name truncated to `width` characters and padded with spaces to that width.
    pub fn get_name(&self, width: usize) -> (r: String)
        ensures
            r@ == truncated(self.spec_name(), width as nat) + spaces(
                (width - truncated(self.spec_name(), width as nat).len()) as nat,
            ),
    {
        let mut text = truncate(self.name.as_str(), width);
        let len = text.as_str().unicode_len();
        push_spaces(&mut text, width - len);
        text
    }

    /// Returns the text of column `column`.
    pub fn column_text(&self, column: usize) -> (r: &str)
        ensures
            r@ == self.spec_column_text(column as int),
    {
        proof {
            reveal_strlit("n/a");
        }
        match column {
            0 => self.group.as_str(),
            1 => self.name.as_str(),
            2 => self.bind_address.as_str(),
            3 => self.port.as_str(),
            4 => self.active.as_str(),
            5 => self.errors.as_str(),
            6 => self.overall.as_str(),
            7 => match &self.age {
                Some(a) => a.as_str(),
                None => "n/a",
            },
            _ => "n/a",
        }
    }

    /// Returns the text by which column `column` sorts.
    pub fn column_sort_text(&self, column: usize) -> (r: &str)
        ensures
            r@ == self.spec_column_sort_text(column as int),
    {
        proof {
            reveal_strlit("n/a");
        }
        match column {
            0 => self.group.as_str(),
            1 => self.name.as_str(),
            2 => self.bind_address.as_str(),
            3 => self.port_sort.as_str(),
            4 => self.active_sort.as_str(),
            5 => self.errors_sort.as_str(),
            6 => self.overall_sort.as_str(),
            7 => match &self.age {
                Some(a) => a.as_str(),
                None => "n/a",
            },
            _ => "n/a",
        }
    }
}

} // verus!
