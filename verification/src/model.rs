use vstd::prelude::*;

verus! {

/// Completion status of a task.
#[derive(Clone, Copy, Debug, PartialEq, Eq, Structural)]
pub enum Status {
    NotStarted,
    Completed,
}

impl Status {
    /// `true` when the status is `Completed`.
    pub fn is_completed(&self) -> (r: bool)
        ensures
            r == (*self == Status::Completed),
    {
        match self {
            Status::Completed => true,
            Status::NotStarted => false,
        }
    }
}

/// A point in time, as whole seconds since the Unix epoch and the
/// nanoseconds past that second; points are ordered by seconds, then
/// nanoseconds.
#[derive(Clone, Copy, Debug, PartialEq, Eq, Structural)]
pub struct Timestamp {
    pub secs: i64,
    pub nanos: u32,
}

impl Timestamp {
    /// `self` comes strictly before `other`.
    pub open spec fn before(self, other: Timestamp) -> bool {
        self.secs < other.secs || (self.secs == other.secs && self.nanos < other.nanos)
    }

    /// Strict order of two points in time.
    pub fn is_before(&self, other: &Timestamp) -> (r: bool)
        ensures
            r == self.before(*other),
    {
        self.secs < other.secs || (self.secs == other.secs && self.nanos < other.nanos)
    }
}

/// A task of a list, with what the application reads of it.
#[derive(Debug)]
pub struct Task {
    pub id: u128,
    pub title: String,
    pub status: Status,
    pub parent_id: Option<u128>,
    pub expanded: bool,
    pub creation_date: Timestamp,
    pub sub_task_ids: Vec<u128>,
}

/// What a task holds, as mathematical values.
pub struct TaskView {
    pub id: u128,
    pub title: Seq<char>,
    pub status: Status,
    pub parent_id: Option<u128>,
    pub expanded: bool,
    pub creation_date: Timestamp,
    pub sub_task_ids: Seq<u128>,
}

impl View for Task {
    type V = TaskView;

    open spec fn view(&self) -> TaskView {
        TaskView {
            id: self.id,
            title: self.title@,
            status: self.status,
            parent_id: self.parent_id,
            expanded: self.expanded,
            creation_date: self.creation_date,
            sub_task_ids: self.sub_task_ids@,
        }
    }
}

/// Copies a vector of identifiers.
pub fn copy_ids(v: &Vec<u128>) -> (r: Vec<u128>)
    ensures
        r@ == v@,
{
    let mut r: Vec<u128> = Vec::new();
    let mut i: usize = 0;
    while i < v.len()
        invariant
            i <= v.len(),
            r@ == v@.subrange(0, i as int),
        decreases v.len() - i,
    {
        r.push(v[i]);
        i = i + 1;
    }
    r
}

/// Copies an optional string.
pub fn copy_opt_string(s: &Option<String>) -> (r: Option<String>)
    ensures
        r == *s,
{
    match s {
        Some(x) => Some(x.clone()),
        None => None,
    }
}

impl Clone for Task {
    fn clone(&self) -> (r: Self)
        ensures
            r@ == self@,
    {
        let r = Task {
            id: self.id,
            title: self.title.clone(),
            status: self.status,
            parent_id: self.parent_id,
            expanded: self.expanded,
            creation_date: self.creation_date,
            sub_task_ids: copy_ids(&self.sub_task_ids),
        };
        r
    }
}

/// A list of tasks, with what the application reads of it.
#[derive(Debug)]
pub struct List {
    pub id: u128,
    pub name: String,
    pub icon: Option<String>,
    pub hide_completed: bool,
}

impl List {
    /// The name of the list's icon: its own, or the default list icon.
    pub fn icon_name(&self) -> (r: String)
        ensures
            r@ == match self.icon {
                Some(i) => i@,
                None => "view-list-symbolic"@,
            },
    {
        match &self.icon {
            Some(i) => i.clone(),
            None => String::from_str("view-list-symbolic"),
        }
    }
}

impl Clone for List {
    fn clone(&self) -> (r: Self)
        ensures
            r == *self,
    {
        List {
            id: self.id,
            name: self.name.clone(),
            icon: copy_opt_string(&self.icon),
            hide_completed: self.hide_completed,
        }
    }
}

/// The part of the application's settings that the task views read.
#[derive(Clone, Copy, Debug, PartialEq, Eq, Structural)]
pub struct AppConfig {
    pub hide_completed: bool,
}

} // verus!
