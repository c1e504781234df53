use vstd::prelude::*;
use vstd::string::*;
use crate::text::{push_decimal, spec_decimal};

verus! {

/// Lifecycle stage of a [`Progress`] report.
#[derive(Debug, Clone, Copy, PartialEq, Eq, Structural, Hash)]
pub enum ProgressState {
    /// The task has just been created and no work has been reported yet.
    Started,
    /// The task is running and reporting updates.
    Running,
    /// The task completed successfully.
    Finished,
    /// The task was aborted because of an error.
    Failed,
}

/// The text of an optional string.
pub open spec fn opt_text(s: Option<String>) -> Option<Seq<char>> {
    match s {
        Some(t) => Some(t@),
        None => None,
    }
}

/// The text of an optional string slice.
pub open spec fn opt_str_text(s: Option<&str>) -> Option<Seq<char>> {
    match s {
        Some(t) => Some(t@),
        None => None,
    }
}

/// What a [`Progress`] snapshot says of its task.
pub struct ProgressView {
    /// Identifier that ties every snapshot of one task together.
    pub id: Seq<char>,
    /// Human-readable name of the task.
    pub title: Seq<char>,
    /// Lifecycle stage of the task.
    pub state: ProgressState,
    /// Amount of work reported as done.
    pub current: u64,
    /// Total amount of work, when it is known.
    pub total: Option<u64>,
    /// Message attached to the latest update, when there is one.
    pub message: Option<Seq<char>>,
}

/// Whether the total amount of work is unknown, either missing or zero.
pub open spec fn spec_indeterminate(p: ProgressView) -> bool {
    match p.total {
        Some(total) => total == 0,
        None => true,
    }
}

/// Whether the task reached [`ProgressState::Finished`] or [`ProgressState::Failed`].
pub open spec fn spec_is_done(p: ProgressView) -> bool {
    p.state == ProgressState::Finished || p.state == ProgressState::Failed
}

/// `p` with each given field replaced, and each missing one left as it was.
pub open spec fn spec_copy_with(
    p: ProgressView,
    state: Option<ProgressState>,
    current: Option<u64>,
    total: Option<u64>,
    message: Option<Seq<char>>,
) -> ProgressView {
    ProgressView {
        id: p.id,
        title: p.title,
        state: match state {
            Some(s) => s,
            None => p.state,
        },
        current: match current {
            Some(c) => c,
            None => p.current,
        },
        total: match total {
            Some(t) => Some(t),
            None => p.total,
        },
        message: match message {
            Some(m) => Some(m),
            None => p.message,
        },
    }
}

/// The task after an update of its counters or message: running, with each given field
/// replaced; nothing when the task is already done.
pub open spec fn spec_updated(
    p: ProgressView,
    current: Option<u64>,
    total: Option<u64>,
    message: Option<Seq<char>>,
) -> Option<ProgressView> {
    if spec_is_done(p) {
        None
    } else {
        Some(spec_copy_with(p, Some(ProgressState::Running), current, total, message))
    }
}

/// The task once completed: finished, counted as fully done where its total is known;
/// nothing when the task is already done.
pub open spec fn spec_completed(p: ProgressView, message: Option<Seq<char>>) -> Option<ProgressView> {
    if spec_is_done(p) {
        None
    } else {
        let current = match p.total {
            Some(t) => t,
            None => p.current,
        };
        Some(spec_copy_with(p, Some(ProgressState::Finished), Some(current), None, message))
    }
}

/// The task once aborted: failed, with its counters where they were; nothing when the task
/// is already done.
pub open spec fn spec_aborted(p: ProgressView, message: Option<Seq<char>>) -> Option<ProgressView> {
    if spec_is_done(p) {
        None
    } else {
        Some(spec_copy_with(p, Some(ProgressState::Failed), None, None, message))
    }
}

/// Immutable snapshot of a long-running task.
///
/// A task with no known `total` is *indeterminate*: it reports how much work is done but not
/// how much is left.
#[derive(Debug, Clone, PartialEq, Eq)]
pub struct Progress {
    id: String,
    title: String,
    state: ProgressState,
    current: u64,
    total: Option<u64>,
    message: Option<String>,
}

impl View for Progress {
    type V = ProgressView;

    closed spec fn view(&self) -> ProgressView {
        ProgressView {
            id: self.id@,
            title: self.title@,
            state: self.state,
            current: self.current,
            total: self.total,
            message: opt_text(self.message),
        }
    }
}

fn copy_text(s: Option<&str>) -> (r: Option<String>)
    ensures
        opt_text(r) == opt_str_text(s),
{
    match s {
        Some(t) => Some(t.to_owned()),
        None => None,
    }
}

impl Progress {
    /// Creates a snapshot.
    pub fn new(
        id: &str,
        title: &str,
        state: ProgressState,
        current: u64,
        total: Option<u64>,
        message: Option<String>,
    ) -> (p: Progress)
        ensures
            p@ == (ProgressView {
                id: id@,
                title: title@,
                state,
                current,
                total,
                message: opt_text(message),
            }),
    {
        Progress { id: id.to_owned(), title: title.to_owned(), state, current, total, message }
    }

    /// Identifier that ties every snapshot of one task together.
    pub fn id(&self) -> (r: &str)
        ensures
            r@ == self@.id,
    {
        self.id.as_str()
    }

    /// Human-readable name of the task.
    pub fn title(&self) -> (r: &str)
        ensures
            r@ == self@.title,
    {
        self.title.as_str()
    }

    /// Lifecycle stage of the task.
    pub fn state(&self) -> (r: ProgressState)
        ensures
            r == self@.state,
    {
        self.state
    }

    /// Amount of work reported as done.
    pub fn current(&self) -> (r: u64)
        ensures
            r == self@.current,
    {
        self.current
    }

    /// Total amount of work, when it is known.
    pub fn total(&self) -> (r: Option<u64>)
        ensures
            r == self@.total,
    {
        self.total
    }

    /// Message attached to the latest update, when there is one.
    pub fn message(&self) -> (r: Option<&str>)
        ensures
            opt_str_text(r) == self@.message,
    {
        match &self.message {
            Some(m) => Some(m.as_str()),
            None => None,
        }
    }

    /// Whether the total amount of work is unknown, either missing or zero.
    pub fn indeterminate(&self) -> (b: bool)
        ensures
            b == spec_indeterminate(self@),
    {
        match self.total {
            Some(total) => total == 0,
            None => true,
        }
    }

    /// Whether the task reached [`ProgressState::Finished`] or [`ProgressState::Failed`].
    pub fn is_done(&self) -> (b: bool)
        ensures
            b == spec_is_done(self@),
    {
        match self.state {
            ProgressState::Finished | ProgressState::Failed => true,
            _ => false,
        }
    }

    /// A copy of the snapshot with each given field replaced; a missing one is left as it
    /// was, so a total or a message cannot be cleared once set.
    pub fn copy_with(
        &self,
        state: Option<ProgressState>,
        current: Option<u64>,
        total: Option<u64>,
        message: Option<&str>,
    ) -> (p: Progress)
        ensures
            p@ == spec_copy_with(self@, state, current, total, opt_str_text(message)),
    {
        Progress {
            id: self.id.clone(),
            title: self.title.clone(),
            state: match state {
                Some(s) => s,
                None => self.state,
            },
            current: match current {
                Some(c) => c,
                None => self.current,
            },
            total: match total {
                Some(t) => Some(t),
                None => self.total,
            },
            message: match message {
                Some(m) => Some(m.to_owned()),
                None => self.message.clone(),
            },
        }
    }

    /// The task after new counters or a new message were reported: running, with each
    /// given field replaced. A task that is done takes no more updates: then nothing.
    pub fn updated(&self, current: Option<u64>, total: Option<u64>, message: Option<&str>) -> (r: Option<Progress>)
        ensures
            match r {
                Some(p) => spec_updated(self@, current, total, opt_str_text(message)) == Some(p@),
                None => spec_updated(self@, current, total, opt_str_text(message)) is None,
            },
    {
        if self.is_done() {
            return None;
        }
        Some(self.copy_with(Some(ProgressState::Running), current, total, message))
    }

    /// The task after `delta` more units of work were done; nothing when it is done.
    pub fn advanced(&self, delta: u64) -> (r: Option<Progress>)
        requires
            self@.current + delta <= u64::MAX,
        ensures
            match r {
                Some(p) => spec_updated(self@, Some((self@.current + delta) as u64), None, None) == Some(p@),
                None => spec_updated(self@, Some((self@.current + delta) as u64), None, None) is None,
            },
    {
        self.updated(Some(self.current + delta), None, None)
    }

    /// The task once completed, counted as fully done; nothing when it is already done.
    pub fn completed(&self, message: Option<&str>) -> (r: Option<Progress>)
        ensures
            match r {
                Some(p) => spec_completed(self@, opt_str_text(message)) == Some(p@),
                None => spec_completed(self@, opt_str_text(message)) is None,
            },
    {
        if self.is_done() {
            return None;
        }
        let current = match self.total {
            Some(t) => t,
            None => self.current,
        };
        Some(self.copy_with(Some(ProgressState::Finished), Some(current), None, message))
    }

    /// The task once aborted, its counters left where they were; nothing when it is
    /// already done.
    pub fn aborted(&self, message: Option<&str>) -> (r: Option<Progress>)
        ensures
            match r {
                Some(p) => spec_aborted(self@, opt_str_text(message)) == Some(p@),
                None => spec_aborted(self@, opt_str_text(message)) is None,
            },
    {
        if self.is_done() {
            return None;
        }
        Some(self.copy_with(Some(ProgressState::Failed), None, None, message))
    }
}

/// Once a task is done, it takes no more updates and can neither be completed nor aborted
/// again; a completed task is done and counts its whole total as done, an aborted one is
/// done with its counters unchanged, and neither changes the task's identifier or title.
pub proof fn lemma_done_task_is_final(
    p: ProgressView,
    current: Option<u64>,
    total: Option<u64>,
    message: Option<Seq<char>>,
)
    ensures
        spec_is_done(p) ==> spec_updated(p, current, total, message) is None,
        spec_is_done(p) ==> spec_completed(p, message) is None,
        spec_is_done(p) ==> spec_aborted(p, message) is None,
        spec_completed(p, message) matches Some(q) ==> spec_is_done(q) && q.id == p.id
            && q.title == p.title && (p.total matches Some(t) ==> q.current == t),
        spec_aborted(p, message) matches Some(q) ==> spec_is_done(q) && q.id == p.id
            && q.title == p.title && q.current == p.current && q.total == p.total,
        spec_updated(p, current, total, message) matches Some(q) ==> !spec_is_done(q)
            && q.id == p.id && q.title == p.title,
{
}

/// Identifier of the `sequence`-th task a logger starts: `progress-<sequence>`.
pub fn progress_id(sequence: u64) -> (r: String)
    ensures
        r@ == "progress-"@ + spec_decimal(sequence as nat),
{
    let mut r = "progress-".to_owned();
    push_decimal(&mut r, sequence);
    r
}

} // verus!
