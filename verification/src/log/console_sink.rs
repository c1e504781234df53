use vstd::prelude::*;
use vstd::string::*;
use crate::log::event::LogEvent;
use crate::log::format::{push_repeated, repeated, BAR_CHAR, DEFAULT_BAR_WIDTH};
use crate::log::progress::{spec_indeterminate, Progress, ProgressState, ProgressView};
use crate::text::str_eq;

verus! {

/// Amount of work one `#` stands for while a task's total is unknown.
pub const DEFAULT_UNITS_PER_HASH: u64 = 300;

/// One write a [`ConsoleSink`] asks of its output.
#[derive(Debug, Clone, PartialEq, Eq)]
pub enum ConsoleWrite {
    /// Text to write as it stands.
    Text(String),
    /// The task's progress bar, redrawn in place: a carriage return, the bar at the sink's
    /// width, then a line break where `newline` is set.
    Bar {
        /// Whether a line break follows the bar.
        newline: bool,
    },
}

/// What a [`ConsoleWrite`] asks for.
pub enum ConsoleWriteView {
    /// Text to write as it stands.
    Text(Seq<char>),
    /// The task's progress bar, redrawn in place.
    Bar {
        /// Whether a line break follows the bar.
        newline: bool,
    },
}

impl View for ConsoleWrite {
    type V = ConsoleWriteView;

    open spec fn view(&self) -> ConsoleWriteView {
        match self {
            ConsoleWrite::Text(t) => ConsoleWriteView::Text(t@),
            ConsoleWrite::Bar { newline } => ConsoleWriteView::Bar { newline: *newline },
        }
    }
}

/// What a [`ConsoleSink`] is: its bar width, the work one `#` stands for, and for each task
/// of unknown size still running, the number of `#` it has been drawn with.
pub struct ConsoleSinkView {
    /// Width of the progress bar.
    pub bar_width: usize,
    /// Amount of work one `#` stands for.
    pub units_per_hash: u64,
    /// Number of `#` drawn so far, by task identifier.
    pub hashes: Map<Seq<char>, u64>,
}

/// Number of `#` drawn so far for the task `id`: none for a task the sink does not know.
pub open spec fn spec_printed(hashes: Map<Seq<char>, u64>, id: Seq<char>) -> u64 {
    if hashes.contains_key(id) {
        hashes[id]
    } else {
        0
    }
}

/// A task of unknown size at `current` units of work: the counts once the `#` it has
/// earned, one per `units` units, are drawn, and how many are added.
pub open spec fn spec_grow(hashes: Map<Seq<char>, u64>, id: Seq<char>, current: u64, units: u64) -> (Map<Seq<char>, u64>, nat) {
    let printed = spec_printed(hashes, id);
    let earned = current / units;
    if earned <= printed {
        (hashes, 0)
    } else {
        (hashes.insert(id, earned as u64), (earned - printed) as nat)
    }
}

/// Writing `n` more `#`: nothing when there are none.
pub open spec fn spec_hash_writes(n: nat) -> Seq<ConsoleWriteView> {
    if n == 0 {
        Seq::empty()
    } else {
        seq![ConsoleWriteView::Text(repeated(BAR_CHAR, n))]
    }
}

/// The sink `s` with the counts `hashes`.
pub open spec fn with_hashes(s: ConsoleSinkView, hashes: Map<Seq<char>, u64>) -> ConsoleSinkView {
    ConsoleSinkView { bar_width: s.bar_width, units_per_hash: s.units_per_hash, hashes }
}

/// How a sink answers an update of the task `p`: its next state and what it writes.
///
/// A started task is announced by its title and counts from no `#`. A running task of known
/// size redraws its bar; one of unknown size draws the `#` it has earned since the last
/// update. A finished task closes its bar, or its row of `#` with a full percentage; a failed
/// one closes the line. Either way the sink forgets it.
pub open spec fn spec_progress_step(s: ConsoleSinkView, p: ProgressView) -> (ConsoleSinkView, Seq<ConsoleWriteView>) {
    match p.state {
        ProgressState::Started => (
            with_hashes(s, s.hashes.insert(p.id, 0)),
            if p.title.len() == 0 {
                Seq::empty()
            } else {
                seq![ConsoleWriteView::Text(p.title + "\n"@)]
            },
        ),
        ProgressState::Running => if spec_indeterminate(p) {
            let (hashes, added) = spec_grow(s.hashes, p.id, p.current, s.units_per_hash);
            (with_hashes(s, hashes), spec_hash_writes(added))
        } else {
            (s, seq![ConsoleWriteView::Bar { newline: false }])
        },
        ProgressState::Finished => if spec_indeterminate(p) {
            let (hashes, added) = spec_grow(s.hashes, p.id, p.current, s.units_per_hash);
            (
                with_hashes(s, hashes.remove(p.id)),
                spec_hash_writes(added) + seq![ConsoleWriteView::Text(" 100.0%\n"@)],
            )
        } else {
            (with_hashes(s, s.hashes.remove(p.id)), seq![ConsoleWriteView::Bar { newline: true }])
        },
        ProgressState::Failed => (
            with_hashes(s, s.hashes.remove(p.id)),
            seq![ConsoleWriteView::Text("\n"@)],
        ),
    }
}

/// How a sink answers an event: messages and build steps are written in their formatted
/// form on a line of their own, raw text as it stands, and task updates as
/// [`spec_progress_step`] says.
pub open spec fn spec_console_step(s: ConsoleSinkView, event: LogEvent) -> (ConsoleSinkView, Seq<ConsoleWriteView>) {
    match event {
        LogEvent::Message { formatted, .. } => (s, seq![ConsoleWriteView::Text(formatted@ + "\n"@)]),
        LogEvent::Build { formatted, .. } => (s, seq![ConsoleWriteView::Text(formatted@ + "\n"@)]),
        LogEvent::Raw { text, newline, .. } => (
            s,
            seq![
                ConsoleWriteView::Text(
                    if newline {
                        text@ + "\n"@
                    } else {
                        text@
                    },
                ),
            ],
        ),
        LogEvent::Progress { progress, .. } => spec_progress_step(s, progress@),
    }
}

/// Whether answering `event` divides by the work one `#` stands for: an update of a running
/// or finished task of unknown size.
pub open spec fn counts_hashes(event: LogEvent) -> bool {
    match event {
        LogEvent::Progress { progress, .. } => spec_indeterminate(progress@) && (progress@.state
            == ProgressState::Running || progress@.state == ProgressState::Finished),
        _ => false,
    }
}

/// Whether no two entries share a task identifier.
pub open spec fn distinct_ids(entries: Seq<(String, u64)>) -> bool {
    forall|i: int, j: int| 0 <= i < j < entries.len() ==> entries[i].0@ != entries[j].0@
}

/// The counts kept in `entries`, by task identifier.
pub open spec fn entries_map(entries: Seq<(String, u64)>) -> Map<Seq<char>, u64>
    decreases entries.len(),
{
    if entries.len() == 0 {
        Map::empty()
    } else {
        entries_map(entries.drop_last()).insert(entries.last().0@, entries.last().1)
    }
}

proof fn lemma_entries_map_keys(entries: Seq<(String, u64)>, id: Seq<char>)
    requires
        distinct_ids(entries),
    ensures
        entries_map(entries).contains_key(id) <==> exists|i: int| 0 <= i < entries.len() && entries[i].0@ == id,
        forall|i: int| 0 <= i < entries.len() && entries[i].0@ == id ==> entries_map(entries)[id] == entries[i].1,
    decreases entries.len(),
{
    if entries.len() > 0 {
        let rest = entries.drop_last();
        assert(distinct_ids(rest));
        lemma_entries_map_keys(rest, id);
        if entries_map(entries).contains_key(id) && id != entries.last().0@ {
            let i = choose|i: int| 0 <= i < rest.len() && rest[i].0@ == id;
            assert(entries[i].0@ == id);
        }
        if exists|i: int| 0 <= i < entries.len() && entries[i].0@ == id {
            let i = choose|i: int| 0 <= i < entries.len() && entries[i].0@ == id;
            if i < entries.len() - 1 {
                assert(rest[i].0@ == id);
            }
        }
        assert forall|i: int| 0 <= i < entries.len() && entries[i].0@ == id implies entries_map(entries)[id]
            == entries[i].1 by {
            if i < entries.len() - 1 {
                assert(rest[i] == entries[i]);
            }
        }
    }
}

proof fn lemma_entries_map_push(entries: Seq<(String, u64)>, entry: (String, u64))
    requires
        distinct_ids(entries),
        forall|i: int| 0 <= i < entries.len() ==> entries[i].0@ != entry.0@,
    ensures
        distinct_ids(entries.push(entry)),
        entries_map(entries.push(entry)) == entries_map(entries).insert(entry.0@, entry.1),
{
    assert(entries.push(entry).drop_last() =~= entries);
}

proof fn lemma_entries_map_update(entries: Seq<(String, u64)>, i: int, count: u64)
    requires
        distinct_ids(entries),
        0 <= i < entries.len(),
    ensures
        distinct_ids(entries.update(i, (entries[i].0, count))),
        entries_map(entries.update(i, (entries[i].0, count))) == entries_map(entries).insert(entries[i].0@, count),
    decreases entries.len(),
{
    let updated = entries.update(i, (entries[i].0, count));
    assert(distinct_ids(updated)) by {
        assert forall|a: int, b: int| 0 <= a < b < updated.len() implies updated[a].0@ != updated[b].0@ by {
            assert(updated[a].0@ == entries[a].0@);
            assert(updated[b].0@ == entries[b].0@);
        }
    }
    let rest = entries.drop_last();
    if i == entries.len() - 1 {
        assert(updated.drop_last() =~= rest);
        lemma_entries_map_keys(rest, entries[i].0@);
        assert(entries_map(updated) =~= entries_map(entries).insert(entries[i].0@, count));
    } else {
        assert(distinct_ids(rest));
        lemma_entries_map_update(rest, i, count);
        assert(updated.drop_last() =~= rest.update(i, (rest[i].0, count)));
        assert(entries.last().0@ != entries[i].0@);
        assert(entries_map(updated) =~= entries_map(entries).insert(entries[i].0@, count));
    }
}

proof fn lemma_entries_map_remove(entries: Seq<(String, u64)>, i: int)
    requires
        distinct_ids(entries),
        0 <= i < entries.len(),
    ensures
        distinct_ids(entries.remove(i)),
        entries_map(entries.remove(i)) == entries_map(entries).remove(entries[i].0@),
    decreases entries.len(),
{
    let removed = entries.remove(i);
    assert(distinct_ids(removed)) by {
        assert forall|a: int, b: int| 0 <= a < b < removed.len() implies removed[a].0@ != removed[b].0@ by {
            let a0 = if a < i { a } else { a + 1 };
            let b0 = if b < i { b } else { b + 1 };
            assert(removed[a] == entries[a0]);
            assert(removed[b] == entries[b0]);
        }
    }
    let rest = entries.drop_last();
    assert(distinct_ids(rest));
    lemma_entries_map_keys(rest, entries[i].0@);
    if i == entries.len() - 1 {
        assert(removed =~= rest);
        assert(!entries_map(rest).contains_key(entries[i].0@));
        assert(entries_map(removed) =~= entries_map(entries).remove(entries[i].0@));
    } else {
        lemma_entries_map_remove(rest, i);
        assert(removed.drop_last() =~= rest.remove(i));
        assert(removed.last() == entries.last());
        assert(entries.last().0@ != entries[i].0@);
        assert(entries_map(removed) =~= entries_map(entries).remove(entries[i].0@));
    }
}

/// Renders log events as the terminal output uFBT produces: the decisions of a console
/// sink, which names the writes its output is to carry out.
///
/// Messages and build steps are written in their formatted form, raw text passes through, and
/// a task with a known total is drawn as a progress bar redrawn in place. A task whose total is
/// unknown grows a row of `#`, one per [`units_per_hash`](ConsoleSink::units_per_hash) units of
/// work.
#[derive(Debug)]
pub struct ConsoleSink {
    bar_width: usize,
    units_per_hash: u64,
    /// Number of `#` drawn so far, by task identifier, no identifier twice. A list rather
    /// than a `HashMap`, because vstd specifies what a `HashMap` keyed by `String` holds
    /// too weakly for the contracts here, which speak of every count.
    hashes: Vec<(String, u64)>,
}

impl View for ConsoleSink {
    type V = ConsoleSinkView;

    closed spec fn view(&self) -> ConsoleSinkView {
        ConsoleSinkView {
            bar_width: self.bar_width,
            units_per_hash: self.units_per_hash,
            hashes: entries_map(self.hashes@),
        }
    }
}

impl ConsoleSink {
    #[verifier::type_invariant]
    closed spec fn inv(self) -> bool {
        distinct_ids(self.hashes@)
    }

    /// Creates a sink with the default bar width and hash size.
    pub fn new() -> (sink: ConsoleSink)
        ensures
            sink@.bar_width == DEFAULT_BAR_WIDTH,
            sink@.units_per_hash == DEFAULT_UNITS_PER_HASH,
            sink@.hashes == Map::<Seq<char>, u64>::empty(),
    {
        ConsoleSink::builder().build()
    }

    /// Starts configuring a sink with its own bar width or hash size.
    pub fn builder() -> (b: ConsoleSinkBuilder)
        ensures
            b.bar_width == DEFAULT_BAR_WIDTH,
            b.units_per_hash == DEFAULT_UNITS_PER_HASH,
    {
        ConsoleSinkBuilder { bar_width: DEFAULT_BAR_WIDTH, units_per_hash: DEFAULT_UNITS_PER_HASH }
    }

    /// Width of the progress bar this sink draws.
    pub fn bar_width(&self) -> (w: usize)
        ensures
            w == self@.bar_width,
    {
        self.bar_width
    }

    /// Amount of work one `#` stands for while a task's total is unknown.
    pub fn units_per_hash(&self) -> (u: u64)
        ensures
            u == self@.units_per_hash,
    {
        self.units_per_hash
    }

    fn position(&self, id: &str) -> (r: Option<usize>)
        ensures
            match r {
                Some(i) => i < self.hashes@.len() && self.hashes@[i as int].0@ == id@,
                None => forall|i: int| 0 <= i < self.hashes@.len() ==> self.hashes@[i].0@ != id@,
            },
    {
        let mut i: usize = 0;
        while i < self.hashes.len()
            invariant
                i <= self.hashes@.len(),
                forall|j: int| 0 <= j < i ==> self.hashes@[j].0@ != id@,
            decreases self.hashes@.len() - i,
        {
            if str_eq(self.hashes[i].0.as_str(), id) {
                return Some(i);
            }
            i += 1;
        }
        None
    }

    fn printed(&self, id: &str) -> (n: u64)
        ensures
            n == spec_printed(self@.hashes, id@),
    {
        proof {
            use_type_invariant(self);
            lemma_entries_map_keys(self.hashes@, id@);
        }
        match self.position(id) {
            Some(i) => self.hashes[i].1,
            None => 0,
        }
    }

    fn set_hashes(&mut self, id: &str, count: u64)
        ensures
            final(self)@ == with_hashes(old(self)@, old(self)@.hashes.insert(id@, count)),
    {
        proof {
            use_type_invariant(&*self);
        }
        let position = self.position(id);
        let mut hashes: Vec<(String, u64)> = Vec::new();
        std::mem::swap(&mut hashes, &mut self.hashes);
        match position {
            Some(i) => {
                let key = hashes[i].0.clone();
                proof {
                    lemma_entries_map_update(hashes@, i as int, count);
                }
                hashes.set(i, (key, count));
            },
            None => {
                let key = id.to_owned();
                proof {
                    lemma_entries_map_push(hashes@, (key, count));
                }
                hashes.push((key, count));
            },
        }
        self.hashes = hashes;
    }

    fn forget(&mut self, id: &str)
        ensures
            final(self)@ == with_hashes(old(self)@, old(self)@.hashes.remove(id@)),
    {
        proof {
            use_type_invariant(&*self);
            lemma_entries_map_keys(self.hashes@, id@);
        }
        let position = self.position(id);
        let mut hashes: Vec<(String, u64)> = Vec::new();
        std::mem::swap(&mut hashes, &mut self.hashes);
        match position {
            Some(i) => {
                proof {
                    lemma_entries_map_remove(hashes@, i as int);
                }
                hashes.remove(i);
            },
            None => {
                assert(entries_map(hashes@).remove(id@) =~= entries_map(hashes@));
            },
        }
        self.hashes = hashes;
    }

    fn grow(&mut self, progress: &Progress) -> (writes: Vec<ConsoleWrite>)
        requires
            old(self)@.units_per_hash > 0,
        ensures
            ({
                let (hashes, added) = spec_grow(
                    old(self)@.hashes,
                    progress@.id,
                    progress@.current,
                    old(self)@.units_per_hash,
                );
                final(self)@ == with_hashes(old(self)@, hashes) && writes@.map_values(
                    |w: ConsoleWrite| w@,
                ) == spec_hash_writes(added)
            }),
    {
        let printed = self.printed(progress.id());
        let earned = progress.current() / self.units_per_hash;
        let mut writes: Vec<ConsoleWrite> = Vec::new();
        if earned <= printed {
            assert(writes@.map_values(|w: ConsoleWrite| w@) =~= Seq::<ConsoleWriteView>::empty());
            assert(self@.hashes =~= old(self)@.hashes);
            return writes;
        }
        self.set_hashes(progress.id(), earned);
        let mut text = String::new();
        push_repeated(&mut text, BAR_CHAR, earned - printed);
        writes.push(ConsoleWrite::Text(text));
        assert(writes@.map_values(|w: ConsoleWrite| w@) =~= spec_hash_writes((earned - printed) as nat));
        writes
    }

    fn on_progress(&mut self, progress: &Progress) -> (writes: Vec<ConsoleWrite>)
        requires
            spec_indeterminate(progress@) && (progress@.state == ProgressState::Running
                || progress@.state == ProgressState::Finished) ==> old(self)@.units_per_hash > 0,
        ensures
            (final(self)@, writes@.map_values(|w: ConsoleWrite| w@)) == spec_progress_step(
                old(self)@,
                progress@,
            ),
    {
        match progress.state() {
            ProgressState::Started => {
                self.set_hashes(progress.id(), 0);
                let mut writes: Vec<ConsoleWrite> = Vec::new();
                proof {
                    reveal_strlit("");
                    assert(""@ =~= Seq::<char>::empty());
                }
                if !str_eq(progress.title(), "") {
                    let mut line = progress.title().to_owned();
                    line.append("\n");
                    writes.push(ConsoleWrite::Text(line));
                    assert(progress@.title.len() != 0) by {
                        if progress@.title.len() == 0 {
                            assert(progress@.title =~= ""@);
                        }
                    }
                    assert(writes@.map_values(|w: ConsoleWrite| w@) =~= seq![
                        ConsoleWriteView::Text(progress@.title + "\n"@),
                    ]);
                } else {
                    assert(writes@.map_values(|w: ConsoleWrite| w@) =~= Seq::<ConsoleWriteView>::empty());
                }
                writes
            },
            ProgressState::Running => {
                if progress.indeterminate() {
                    self.grow(progress)
                } else {
                    let writes = vec![ConsoleWrite::Bar { newline: false }];
                    assert(writes@.map_values(|w: ConsoleWrite| w@) =~= spec_progress_step(
                        old(self)@,
                        progress@,
                    ).1);
                    writes
                }
            },
            ProgressState::Finished => {
                let mut writes: Vec<ConsoleWrite>;
                if progress.indeterminate() {
                    writes = self.grow(progress);
                    let ghost grown = writes@.map_values(|w: ConsoleWrite| w@);
                    writes.push(ConsoleWrite::Text(" 100.0%\n".to_owned()));
                    assert(writes@.map_values(|w: ConsoleWrite| w@) =~= grown + seq![
                        ConsoleWriteView::Text(" 100.0%\n"@),
                    ]);
                } else {
                    writes = vec![ConsoleWrite::Bar { newline: true }];
                    assert(writes@.map_values(|w: ConsoleWrite| w@) =~= seq![
                        ConsoleWriteView::Bar { newline: true },
                    ]);
                }
                self.forget(progress.id());
                writes
            },
            ProgressState::Failed => {
                self.forget(progress.id());
                let writes = vec![ConsoleWrite::Text("\n".to_owned())];
                assert(writes@.map_values(|w: ConsoleWrite| w@) =~= seq![
                    ConsoleWriteView::Text("\n"@),
                ]);
                writes
            },
        }
    }

    /// Answers one event: updates what the sink remembers of running tasks and names the
    /// writes its output is to carry out, in order.
    pub fn on_event(&mut self, event: &LogEvent) -> (writes: Vec<ConsoleWrite>)
        requires
            counts_hashes(*event) ==> old(self)@.units_per_hash > 0,
        ensures
            (final(self)@, writes@.map_values(|w: ConsoleWrite| w@)) == spec_console_step(
                old(self)@,
                *event,
            ),
    {
        match event {
            LogEvent::Message { formatted, .. } | LogEvent::Build { formatted, .. } => {
                let mut line = formatted.clone();
                line.append("\n");
                let writes = vec![ConsoleWrite::Text(line)];
                assert(writes@.map_values(|w: ConsoleWrite| w@) =~= spec_console_step(
                    old(self)@,
                    *event,
                ).1);
                writes
            },
            LogEvent::Raw { text, newline, .. } => {
                let mut line = text.clone();
                if *newline {
                    line.append("\n");
                }
                let writes = vec![ConsoleWrite::Text(line)];
                assert(writes@.map_values(|w: ConsoleWrite| w@) =~= spec_console_step(
                    old(self)@,
                    *event,
                ).1);
                writes
            },
            LogEvent::Progress { progress, .. } => self.on_progress(progress),
        }
    }
}

/// Configures a [`ConsoleSink`].
#[derive(Debug, Clone, Copy, PartialEq, Eq, Structural)]
pub struct ConsoleSinkBuilder {
    /// Width of the progress bar.
    pub bar_width: usize,
    /// Amount of work one `#` stands for.
    pub units_per_hash: u64,
}

impl ConsoleSinkBuilder {
    /// Sets the progress bar width. Defaults to
    /// [`format::DEFAULT_BAR_WIDTH`](super::format::DEFAULT_BAR_WIDTH).
    pub fn bar_width(self, width: usize) -> (b: ConsoleSinkBuilder)
        ensures
            b.bar_width == width,
            b.units_per_hash == self.units_per_hash,
    {
        ConsoleSinkBuilder { bar_width: width, units_per_hash: self.units_per_hash }
    }

    /// Sets how much work one `#` stands for. Defaults to [`DEFAULT_UNITS_PER_HASH`].
    pub fn units_per_hash(self, units: u64) -> (b: ConsoleSinkBuilder)
        ensures
            b.bar_width == self.bar_width,
            b.units_per_hash == units,
    {
        ConsoleSinkBuilder { bar_width: self.bar_width, units_per_hash: units }
    }

    /// Builds the sink, which knows of no task yet.
    pub fn build(self) -> (sink: ConsoleSink)
        ensures
            sink@.bar_width == self.bar_width,
            sink@.units_per_hash == self.units_per_hash,
            sink@.hashes == Map::<Seq<char>, u64>::empty(),
    {
        ConsoleSink { bar_width: self.bar_width, units_per_hash: self.units_per_hash, hashes: Vec::new() }
    }
}

/// The text of `writes` taken together, progress bars left out.
pub open spec fn written_text(writes: Seq<ConsoleWriteView>) -> Seq<char>
    decreases writes.len(),
{
    if writes.len() == 0 {
        Seq::empty()
    } else {
        written_text(writes.drop_last()) + match writes.last() {
            ConsoleWriteView::Text(t) => t,
            ConsoleWriteView::Bar { .. } => Seq::empty(),
        }
    }
}

/// A task of unknown size is drawn with one `#` per `units_per_hash` units of work: an
/// update brings its row to the count its work has earned, writing exactly the `#` that are
/// missing and never taking one back, and leaves the row of every other task as it was.
pub proof fn lemma_hash_row_grows(s: ConsoleSinkView, p: ProgressView, other: Seq<char>)
    requires
        s.units_per_hash > 0,
        p.state == ProgressState::Running,
        spec_indeterminate(p),
        other != p.id,
    ensures
        ({
            let (next, writes) = spec_progress_step(s, p);
            let before = spec_printed(s.hashes, p.id);
            let after = spec_printed(next.hashes, p.id);
            &&& after == if p.current / s.units_per_hash > before {
                p.current / s.units_per_hash
            } else {
                before
            }
            &&& written_text(writes) == repeated(BAR_CHAR, (after - before) as nat)
            &&& spec_printed(next.hashes, other) == spec_printed(s.hashes, other)
            &&& next.bar_width == s.bar_width && next.units_per_hash == s.units_per_hash
        }),
{
    let (next, writes) = spec_progress_step(s, p);
    let (_, added) = spec_grow(s.hashes, p.id, p.current, s.units_per_hash);
    if added == 0 {
        assert(writes =~= Seq::<ConsoleWriteView>::empty());
        assert(repeated(BAR_CHAR, 0) =~= Seq::<char>::empty());
    } else {
        assert(writes.drop_last() =~= Seq::<ConsoleWriteView>::empty());
        assert(written_text(writes.drop_last()) =~= Seq::<char>::empty());
        assert(written_text(writes) =~= repeated(BAR_CHAR, added));
    }
}

/// A started task counts from no `#`, and a task that finishes or fails is forgotten, so
/// that an identifier used again starts counting afresh; neither touches another task.
pub proof fn lemma_task_bounds_reset_count(s: ConsoleSinkView, p: ProgressView, other: Seq<char>)
    requires
        p.state != ProgressState::Running,
        other != p.id,
    ensures
        ({
            let (next, _) = spec_progress_step(s, p);
            &&& spec_printed(next.hashes, p.id) == 0
            &&& spec_printed(next.hashes, other) == spec_printed(s.hashes, other)
            &&& (p.state != ProgressState::Started ==> !next.hashes.contains_key(p.id))
        }),
{
}

/// Messages, build steps and raw text leave what the sink knows of tasks untouched, and
/// come out as their text: a message or a build step on a line of its own.
pub proof fn lemma_text_events_pass_through(s: ConsoleSinkView, event: LogEvent)
    requires
        !(event is Progress),
    ensures
        spec_console_step(s, event).0 == s,
        event matches LogEvent::Message { formatted, .. } ==> written_text(
            spec_console_step(s, event).1,
        ) == formatted@ + "\n"@,
        event matches LogEvent::Build { formatted, .. } ==> written_text(
            spec_console_step(s, event).1,
        ) == formatted@ + "\n"@,
        event matches LogEvent::Raw { text, newline, .. } ==> written_text(
            spec_console_step(s, event).1,
        ) == if newline {
            text@ + "\n"@
        } else {
            text@
        },
{
    let writes = spec_console_step(s, event).1;
    assert(writes.drop_last() =~= Seq::<ConsoleWriteView>::empty());
    assert(written_text(writes.drop_last()) =~= Seq::<char>::empty());
}

} // verus!
