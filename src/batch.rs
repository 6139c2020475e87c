//! The batch driver's decisions, as a state machine.
//!
//! The caller performs each [`Command`] (printing, file reads and writes, the
//! render itself) and reports back what happened as an [`Event`]. Jobs run
//! strictly one after another; the first failure ends the whole batch.

use vstd::prelude::*;
use crate::jobs::{Job, split_jobs, progress_line, progress_text};
use crate::render::Error;
use crate::table::{TableKind, table_kind, table_of};

verus! {

/// Where the batch stands.
#[derive(Clone, Copy, Debug, PartialEq, Eq, Structural)]
pub enum Phase {
    /// Not started yet.
    Pending,
    /// The progress line of the current job is being shown.
    Announcing,
    /// The current job's input is being read; its table is known.
    Reading(TableKind),
    /// The current job's diagram is being rendered.
    Rendering,
    /// The current job's output is being written.
    Writing,
    /// Every job completed.
    Done,
    /// A job failed; nothing more is done.
    Failed,
}

/// What the caller reports after carrying out a command.
#[derive(Clone, Debug)]
pub enum Event {
    /// Start the batch.
    Go,
    /// The progress line was shown.
    Announced,
    /// The input file was read, with this content.
    InputRead(String),
    /// The diagram was rendered to this SVG text.
    Rendered(String),
    /// The output file was written.
    Written,
    /// The step under way failed.
    Failed(Error),
}

/// Why a batch stopped early.
#[derive(Clone, Debug, PartialEq, Eq)]
pub enum Halt {
    /// A job named a table outside the known set; this is a configuration
    /// mistake, reported before the job touches any file.
    UnknownTable(String),
    /// A job failed while reading, rendering or writing.
    Job(Error),
}

/// What the caller is asked to do next.
#[derive(Clone, Debug, PartialEq, Eq)]
pub enum Command {
    /// Show this progress line.
    Announce(String),
    /// Read the whole file at this path as text.
    ReadInput(String),
    /// Render `content` with `table`, naming the diagram `name`.
    Render { table: TableKind, content: String, name: String },
    /// Create or truncate the file at `path` and write `text` to it verbatim.
    WriteOutput { path: String, text: String },
    /// All jobs are done.
    Finish,
    /// Stop the batch with this failure.
    Abort(Halt),
}

/// A batch of jobs and the progress made through it.
#[derive(Clone, Debug)]
pub struct Batch {
    pub jobs: Vec<Job>,
    pub current: usize,
    pub phase: Phase,
}

/// A phase in which a job is under way.
pub open spec fn in_job(p: Phase) -> bool {
    p is Announcing || p is Reading || p is Rendering || p is Writing
}

/// Whether `ev` is a report the batch can take in phase `p`.
pub open spec fn accepts(p: Phase, ev: Event) -> bool {
    match ev {
        Event::Go => p is Pending,
        Event::Announced => p is Announcing,
        Event::InputRead(_) => p is Reading,
        Event::Rendered(_) => p is Rendering,
        Event::Written => p is Writing,
        Event::Failed(_) => p is Reading || p is Rendering || p is Writing,
    }
}

/// `c` asks to read the file at `path`.
pub open spec fn reads(c: Command, path: Seq<char>) -> bool {
    match c {
        Command::ReadInput(p) => p@ == path,
        _ => false,
    }
}

/// `c` asks to render `content` with table `t` under the name `name`.
pub open spec fn renders(c: Command, t: TableKind, content: Seq<char>, name: Seq<char>) -> bool {
    match c {
        Command::Render { table, content: x, name: n } => table == t && x@ == content && n@ == name,
        _ => false,
    }
}

/// `c` asks to write exactly `text` to the file at `path`.
pub open spec fn writes(c: Command, path: Seq<char>, text: Seq<char>) -> bool {
    match c {
        Command::WriteOutput { path: p, text: x } => p@ == path && x@ == text,
        _ => false,
    }
}

/// `c` stops the batch because of the unknown table name `name`.
pub open spec fn rejects_table(c: Command, name: Seq<char>) -> bool {
    match c {
        Command::Abort(Halt::UnknownTable(n)) => n@ == name,
        _ => false,
    }
}

impl Batch {
    pub open spec fn wf(self) -> bool {
        &&& self.current <= self.jobs@.len()
        &&& in_job(self.phase) ==> self.current < self.jobs@.len()
    }

    /// The job under way.
    pub open spec fn job(self) -> Job {
        self.jobs@[self.current as int]
    }

    /// The batch has just moved to job `current`, or past the last one, and
    /// `c` says so: the job's progress line, or the end of the batch.
    pub open spec fn opened(self, c: Command) -> bool {
        if self.current < self.jobs@.len() {
            &&& self.phase == Phase::Announcing
            &&& match c {
                Command::Announce(line) => line@ == progress_text(
                    self.job().input@,
                    self.job().output@,
                ),
                _ => false,
            }
        } else {
            self.phase == Phase::Done && c == Command::Finish
        }
    }

    /// One move of the batch: from `self`, on report `ev`, to `post`, asking `c`.
    pub open spec fn moves_to(self, ev: Event, post: Batch, c: Command) -> bool {
        &&& post.jobs@ == self.jobs@
        &&& match ev {
            Event::Go => post.current == self.current && post.opened(c),
            Event::Announced => post.current == self.current && match table_of(
                self.job().table@,
            ) {
                Some(t) => post.phase == Phase::Reading(t) && reads(c, self.job().input@),
                None => post.phase == Phase::Failed && rejects_table(c, self.job().table@),
            },
            Event::InputRead(content) => {
                &&& post.current == self.current
                &&& post.phase == Phase::Rendering
                &&& self.phase matches Phase::Reading(t)
                &&& renders(c, t, content@, self.job().input@)
            },
            Event::Rendered(svg) => {
                &&& post.current == self.current
                &&& post.phase == Phase::Writing
                &&& writes(c, self.job().output@, svg@)
            },
            Event::Written => post.current == self.current + 1 && post.opened(c),
            Event::Failed(e) => {
                &&& post.current == self.current
                &&& post.phase == Phase::Failed
                &&& c == Command::Abort(Halt::Job(e))
            },
        }
    }

    /// A batch over the job triples of `args`, not started yet.
    pub fn new(args: &Vec<String>) -> (b: Batch)
        ensures
            b.wf(),
            b.phase == Phase::Pending,
            b.current == 0,
            b.jobs@.len() == args@.len() / 3,
            forall|k: int| 0 <= k < b.jobs@.len() ==> #[trigger] b.jobs@[k].formed_from(args@, k),
    {
        Batch { jobs: split_jobs(args), current: 0, phase: Phase::Pending }
    }

    /// Whether the batch can take report `ev` now.
    pub fn can_take(&self, ev: &Event) -> (r: bool)
        ensures
            r == accepts(self.phase, *ev),
    {
        match ev {
            Event::Go => self.phase == Phase::Pending,
            Event::Announced => self.phase == Phase::Announcing,
            Event::InputRead(_) => matches!(self.phase, Phase::Reading(_)),
            Event::Rendered(_) => self.phase == Phase::Rendering,
            Event::Written => self.phase == Phase::Writing,
            Event::Failed(_) => matches!(self.phase, Phase::Reading(_))
                || self.phase == Phase::Rendering || self.phase == Phase::Writing,
        }
    }

    /// Moves to job `current`, or finishes if none is left.
    fn open_current(&mut self) -> (c: Command)
        requires
            old(self).current <= old(self).jobs@.len(),
        ensures
            final(self).jobs@ == old(self).jobs@,
            final(self).current == old(self).current,
            final(self).opened(c),
    {
        if self.current < self.jobs.len() {
            let job = &self.jobs[self.current];
            let line = progress_line(job.input.as_str(), job.output.as_str());
            self.phase = Phase::Announcing;
            Command::Announce(line)
        } else {
            self.phase = Phase::Done;
            Command::Finish
        }
    }

    /// Takes the report of what the last command did and decides what comes next.
    pub fn step(&mut self, ev: Event) -> (c: Command)
        requires
            old(self).wf(),
            accepts(old(self).phase, ev),
        ensures
            final(self).wf(),
            old(self).moves_to(ev, *final(self), c),
    {
        match ev {
            Event::Go => self.open_current(),
            Event::Announced => {
                let job = &self.jobs[self.current];
                match table_kind(job.table.as_str()) {
                    Some(t) => {
                        let path = job.input.clone();
                        self.phase = Phase::Reading(t);
                        Command::ReadInput(path)
                    },
                    None => {
                        let name = job.table.clone();
                        self.phase = Phase::Failed;
                        Command::Abort(Halt::UnknownTable(name))
                    },
                }
            },
            Event::InputRead(content) => {
                // `accepts` leaves `Reading` as the only phase here.
                let table = match self.phase {
                    Phase::Reading(t) => t,
                    _ => TableKind::Default,
                };
                let name = self.jobs[self.current].input.clone();
                self.phase = Phase::Rendering;
                Command::Render { table, content, name }
            },
            Event::Rendered(svg) => {
                let path = self.jobs[self.current].output.clone();
                self.phase = Phase::Writing;
                Command::WriteOutput { path, text: svg }
            },
            Event::Written => {
                let n: usize = self.jobs.len();
                assert(self.current < n);
                self.current = self.current + 1;
                self.open_current()
            },
            Event::Failed(e) => {
                self.phase = Phase::Failed;
                Command::Abort(Halt::Job(e))
            },
        }
    }
}

/// A job whose table is known runs through in four moves: it reads exactly its
/// input path, renders exactly the text read under the input path's name,
/// writes exactly the rendered text to its output path, and then the batch
/// goes on to the next triple, or finishes after the last.
pub proof fn lemma_job_runs_through(
    b0: Batch,
    content: String,
    svg: String,
    b1: Batch,
    b2: Batch,
    b3: Batch,
    b4: Batch,
    c1: Command,
    c2: Command,
    c3: Command,
    c4: Command,
)
    requires
        b0.wf(),
        b0.phase == Phase::Announcing,
        table_of(b0.job().table@) is Some,
        b0.moves_to(Event::Announced, b1, c1),
        b1.moves_to(Event::InputRead(content), b2, c2),
        b2.moves_to(Event::Rendered(svg), b3, c3),
        b3.moves_to(Event::Written, b4, c4),
    ensures
        reads(c1, b0.job().input@),
        renders(c2, table_of(b0.job().table@)->0, content@, b0.job().input@),
        writes(c3, b0.job().output@, svg@),
        b4.jobs@ == b0.jobs@,
        b4.current == b0.current + 1,
        b4.opened(c4),
{
}

/// A failed read, render or write ends the batch: the failure is passed on
/// unchanged, and no later report is taken, so nothing more is written and no
/// later job starts.
pub proof fn lemma_failure_ends_batch(b0: Batch, e: Error, b1: Batch, c: Command, later: Event)
    requires
        b0.moves_to(Event::Failed(e), b1, c),
    ensures
        c == Command::Abort(Halt::Job(e)),
        b1.current == b0.current,
        !accepts(b1.phase, later),
{
}

/// A job naming an unknown table stops the batch once its progress line is
/// shown, before its input is read: the name is reported and no later report
/// is taken.
pub proof fn lemma_unknown_table_stops_before_io(b0: Batch, b1: Batch, c: Command, later: Event)
    requires
        b0.phase == Phase::Announcing,
        table_of(b0.job().table@) is None,
        b0.moves_to(Event::Announced, b1, c),
    ensures
        rejects_table(c, b0.job().table@),
        !accepts(b1.phase, later),
{
}

/// An input file is read only for a job whose table is known, and it is that
/// job's own input path.
pub proof fn lemma_reads_only_known_tables(b0: Batch, ev: Event, b1: Batch, c: Command, path: String)
    requires
        b0.moves_to(ev, b1, c),
        c == Command::ReadInput(path),
    ensures
        ev is Announced,
        table_of(b0.job().table@) is Some,
        path@ == b0.job().input@,
{
}

/// The batch finishes only after its last complete triple.
pub proof fn lemma_finishes_after_all_jobs(b0: Batch, ev: Event, b1: Batch)
    requires
        b0.wf(),
        accepts(b0.phase, ev),
        b0.moves_to(ev, b1, Command::Finish),
    ensures
        b1.current == b1.jobs@.len(),
        b1.phase == Phase::Done,
{
}

/// Running the same job again, when the renderer gives the same text, writes
/// the same text to the same path.
pub proof fn lemma_rerun_writes_same(
    b: Batch,
    svg: String,
    post: Batch,
    c: Command,
    b_again: Batch,
    svg_again: String,
    post_again: Batch,
    c_again: Command,
)
    requires
        b.moves_to(Event::Rendered(svg), post, c),
        b_again.moves_to(Event::Rendered(svg_again), post_again, c_again),
        b_again.job().output@ == b.job().output@,
        svg_again@ == svg@,
    ensures
        writes(c, b.job().output@, svg@),
        writes(c_again, b.job().output@, svg@),
{
}

} // verus!
