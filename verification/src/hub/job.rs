//! Job runs: what the hub's peers report about background jobs, and the
//! tracker that keeps it.
//!
//! A run is created, collects output, and is completed once. A completed
//! run does not change any more.

use vstd::prelude::*;
use vstd::string::StringExecFns;

verus! {

/// Mathematical value of a [`JobRun`].
pub struct JobRunView {
    pub id: i32,
    pub name: Seq<char>,
    pub created_at: u64,
    pub updated_at: u64,
    pub finished_at: Option<u64>,
    pub exit_code: Option<i32>,
    pub stdout: Seq<char>,
    pub stderr: Seq<char>,
}

impl JobRunView {
    /// A run is running until it is completed.
    pub open spec fn is_running(self) -> bool {
        self.finished_at is None
    }

    /// The exit code and the time of completion are set together.
    pub open spec fn consistent(self) -> bool {
        self.finished_at is Some <==> self.exit_code is Some
    }
}

/// The run that was just created under `id`.
pub open spec fn created(id: i32, name: Seq<char>, now: u64) -> JobRunView {
    JobRunView {
        id,
        name,
        created_at: now,
        updated_at: now,
        finished_at: None,
        exit_code: None,
        stdout: Seq::empty(),
        stderr: Seq::empty(),
    }
}

/// `run` after `chunk` was added to its standard output.
pub open spec fn with_stdout(run: JobRunView, chunk: Seq<char>, now: u64) -> JobRunView {
    JobRunView { stdout: run.stdout + chunk, updated_at: now, ..run }
}

/// `run` after `chunk` was added to its standard error.
pub open spec fn with_stderr(run: JobRunView, chunk: Seq<char>, now: u64) -> JobRunView {
    JobRunView { stderr: run.stderr + chunk, updated_at: now, ..run }
}

/// `run` after it was completed with `exit_code`.
pub open spec fn completed(run: JobRunView, exit_code: i32, now: u64) -> JobRunView {
    JobRunView { exit_code: Some(exit_code), finished_at: Some(now), updated_at: now, ..run }
}

/// Why the tracker refused a call.
#[derive(Clone, Copy, Debug, PartialEq, Eq, Structural)]
pub enum JobError {
    /// No run has this id.
    NotFound,
    /// The run is completed and does not change any more.
    AlreadyFinished,
    /// Every id has been given out.
    IdsExhausted,
}

/// The record of one run of a job.
#[derive(Debug)]
pub struct JobRun {
    id: i32,
    name: String,
    created_at: u64,
    updated_at: u64,
    finished_at: Option<u64>,
    exit_code: Option<i32>,
    stdout: String,
    stderr: String,
}

impl View for JobRun {
    type V = JobRunView;

    closed spec fn view(&self) -> JobRunView {
        JobRunView {
            id: self.id,
            name: self.name@,
            created_at: self.created_at,
            updated_at: self.updated_at,
            finished_at: self.finished_at,
            exit_code: self.exit_code,
            stdout: self.stdout@,
            stderr: self.stderr@,
        }
    }
}

impl JobRun {
    #[verifier::type_invariant]
    spec fn well_formed(&self) -> bool {
        self@.consistent()
    }

    fn new(id: i32, name: String, now: u64) -> (run: JobRun)
        ensures
            run@ == created(id, name@, now),
    {
        JobRun {
            id,
            name,
            created_at: now,
            updated_at: now,
            finished_at: None,
            exit_code: None,
            stdout: String::new(),
            stderr: String::new(),
        }
    }

    fn append_stdout(&mut self, chunk: &str, now: u64)
        ensures
            final(self)@ == with_stdout(old(self)@, chunk@, now),
    {
        proof {
            use_type_invariant(&*self);
        }
        let mut text = String::new();
        core::mem::swap(&mut self.stdout, &mut text);
        text.append(chunk);
        self.stdout = text;
        self.updated_at = now;
    }

    fn append_stderr(&mut self, chunk: &str, now: u64)
        ensures
            final(self)@ == with_stderr(old(self)@, chunk@, now),
    {
        proof {
            use_type_invariant(&*self);
        }
        let mut text = String::new();
        core::mem::swap(&mut self.stderr, &mut text);
        text.append(chunk);
        self.stderr = text;
        self.updated_at = now;
    }

    fn complete(self, exit_code: i32, now: u64) -> (run: JobRun)
        ensures
            run@ == completed(self@, exit_code, now),
    {
        JobRun {
            id: self.id,
            name: self.name,
            created_at: self.created_at,
            updated_at: now,
            finished_at: Some(now),
            exit_code: Some(exit_code),
            stdout: self.stdout,
            stderr: self.stderr,
        }
    }

    pub fn id(&self) -> (id: i32)
        ensures
            id == self@.id,
    {
        self.id
    }

    pub fn name(&self) -> (name: &str)
        ensures
            name@ == self@.name,
    {
        self.name.as_str()
    }

    pub fn created_at(&self) -> (at: u64)
        ensures
            at == self@.created_at,
    {
        self.created_at
    }

    pub fn updated_at(&self) -> (at: u64)
        ensures
            at == self@.updated_at,
    {
        self.updated_at
    }

    pub fn finished_at(&self) -> (at: Option<u64>)
        ensures
            at == self@.finished_at,
    {
        self.finished_at
    }

    pub fn exit_code(&self) -> (code: Option<i32>)
        ensures
            code == self@.exit_code,
            code is Some <==> self@.finished_at is Some,
    {
        proof {
            use_type_invariant(self);
        }
        self.exit_code
    }

    pub fn stdout(&self) -> (text: &str)
        ensures
            text@ == self@.stdout,
    {
        self.stdout.as_str()
    }

    pub fn stderr(&self) -> (text: &str)
        ensures
            text@ == self@.stderr,
    {
        self.stderr.as_str()
    }

    /// Whether the run has not been completed yet.
    pub fn is_running(&self) -> (running: bool)
        ensures
            running == self@.is_running(),
    {
        self.finished_at.is_none()
    }
}

/// Mathematical value of the tracker: the run kept under each id.
pub type JobsView = Map<i32, JobRunView>;

spec fn by_id(first_id: i32, runs: Seq<JobRun>) -> JobsView {
    Map::new(
        |id: i32| first_id <= id < first_id + runs.len(),
        |id: i32| runs[id - first_id]@,
    )
}

spec fn numbered(first_id: i32, runs: Seq<JobRun>) -> bool {
    &&& first_id >= 1
    &&& first_id + runs.len() <= i32::MAX + 1
    &&& forall|i: int| 0 <= i < runs.len() ==> (#[trigger] runs[i])@.id == first_id + i
}

/// Keeps the job runs. Ids are positive and given out in order.
#[derive(Debug)]
pub struct JobTracker {
    first_id: i32,
    runs: Vec<JobRun>,
}

impl View for JobTracker {
    type V = JobsView;

    closed spec fn view(&self) -> JobsView {
        by_id(self.first_id, self.runs@)
    }
}

impl JobTracker {
    #[verifier::type_invariant]
    spec fn well_formed(&self) -> bool {
        numbered(self.first_id, self.runs@)
    }

    /// The id that the next run will get.
    pub closed spec fn next_id(&self) -> int {
        self.first_id + self.runs@.len()
    }

    /// A tracker with no run in it, whose first run will get the id 1.
    pub fn new() -> (tracker: JobTracker)
        ensures
            tracker@ == JobsView::empty(),
            tracker.next_id() == 1,
    {
        JobTracker::with_first_id(1)
    }

    /// A tracker with no run in it, whose first run will get `first_id`:
    /// for a tracker that takes up where an earlier one left off.
    pub fn with_first_id(first_id: i32) -> (tracker: JobTracker)
        requires
            first_id >= 1,
        ensures
            tracker@ == JobsView::empty(),
            tracker.next_id() == first_id,
    {
        let tracker = JobTracker { first_id, runs: Vec::new() };
        assert(tracker@ =~= JobsView::empty());
        tracker
    }

    fn index_of(&self, id: i32) -> (at: Option<usize>)
        ensures
            match at {
                Some(at) => self@.contains_key(id) && at == id - self.first_id && at
                    < self.runs@.len() && self@[id] == self.runs@[at as int]@,
                None => !self@.contains_key(id),
            },
            id < 1 ==> at is None,
    {
        proof {
            use_type_invariant(self);
        }
        if id < self.first_id {
            return None;
        }
        let at: usize = (id - self.first_id) as usize;
        if at < self.runs.len() {
            Some(at)
        } else {
            None
        }
    }

    /// The id that the next run will get, or `None` when every id has been
    /// given out. The ids in use are the positive numbers from the first
    /// id up to the next one, and each run is kept under its own id.
    pub fn next_job_id(&self) -> (next: Option<i32>)
        ensures
            self.next_id() >= 1,
            forall|id: i32| self@.contains_key(id) ==> 1 <= id < self.next_id(),
            forall|id: i32| self@.contains_key(id) ==> (#[trigger] self@[id]).id == id,
            match next {
                Some(id) => id == self.next_id(),
                None => self.next_id() > i32::MAX,
            },
    {
        proof {
            use_type_invariant(self);
        }
        let used: usize = self.runs.len();
        let left: usize = (0x7fff_ffffi32 - self.first_id) as usize;
        if used <= left {
            Some(self.first_id + used as i32)
        } else {
            None
        }
    }

    /// Starts a run of the job `name` and gives it the next id.
    pub fn create_job_run(&mut self, name: String, now: u64) -> (outcome: Result<i32, JobError>)
        ensures
            old(self).next_id() <= i32::MAX ==> outcome == Ok::<i32, JobError>(
                old(self).next_id() as i32,
            ) && !old(self)@.contains_key(old(self).next_id() as i32) && final(self)@ == old(
                self,
            )@.insert(
                old(self).next_id() as i32,
                created(old(self).next_id() as i32, name@, now),
            ) && final(self).next_id() == old(self).next_id() + 1,
            old(self).next_id() > i32::MAX ==> outcome == Err::<i32, JobError>(
                JobError::IdsExhausted,
            ) && final(self)@ == old(self)@ && final(self).next_id() == old(self).next_id(),
    {
        match self.next_job_id() {
            None => Err(JobError::IdsExhausted),
            Some(id) => {
                proof {
                    use_type_invariant(&*self);
                }
                let run = JobRun::new(id, name, now);
                let mut runs: Vec<JobRun> = Vec::new();
                core::mem::swap(&mut self.runs, &mut runs);
                let ghost before = runs@;
                runs.push(run);
                assert(by_id(self.first_id, runs@) =~= by_id(self.first_id, before).insert(
                    id,
                    run@,
                ));
                self.runs = runs;
                Ok(id)
            },
        }
    }

    /// The run kept under `id`, if there is one.
    pub fn get(&self, id: i32) -> (found: Option<&JobRun>)
        ensures
            match found {
                Some(run) => self@.contains_key(id) && run@ == self@[id],
                None => !self@.contains_key(id),
            },
    {
        match self.index_of(id) {
            Some(at) => Some(&self.runs[at]),
            None => None,
        }
    }

    /// Adds `stdout` to the standard output of the run `id`.
    pub fn update_job_stdout(&mut self, id: i32, stdout: &str, now: u64) -> (outcome: Result<
        (),
        JobError,
    >)
        ensures
            outcome == refusal(old(self)@, id),
            final(self)@ == after_call(
                old(self)@,
                JobCall::UpdateStdout { id, chunk: stdout@, now },
            ),
            id < 1 ==> outcome == Err::<(), JobError>(JobError::NotFound),
            final(self).next_id() == old(self).next_id(),
    {
        proof {
            use_type_invariant(&*self);
        }
        let at = match self.index_of(id) {
            Some(at) => at,
            None => {
                return Err(JobError::NotFound);
            },
        };
        if !self.runs[at].is_running() {
            return Err(JobError::AlreadyFinished);
        }
        let mut runs: Vec<JobRun> = Vec::new();
        core::mem::swap(&mut self.runs, &mut runs);
        let ghost before = runs@;
        let mut run = runs.remove(at);
        run.append_stdout(stdout, now);
        runs.insert(at, run);
        assert(by_id(self.first_id, runs@) =~= by_id(self.first_id, before).insert(id, run@));
        self.runs = runs;
        Ok(())
    }

    /// Adds `stderr` to the standard error of the run `id`.
    pub fn update_job_stderr(&mut self, id: i32, stderr: &str, now: u64) -> (outcome: Result<
        (),
        JobError,
    >)
        ensures
            outcome == refusal(old(self)@, id),
            final(self)@ == after_call(
                old(self)@,
                JobCall::UpdateStderr { id, chunk: stderr@, now },
            ),
            id < 1 ==> outcome == Err::<(), JobError>(JobError::NotFound),
            final(self).next_id() == old(self).next_id(),
    {
        proof {
            use_type_invariant(&*self);
        }
        let at = match self.index_of(id) {
            Some(at) => at,
            None => {
                return Err(JobError::NotFound);
            },
        };
        if !self.runs[at].is_running() {
            return Err(JobError::AlreadyFinished);
        }
        let mut runs: Vec<JobRun> = Vec::new();
        core::mem::swap(&mut self.runs, &mut runs);
        let ghost before = runs@;
        let mut run = runs.remove(at);
        run.append_stderr(stderr, now);
        runs.insert(at, run);
        assert(by_id(self.first_id, runs@) =~= by_id(self.first_id, before).insert(id, run@));
        self.runs = runs;
        Ok(())
    }

    /// Completes the run `id` with `exit_code`.
    pub fn complete_job_run(&mut self, id: i32, exit_code: i32, now: u64) -> (outcome: Result<
        (),
        JobError,
    >)
        ensures
            outcome == refusal(old(self)@, id),
            final(self)@ == after_call(old(self)@, JobCall::Complete { id, exit_code, now }),
            id < 1 ==> outcome == Err::<(), JobError>(JobError::NotFound),
            final(self).next_id() == old(self).next_id(),
    {
        proof {
            use_type_invariant(&*self);
        }
        let at = match self.index_of(id) {
            Some(at) => at,
            None => {
                return Err(JobError::NotFound);
            },
        };
        if !self.runs[at].is_running() {
            return Err(JobError::AlreadyFinished);
        }
        let mut runs: Vec<JobRun> = Vec::new();
        core::mem::swap(&mut self.runs, &mut runs);
        let ghost before = runs@;
        let run = runs.remove(at).complete(exit_code, now);
        runs.insert(at, run);
        assert(by_id(self.first_id, runs@) =~= by_id(self.first_id, before).insert(id, run@));
        self.runs = runs;
        Ok(())
    }
}

/// Whether a change to the run `id` is made, and if not, why: there must
/// be such a run, and it must still be running.
pub open spec fn refusal(jobs: JobsView, id: i32) -> Result<(), JobError> {
    if !jobs.contains_key(id) {
        Err(JobError::NotFound)
    } else if !jobs[id].is_running() {
        Err(JobError::AlreadyFinished)
    } else {
        Ok(())
    }
}

/// A call that changes a run.
pub enum JobCall {
    UpdateStdout { id: i32, chunk: Seq<char>, now: u64 },
    UpdateStderr { id: i32, chunk: Seq<char>, now: u64 },
    Complete { id: i32, exit_code: i32, now: u64 },
}

impl JobCall {
    /// The run the call is about.
    pub open spec fn id(self) -> i32 {
        match self {
            JobCall::UpdateStdout { id, .. } => id,
            JobCall::UpdateStderr { id, .. } => id,
            JobCall::Complete { id, .. } => id,
        }
    }

    /// What the call makes of a run that is still running.
    pub open spec fn applied(self, run: JobRunView) -> JobRunView {
        match self {
            JobCall::UpdateStdout { chunk, now, .. } => with_stdout(run, chunk, now),
            JobCall::UpdateStderr { chunk, now, .. } => with_stderr(run, chunk, now),
            JobCall::Complete { exit_code, now, .. } => completed(run, exit_code, now),
        }
    }
}

/// The runs after `call`: a call that is refused changes nothing; any
/// other changes the run it names, and only that one.
pub open spec fn after_call(jobs: JobsView, call: JobCall) -> JobsView {
    if refusal(jobs, call.id()) is Ok {
        jobs.insert(call.id(), call.applied(jobs[call.id()]))
    } else {
        jobs
    }
}

/// The runs after `calls`, in order.
pub open spec fn after_calls(jobs: JobsView, calls: Seq<JobCall>) -> JobsView
    decreases calls.len(),
{
    if calls.len() == 0 {
        jobs
    } else {
        after_call(after_calls(jobs, calls.drop_last()), calls.last())
    }
}

/// The updates that add each of `chunks`, in order, to the standard
/// output of the run `id`.
pub open spec fn stdout_updates(id: i32, chunks: Seq<Seq<char>>, now: u64) -> Seq<JobCall> {
    chunks.map_values(|chunk: Seq<char>| JobCall::UpdateStdout { id, chunk, now })
}

/// All of `chunks`, one after the other.
pub open spec fn joined(chunks: Seq<Seq<char>>) -> Seq<char>
    decreases chunks.len(),
{
    if chunks.len() == 0 {
        Seq::empty()
    } else {
        joined(chunks.drop_last()) + chunks.last()
    }
}

/// A run that is completed stays as it is, whatever calls follow, and no
/// call takes a run away or changes which ids are in use.
pub proof fn lemma_completed_run_is_final(jobs: JobsView, id: i32, calls: Seq<JobCall>)
    requires
        jobs.contains_key(id),
        !jobs[id].is_running(),
    ensures
        after_calls(jobs, calls).dom() == jobs.dom(),
        after_calls(jobs, calls)[id] == jobs[id],
    decreases calls.len(),
{
    if calls.len() > 0 {
        lemma_completed_run_is_final(jobs, id, calls.drop_last());
        let before = after_calls(jobs, calls.drop_last());
        assert(after_call(before, calls.last()).dom() =~= before.dom());
    }
}

/// A run keeps its id, its name and its time of creation through every
/// call, and calls about another run do not touch it.
pub proof fn lemma_calls_keep_identity(jobs: JobsView, id: i32, calls: Seq<JobCall>)
    requires
        jobs.contains_key(id),
    ensures
        after_calls(jobs, calls).contains_key(id),
        after_calls(jobs, calls)[id].id == jobs[id].id,
        after_calls(jobs, calls)[id].name == jobs[id].name,
        after_calls(jobs, calls)[id].created_at == jobs[id].created_at,
        (forall|i: int| 0 <= i < calls.len() ==> (#[trigger] calls[i]).id() != id) ==> after_calls(
            jobs,
            calls,
        )[id] == jobs[id],
    decreases calls.len(),
{
    if calls.len() > 0 {
        lemma_calls_keep_identity(jobs, id, calls.drop_last());
        if forall|i: int| 0 <= i < calls.len() ==> (#[trigger] calls[i]).id() != id {
            assert(calls.last() == calls[calls.len() - 1]);
            assert forall|i: int| 0 <= i < calls.drop_last().len() implies (
            #[trigger] calls.drop_last()[i]).id() != id by {
                assert(calls.drop_last()[i] == calls[i]);
            }
        }
    }
}

/// The standard output of a running run collects what is added to it, in
/// the order in which it is added.
pub proof fn lemma_stdout_accumulates(jobs: JobsView, id: i32, chunks: Seq<Seq<char>>, now: u64)
    requires
        jobs.contains_key(id),
        jobs[id].is_running(),
    ensures
        after_calls(jobs, stdout_updates(id, chunks, now)).contains_key(id),
        after_calls(jobs, stdout_updates(id, chunks, now))[id].is_running(),
        after_calls(jobs, stdout_updates(id, chunks, now))[id].stdout == jobs[id].stdout + joined(
            chunks,
        ),
        after_calls(jobs, stdout_updates(id, chunks, now))[id].stderr == jobs[id].stderr,
    decreases chunks.len(),
{
    let calls = stdout_updates(id, chunks, now);
    if chunks.len() == 0 {
        assert(jobs[id].stdout + joined(chunks) =~= jobs[id].stdout);
    } else {
        lemma_stdout_accumulates(jobs, id, chunks.drop_last(), now);
        assert(calls.drop_last() =~= stdout_updates(id, chunks.drop_last(), now));
        assert(calls.last() == JobCall::UpdateStdout { id, chunk: chunks.last(), now });
        assert(jobs[id].stdout + joined(chunks.drop_last()) + chunks.last() =~= jobs[id].stdout
            + joined(chunks));
    }
}

} // verus!
