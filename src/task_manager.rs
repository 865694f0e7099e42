//! The task manager: the list of requested filesystem mutations, each with a
//! status that the progress events of its execution drive.

use crate::ids::random_id;
use tokio::sync::mpsc::{UnboundedReceiver, UnboundedSender};
use vstd::prelude::*;

verus! {

/// Progress is counted in thousandths: 1000 is done.
pub const PROGRESS_SCALE: u16 = 1000;

/// One requested filesystem mutation.
#[derive(Debug, Clone, PartialEq, Eq)]
pub enum TaskKind {
    Copy { src: String, dest: String },
    Move { src: String, dest: String },
    Delete { path: String },
    CreateFile { path: String },
    CreateDirectory { path: String },
}

impl TaskKind {
    /// The path whose directory listing changes when the task completes.
    pub open spec fn spec_affected_path(self) -> String {
        match self {
            TaskKind::Copy { dest, .. } => dest,
            TaskKind::Move { dest, .. } => dest,
            TaskKind::Delete { path } => path,
            TaskKind::CreateFile { path } => path,
            TaskKind::CreateDirectory { path } => path,
        }
    }

    pub fn affected_path(&self) -> (r: String)
        ensures
            r == self.spec_affected_path(),
    {
        match self {
            TaskKind::Copy { dest, .. } => dest.clone(),
            TaskKind::Move { dest, .. } => dest.clone(),
            TaskKind::Delete { path } => path.clone(),
            TaskKind::CreateFile { path } => path.clone(),
            TaskKind::CreateDirectory { path } => path.clone(),
        }
    }

    /// A copy of the kind.
    pub fn duplicate(&self) -> (r: TaskKind)
        ensures
            r == *self,
    {
        match self {
            TaskKind::Copy { src, dest } => TaskKind::Copy { src: src.clone(), dest: dest.clone() },
            TaskKind::Move { src, dest } => TaskKind::Move { src: src.clone(), dest: dest.clone() },
            TaskKind::Delete { path } => TaskKind::Delete { path: path.clone() },
            TaskKind::CreateFile { path } => TaskKind::CreateFile { path: path.clone() },
            TaskKind::CreateDirectory { path } => TaskKind::CreateDirectory { path: path.clone() },
        }
    }
}

/// Where a task stands: `Pending`, then `InProgress` (in thousandths), then
/// `Completed` or `Failed`, which are final.
#[derive(Debug, Clone, PartialEq, Eq)]
pub enum TaskStatus {
    Pending,
    InProgress(u16),
    Completed,
    Failed(String),
}

impl TaskStatus {
    pub open spec fn is_terminal(self) -> bool {
        self is Completed || self is Failed
    }

    /// Whether the task has ended, completed or failed.
    pub fn is_over(&self) -> (r: bool)
        ensures
            r == self.is_terminal(),
    {
        matches!(self, TaskStatus::Completed | TaskStatus::Failed(_))
    }

    /// A copy of the status.
    pub fn duplicate(&self) -> (r: TaskStatus)
        ensures
            r == *self,
    {
        match self {
            TaskStatus::Pending => TaskStatus::Pending,
            TaskStatus::InProgress(p) => TaskStatus::InProgress(*p),
            TaskStatus::Completed => TaskStatus::Completed,
            TaskStatus::Failed(m) => TaskStatus::Failed(m.clone()),
        }
    }
}

/// A message from a task's execution: progress, completion with the path
/// to refresh, or failure with its reason.
#[derive(Debug, Clone, PartialEq, Eq)]
pub enum ProgressEvent {
    Update(u16),
    Completed { affected_path: String },
    Error(String),
}

impl ProgressEvent {
    /// Whether the event ends the task.
    pub open spec fn is_terminal(self) -> bool {
        self is Completed || self is Error
    }
}

/// One user-visible operation.
#[derive(Debug, Clone)]
pub struct Task {
    pub id: u128,
    pub kind: TaskKind,
    pub status: TaskStatus,
    pub description: String,
}

impl Task {
    /// A pending task under a fresh random identifier.
    pub fn new(kind: TaskKind, description: String) -> (r: Task)
        ensures
            r.kind == kind,
            r.description == description,
            r.status == TaskStatus::Pending,
    {
        Task { id: random_id(), kind, status: TaskStatus::Pending, description }
    }

    /// A copy of the task.
    pub fn duplicate(&self) -> (r: Task)
        ensures
            r == *self,
    {
        Task {
            id: self.id,
            kind: self.kind.duplicate(),
            status: self.status.duplicate(),
            description: self.description.clone(),
        }
    }
}

/// The status a task takes on `event`: a final status stays; an update sets
/// the progress (at most done); completion and failure end the task.
pub open spec fn status_after(status: TaskStatus, event: ProgressEvent) -> TaskStatus {
    if status.is_terminal() {
        status
    } else {
        match event {
            ProgressEvent::Update(p) => TaskStatus::InProgress(
                if p > PROGRESS_SCALE {
                    PROGRESS_SCALE
                } else {
                    p
                },
            ),
            ProgressEvent::Completed { .. } => TaskStatus::Completed,
            ProgressEvent::Error(m) => TaskStatus::Failed(m),
        }
    }
}

/// The index of the first task with identifier `id`.
pub open spec fn find_task(tasks: Seq<Task>, id: u128) -> Option<int>
    decreases tasks.len(),
{
    if tasks.len() == 0 {
        None
    } else {
        match find_task(tasks.drop_last(), id) {
            Some(i) => Some(i),
            None => if tasks.last().id == id {
                Some(tasks.len() - 1)
            } else {
                None
            },
        }
    }
}

/// Whether `event` is a completion for a task in the list.
pub open spec fn completes(tasks: Seq<Task>, id: u128, event: ProgressEvent) -> bool {
    match find_task(tasks, id) {
        Some(_) => event is Completed,
        None => false,
    }
}

/// The task list after `event` for `id`; an unknown identifier changes nothing.
pub open spec fn tasks_after(tasks: Seq<Task>, id: u128, event: ProgressEvent) -> Seq<Task> {
    match find_task(tasks, id) {
        Some(i) => tasks.update(i, Task { status: status_after(tasks[i].status, event), ..tasks[i] }),
        None => tasks,
    }
}

/// The paths to refresh after `event` for `id`.
pub open spec fn refresh_after(
    tasks: Seq<Task>,
    refresh: Seq<String>,
    id: u128,
    event: ProgressEvent,
) -> Seq<String> {
    if completes(tasks, id, event) {
        refresh.push(event->affected_path)
    } else {
        refresh
    }
}

/// The task list after each event of `events`, in order.
pub open spec fn tasks_after_all(tasks: Seq<Task>, events: Seq<(u128, ProgressEvent)>) -> Seq<Task>
    decreases events.len(),
{
    if events.len() == 0 {
        tasks
    } else {
        let before = tasks_after_all(tasks, events.drop_last());
        tasks_after(before, events.last().0, events.last().1)
    }
}

/// The paths to refresh after each event of `events`, in order.
pub open spec fn refresh_after_all(
    tasks: Seq<Task>,
    refresh: Seq<String>,
    events: Seq<(u128, ProgressEvent)>,
) -> Seq<String>
    decreases events.len(),
{
    if events.len() == 0 {
        refresh
    } else {
        let before = tasks_after_all(tasks, events.drop_last());
        let r = refresh_after_all(tasks, refresh, events.drop_last());
        refresh_after(before, r, events.last().0, events.last().1)
    }
}

/// Whether one of `events` completes a task, each applied in turn.
pub open spec fn any_completes(tasks: Seq<Task>, events: Seq<(u128, ProgressEvent)>) -> bool
    decreases events.len(),
{
    if events.len() == 0 {
        false
    } else {
        let before = tasks_after_all(tasks, events.drop_last());
        any_completes(tasks, events.drop_last()) || completes(
            before,
            events.last().0,
            events.last().1,
        )
    }
}

/// The identifiers and kinds of the pending tasks, in order.
pub open spec fn pending_jobs(tasks: Seq<Task>) -> Seq<(u128, TaskKind)>
    decreases tasks.len(),
{
    if tasks.len() == 0 {
        seq![]
    } else {
        let before = pending_jobs(tasks.drop_last());
        if tasks.last().status is Pending {
            before.push((tasks.last().id, tasks.last().kind))
        } else {
            before
        }
    }
}

/// The tasks with every pending one started at no progress.
pub open spec fn started(tasks: Seq<Task>) -> Seq<Task> {
    Seq::new(
        tasks.len(),
        |i: int|
            if tasks[i].status is Pending {
                Task { status: TaskStatus::InProgress(0), ..tasks[i] }
            } else {
                tasks[i]
            },
    )
}

/// A task found in a prefix of the list is the one found in the list.
pub proof fn lemma_find_in_prefix(tasks: Seq<Task>, k: int, id: u128)
    requires
        0 <= k <= tasks.len(),
        find_task(tasks.subrange(0, k), id) is Some,
    ensures
        find_task(tasks, id) == find_task(tasks.subrange(0, k), id),
    decreases tasks.len(),
{
    if k == tasks.len() {
        assert(tasks.subrange(0, k) =~= tasks);
    } else {
        assert(tasks.drop_last().subrange(0, k) =~= tasks.subrange(0, k));
        lemma_find_in_prefix(tasks.drop_last(), k, id);
    }
}

/// No two tasks share an identifier.
pub open spec fn ids_distinct(tasks: Seq<Task>) -> bool {
    forall|i: int, j: int|
        0 <= i < tasks.len() && 0 <= j < tasks.len() && i != j ==> tasks[i].id != tasks[j].id
}

/// What `find_task` finds is a task with that identifier.
pub proof fn lemma_find_task_found(tasks: Seq<Task>, id: u128)
    ensures
        find_task(tasks, id) matches Some(i) ==> 0 <= i < tasks.len() && tasks[i].id == id,
    decreases tasks.len(),
{
    if tasks.len() > 0 {
        lemma_find_task_found(tasks.drop_last(), id);
    }
}

/// With distinct identifiers, a task is found under its own identifier.
pub proof fn lemma_find_task_distinct(tasks: Seq<Task>, i: int)
    requires
        ids_distinct(tasks),
        0 <= i < tasks.len(),
    ensures
        find_task(tasks, tasks[i].id) == Some(i),
    decreases tasks.len(),
{
    let id = tasks[i].id;
    if i == tasks.len() - 1 {
        lemma_find_task_found(tasks.drop_last(), id);
    } else {
        lemma_find_task_distinct(tasks.drop_last(), i);
    }
}

/// Whether a task in `tasks` has the identifier `id`.
pub open spec fn id_taken(tasks: Seq<Task>, id: int) -> bool {
    exists|i: int| 0 <= i < tasks.len() && tasks[i].id as int == id
}

/// A list in which every identifier below `n` is taken holds at least `n`
/// tasks.
proof fn lemma_taken_ids_need_tasks(tasks: Seq<Task>, n: nat)
    requires
        forall|c: int| 0 <= c < n ==> id_taken(tasks, c),
    ensures
        tasks.len() >= n,
    decreases n,
{
    if n > 0 {
        assert(id_taken(tasks, n - 1));
        let j = choose|i: int| 0 <= i < tasks.len() && tasks[i].id as int == n - 1;
        let rest = tasks.remove(j);
        assert forall|c: int| 0 <= c < n - 1 implies id_taken(rest, c) by {
            assert(id_taken(tasks, c));
            let k = choose|i: int| 0 <= i < tasks.len() && tasks[i].id as int == c;
            if k < j {
                assert(rest[k] == tasks[k]);
            } else {
                assert(k != j);
                assert(rest[k - 1] == tasks[k]);
            }
        }
        lemma_taken_ids_need_tasks(rest, (n - 1) as nat);
    }
}

/// Adding a task under an identifier not taken keeps identifiers distinct.
pub proof fn lemma_fresh_id_keeps_distinct(tasks: Seq<Task>, task: Task)
    requires
        ids_distinct(tasks),
        !id_taken(tasks, task.id as int),
    ensures
        ids_distinct(tasks.push(task)),
{
    assert forall|i: int, j: int|
        0 <= i < tasks.len() + 1 && 0 <= j < tasks.len() + 1 && i != j implies #[trigger] tasks.push(
        task,
    )[i].id != #[trigger] tasks.push(task)[j].id by {
        if i == tasks.len() {
            assert(tasks.push(task)[j] == tasks[j]);
        } else if j == tasks.len() {
            assert(tasks.push(task)[i] == tasks[i]);
        }
    }
}

/// Events change statuses only: the length, identifiers, kinds and
/// descriptions of the tasks stay.
pub proof fn lemma_events_keep_tasks(tasks: Seq<Task>, events: Seq<(u128, ProgressEvent)>)
    ensures
        tasks_after_all(tasks, events).len() == tasks.len(),
        forall|i: int|
            0 <= i < tasks.len() ==> {
                &&& #[trigger] tasks_after_all(tasks, events)[i].id == tasks[i].id
                &&& tasks_after_all(tasks, events)[i].kind == tasks[i].kind
                &&& tasks_after_all(tasks, events)[i].description == tasks[i].description
            },
    decreases events.len(),
{
    if events.len() > 0 {
        lemma_events_keep_tasks(tasks, events.drop_last());
        lemma_find_task_found(tasks_after_all(tasks, events.drop_last()), events.last().0);
    }
}

/// Applying `a` then `b` is applying `a + b`.
pub proof fn lemma_tasks_after_append(
    tasks: Seq<Task>,
    a: Seq<(u128, ProgressEvent)>,
    b: Seq<(u128, ProgressEvent)>,
)
    ensures
        tasks_after_all(tasks, a + b) == tasks_after_all(tasks_after_all(tasks, a), b),
    decreases b.len(),
{
    if b.len() == 0 {
        assert(a + b =~= a);
    } else {
        assert((a + b).drop_last() =~= a + b.drop_last());
        lemma_tasks_after_append(tasks, a, b.drop_last());
    }
}

/// A task that has ended keeps its status whatever events follow: applying
/// further progress events to it changes nothing.
pub proof fn lemma_ended_task_stays(
    tasks: Seq<Task>,
    events: Seq<(u128, ProgressEvent)>,
    i: int,
)
    requires
        0 <= i < tasks.len(),
        tasks[i].status.is_terminal(),
    ensures
        tasks_after_all(tasks, events)[i] == tasks[i],
    decreases events.len(),
{
    if events.len() > 0 {
        lemma_ended_task_stays(tasks, events.drop_last(), i);
        lemma_events_keep_tasks(tasks, events.drop_last());
        lemma_find_task_found(tasks_after_all(tasks, events.drop_last()), events.last().0);
    }
}

/// Once the pending tasks are started none is pending, so starting again
/// starts nothing: each task gets exactly one execution.
pub proof fn lemma_processing_starts_each_once(tasks: Seq<Task>)
    ensures
        forall|i: int| 0 <= i < tasks.len() ==> !(#[trigger] started(tasks)[i].status is Pending),
        started(started(tasks)) == started(tasks),
        pending_jobs(started(tasks)) == Seq::<(u128, TaskKind)>::empty(),
    decreases tasks.len(),
{
    let s = started(tasks);
    assert(started(s) =~= s);
    if tasks.len() > 0 {
        lemma_processing_starts_each_once(tasks.drop_last());
        assert(s.drop_last() =~= started(tasks.drop_last()));
    }
}

/// Whether one of `events` ends the task `id`.
pub open spec fn end_reported(events: Seq<(u128, ProgressEvent)>, id: u128) -> bool {
    exists|k: int| 0 <= k < events.len() && #[trigger] events[k].0 == id && events[k].1.is_terminal()
}

/// Every task ends once its execution has reported a completion or an
/// error, whatever other events come before or after.
pub proof fn lemma_every_task_ends(tasks: Seq<Task>, events: Seq<(u128, ProgressEvent)>)
    requires
        ids_distinct(tasks),
        forall|i: int| 0 <= i < tasks.len() ==> end_reported(events, #[trigger] tasks[i].id),
    ensures
        forall|i: int|
            0 <= i < tasks.len() ==> #[trigger] tasks_after_all(tasks, events)[i].status.is_terminal(),
{
    assert forall|i: int| 0 <= i < tasks.len() implies #[trigger] tasks_after_all(
        tasks,
        events,
    )[i].status.is_terminal() by {
        assert(end_reported(events, tasks[i].id));
        let k = choose|k: int|
            0 <= k < events.len() && #[trigger] events[k].0 == tasks[i].id
                && events[k].1.is_terminal();
        let head = events.subrange(0, k);
        let upto = events.subrange(0, k + 1);
        let rest = events.subrange(k + 1, events.len() as int);
        let before = tasks_after_all(tasks, head);
        lemma_events_keep_tasks(tasks, head);
        assert(ids_distinct(before));
        lemma_find_task_distinct(before, i);
        assert(upto.drop_last() =~= head);
        let mid = tasks_after_all(tasks, upto);
        assert(mid[i].status.is_terminal());
        lemma_events_keep_tasks(tasks, upto);
        lemma_ended_task_stays(mid, rest, i);
        assert(upto + rest =~= events);
        lemma_tasks_after_append(tasks, upto, rest);
    }
}

/// A completion is reported by the call that applies it: that call says so,
/// queues the path and ends the task; calls that apply no further completion
/// report nothing, queue nothing and leave the task completed.
pub proof fn lemma_completion_reported_once(
    tasks: Seq<Task>,
    refresh: Seq<String>,
    i: int,
    path: String,
    later: Seq<(u128, ProgressEvent)>,
)
    requires
        ids_distinct(tasks),
        0 <= i < tasks.len(),
        !tasks[i].status.is_terminal(),
        forall|k: int| 0 <= k < later.len() ==> !(#[trigger] later[k].1 is Completed),
    ensures
        ({
            let first = seq![(tasks[i].id, ProgressEvent::Completed { affected_path: path })];
            let after = tasks_after_all(tasks, first);
            let queued = refresh_after_all(tasks, refresh, first);
            &&& any_completes(tasks, first)
            &&& queued == refresh.push(path)
            &&& after[i].status == TaskStatus::Completed
            &&& !any_completes(after, later)
            &&& refresh_after_all(after, queued, later) == queued
            &&& tasks_after_all(after, later)[i].status == TaskStatus::Completed
        }),
    decreases later.len(),
{
    let first = seq![(tasks[i].id, ProgressEvent::Completed { affected_path: path })];
    assert(first.drop_last() =~= Seq::<(u128, ProgressEvent)>::empty());
    lemma_find_task_distinct(tasks, i);
    let after = tasks_after_all(tasks, first);
    let queued = refresh_after_all(tasks, refresh, first);
    assert(refresh_after_all(tasks, refresh, first.drop_last()) == refresh);
    assert(completes(tasks, tasks[i].id, first.last().1));
    assert(queued == refresh.push(path));
    lemma_events_keep_tasks(tasks, first);
    lemma_ended_task_stays(after, later, i);
    if later.len() > 0 {
        let prefix = later.drop_last();
        assert forall|k: int| 0 <= k < prefix.len() implies !(#[trigger] prefix[k].1 is Completed) by {
            assert(prefix[k] == later[k]);
        }
        lemma_completion_reported_once(tasks, refresh, i, path, prefix);
        assert(!(later[later.len() - 1].1 is Completed));
    }
}

#[verifier::external_type_specification]
#[verifier::external_body]
#[verifier::reject_recursive_types(T)]
pub struct ExUnboundedSender<T>(UnboundedSender<T>);

#[verifier::external_type_specification]
#[verifier::external_body]
#[verifier::reject_recursive_types(T)]
pub struct ExUnboundedReceiver<T>(UnboundedReceiver<T>);

/// Relies on tokio's `mpsc::unbounded_channel`: a sender and a receiver of
/// one new channel.
#[verifier::external_body]
fn progress_channel() -> (UnboundedSender<(u128, ProgressEvent)>, UnboundedReceiver<
    (u128, ProgressEvent),
>) {
    tokio::sync::mpsc::unbounded_channel()
}

/// Relies on tokio's `UnboundedSender::clone`: another sender into the same
/// channel.
#[verifier::external_body]
fn clone_sender(tx: &UnboundedSender<(u128, ProgressEvent)>) -> UnboundedSender<
    (u128, ProgressEvent),
> {
    tx.clone()
}

/// Relies on tokio's `UnboundedReceiver::len`: how many messages wait in the
/// channel now; senders may add more at any time.
#[verifier::external_body]
fn queued(rx: &UnboundedReceiver<(u128, ProgressEvent)>) -> usize {
    rx.len()
}

/// Relies on tokio's `UnboundedReceiver::try_recv`: the next waiting message,
/// or `None` without waiting.
#[verifier::external_body]
fn try_next(rx: &mut UnboundedReceiver<(u128, ProgressEvent)>) -> Option<(u128, ProgressEvent)> {
    rx.try_recv().ok()
}

/// Owns the task list. Executions report through the progress channel, whose
/// sender `progress_sender` hands out; `update_task_statuses` applies what
/// arrived.
#[derive(Debug)]
pub struct TaskManager {
    tasks: Vec<Task>,
    /// Paths of completed tasks whose listing needs a refresh, oldest first.
    completed_and_needs_refresh: Vec<String>,
    progress_tx: UnboundedSender<(u128, ProgressEvent)>,
    progress_rx: UnboundedReceiver<(u128, ProgressEvent)>,
}

impl TaskManager {
    /// The tasks, in the order in which they were added.
    pub closed spec fn task_list(&self) -> Seq<Task> {
        self.tasks@
    }

    /// The paths waiting for a listing refresh, oldest first.
    pub closed spec fn refresh_list(&self) -> Seq<String> {
        self.completed_and_needs_refresh@
    }

    pub fn new() -> (r: TaskManager)
        ensures
            r.task_list() == Seq::<Task>::empty(),
            ids_distinct(r.task_list()),
            r.refresh_list() == Seq::<String>::empty(),
    {
        let (progress_tx, progress_rx) = progress_channel();
        TaskManager {
            tasks: Vec::new(),
            completed_and_needs_refresh: Vec::new(),
            progress_tx,
            progress_rx,
        }
    }

    /// The paths of completed tasks waiting for a listing refresh.
    pub fn completed_and_needs_refresh(&self) -> (r: &Vec<String>)
        ensures
            r@ == self.refresh_list(),
    {
        &self.completed_and_needs_refresh
    }

    /// Hands over the paths waiting for a refresh and forgets them.
    pub fn take_completed_and_needs_refresh(&mut self) -> (r: Vec<String>)
        ensures
            r@ == old(self).refresh_list(),
            final(self).refresh_list() == Seq::<String>::empty(),
            final(self).task_list() == old(self).task_list(),
    {
        let mut taken: Vec<String> = Vec::new();
        std::mem::swap(&mut taken, &mut self.completed_and_needs_refresh);
        taken
    }

    /// A sender through which an execution reports `(task id, event)`.
    pub fn progress_sender(&self) -> UnboundedSender<(u128, ProgressEvent)> {
        clone_sender(&self.progress_tx)
    }

    /// Whether a task has the identifier `id`.
    pub fn has_task(&self, id: u128) -> (r: bool)
        ensures
            r == id_taken(self.task_list(), id as int),
    {
        let mut i: usize = 0;
        while i < self.tasks.len()
            invariant
                i <= self.tasks@.len(),
                forall|k: int| 0 <= k < i ==> self.tasks@[k].id != id,
            decreases self.tasks@.len() - i,
        {
            if self.tasks[i].id == id {
                return true;
            }
            i = i + 1;
        }
        false
    }

    /// An identifier no task has: a random one, or, should it be taken, the
    /// smallest free one.
    fn fresh_task_id(&self) -> (r: u128)
        ensures
            !id_taken(self.task_list(), r as int),
    {
        let drawn = random_id();
        if !self.has_task(drawn) {
            return drawn;
        }
        let n = self.tasks.len() as u128;
        let mut c: u128 = 0;
        while c <= n
            invariant
                n == self.tasks@.len(),
                n <= usize::MAX,
                c <= n + 1,
                forall|k: int| 0 <= k < c ==> id_taken(self.tasks@, k),
            decreases n + 1 - c,
        {
            if !self.has_task(c) {
                return c;
            }
            c = c + 1;
        }
        proof {
            lemma_taken_ids_need_tasks(self.tasks@, (n + 1) as nat);
        }
        0
    }

    /// Appends a pending task under an identifier no other task has and
    /// returns it; starts nothing.
    pub fn add_task(&mut self, kind: TaskKind, description: String) -> (id: u128)
        ensures
            !id_taken(old(self).task_list(), id as int),
            final(self).task_list() == old(self).task_list().push(
                Task { id, kind, status: TaskStatus::Pending, description },
            ),
            ids_distinct(old(self).task_list()) ==> ids_distinct(final(self).task_list()),
            final(self).refresh_list() == old(self).refresh_list(),
    {
        let id = self.fresh_task_id();
        let task = Task { id, kind, status: TaskStatus::Pending, description };
        proof {
            if ids_distinct(self.tasks@) {
                lemma_fresh_id_keeps_distinct(self.tasks@, task);
            }
        }
        self.tasks.push(task);
        id
    }

    /// A copy of every task, for display.
    pub fn get_tasks(&self) -> (r: Vec<Task>)
        ensures
            r@ == self.task_list(),
    {
        let mut out: Vec<Task> = Vec::new();
        let mut i: usize = 0;
        while i < self.tasks.len()
            invariant
                i <= self.tasks@.len(),
                out@ == self.tasks@.subrange(0, i as int),
            decreases self.tasks@.len() - i,
        {
            out.push(self.tasks[i].duplicate());
            i = i + 1;
            proof {
                assert(out@ =~= self.tasks@.subrange(0, i as int));
            }
        }
        proof {
            assert(out@ =~= self.tasks@);
        }
        out
    }

    /// Starts every pending task: each one goes to `InProgress(0)` and its
    /// identifier and kind are returned, in list order, for exactly one
    /// execution each. Tasks already started are left alone.
    pub fn process_pending_tasks(&mut self) -> (jobs: Vec<(u128, TaskKind)>)
        ensures
            jobs@ == pending_jobs(old(self).task_list()),
            final(self).task_list() == started(old(self).task_list()),
            ids_distinct(old(self).task_list()) ==> ids_distinct(final(self).task_list()),
            final(self).refresh_list() == old(self).refresh_list(),
    {
        let ghost start = self.tasks@;
        let mut jobs: Vec<(u128, TaskKind)> = Vec::new();
        let mut i: usize = 0;
        while i < self.tasks.len()
            invariant
                i <= self.tasks@.len(),
                self.tasks@.len() == start.len(),
                forall|j: int| 0 <= j < i ==> self.tasks@[j] == started(start)[j],
                forall|j: int| i <= j < start.len() ==> self.tasks@[j] == start[j],
                jobs@ == pending_jobs(start.subrange(0, i as int)),
                self.completed_and_needs_refresh == old(self).completed_and_needs_refresh,
            decreases self.tasks@.len() - i,
        {
            proof {
                assert(start.subrange(0, i + 1).drop_last() =~= start.subrange(0, i as int));
            }
            if matches!(self.tasks[i].status, TaskStatus::Pending) {
                let mut task = self.tasks.remove(i);
                jobs.push((task.id, task.kind.duplicate()));
                task.status = TaskStatus::InProgress(0);
                self.tasks.insert(i, task);
            }
            i = i + 1;
        }
        proof {
            assert(start.subrange(0, start.len() as int) =~= start);
            assert(self.tasks@ =~= started(start));
        }
        jobs
    }

    /// Applies one progress event to the first task with identifier `id`:
    /// an update sets its progress, completion ends it, an error fails it
    /// with the message; a task that has ended keeps its status. A
    /// completion for a task in the list queues its path for a refresh and
    /// is reported by the result; an unknown identifier changes nothing.
    pub fn apply_progress(&mut self, id: u128, event: ProgressEvent) -> (completed: bool)
        ensures
            completed == completes(old(self).task_list(), id, event),
            final(self).task_list() == tasks_after(old(self).task_list(), id, event),
            ids_distinct(old(self).task_list()) ==> ids_distinct(final(self).task_list()),
            final(self).refresh_list() == refresh_after(
                old(self).task_list(),
                old(self).refresh_list(),
                id,
                event,
            ),
    {
        let ghost start = self.tasks@;
        let mut i: usize = 0;
        while i < self.tasks.len()
            invariant
                self.tasks@ == start,
                start == old(self).tasks@,
                i <= start.len(),
                self.completed_and_needs_refresh == old(self).completed_and_needs_refresh,
                find_task(start.subrange(0, i as int), id) is None,
            decreases start.len() - i,
        {
            proof {
                assert(start.subrange(0, i + 1).drop_last() =~= start.subrange(0, i as int));
            }
            if self.tasks[i].id == id {
                proof {
                    assert(start.subrange(0, i + 1).last() == start[i as int]);
                    assert(find_task(start.subrange(0, i + 1), id) == Some(i as int));
                    lemma_find_in_prefix(start, i + 1, id);
                }
                let mut task = self.tasks.remove(i);
                let ghost old_task = task;
                let completed = match event {
                    ProgressEvent::Update(p) => {
                        if !task.status.is_over() {
                            let p = if p > PROGRESS_SCALE {
                                PROGRESS_SCALE
                            } else {
                                p
                            };
                            task.status = TaskStatus::InProgress(p);
                        }
                        false
                    },
                    ProgressEvent::Completed { affected_path } => {
                        if !task.status.is_over() {
                            task.status = TaskStatus::Completed;
                        }
                        self.completed_and_needs_refresh.push(affected_path);
                        true
                    },
                    ProgressEvent::Error(m) => {
                        if !task.status.is_over() {
                            task.status = TaskStatus::Failed(m);
                        }
                        false
                    },
                };
                proof {
                    assert(task == Task { status: status_after(old_task.status, event), ..old_task });
                }
                self.tasks.insert(i, task);
                proof {
                    assert(self.tasks@ =~= tasks_after(start, id, event));
                    lemma_find_task_found(start, id);
                    assert forall|a: int, b: int|
                        0 <= a < self.tasks@.len() && 0 <= b < self.tasks@.len() && a != b
                            && ids_distinct(start) implies #[trigger] self.tasks@[a].id
                        != #[trigger] self.tasks@[b].id by {
                        assert(self.tasks@[a].id == start[a].id);
                        assert(self.tasks@[b].id == start[b].id);
                    }
                }
                return completed;
            }
            i = i + 1;
        }
        proof {
            assert(start.subrange(0, start.len() as int) =~= start);
        }
        false
    }

    /// Applies, in arrival order, the progress events waiting in the channel
    /// when the call begins, without waiting for more. Returns whether one
    /// of them was a completion for a task in the list. Which events arrive
    /// is up to the executions: the result is the one that `apply_progress`
    /// gives for some sequence of them.
    pub fn update_task_statuses(&mut self) -> (any: bool)
        ensures
            exists|events: Seq<(u128, ProgressEvent)>|
                {
                    &&& final(self).task_list() == tasks_after_all(old(self).task_list(), events)
                    &&& final(self).refresh_list() == refresh_after_all(
                        old(self).task_list(),
                        old(self).refresh_list(),
                        events,
                    )
                    &&& any == any_completes(old(self).task_list(), events)
                },
            ids_distinct(old(self).task_list()) ==> ids_distinct(final(self).task_list()),
    {
        let ghost tasks0 = self.tasks@;
        let ghost refresh0 = self.completed_and_needs_refresh@;
        let ghost events: Seq<(u128, ProgressEvent)> = seq![];
        let waiting = queued(&self.progress_rx);
        let mut any = false;
        let mut n: usize = 0;
        while n < waiting
            invariant
                tasks0 == old(self).tasks@,
                refresh0 == old(self).completed_and_needs_refresh@,
                self.tasks@ == tasks_after_all(tasks0, events),
                self.completed_and_needs_refresh@ == refresh_after_all(tasks0, refresh0, events),
                any == any_completes(tasks0, events),
            decreases waiting - n,
        {
            match try_next(&mut self.progress_rx) {
                Some((id, event)) => {
                    let ghost ev = event;
                    let completed = self.apply_progress(id, event);
                    proof {
                        let next = events.push((id, ev));
                        assert(next.drop_last() =~= events);
                        events = next;
                    }
                    any = any || completed;
                },
                None => {
                    break;
                },
            }
            n = n + 1;
        }
        assert({
            &&& self.task_list() == tasks_after_all(old(self).task_list(), events)
            &&& self.refresh_list() == refresh_after_all(
                old(self).task_list(),
                old(self).refresh_list(),
                events,
            )
            &&& any == any_completes(old(self).task_list(), events)
        });
        proof {
            lemma_events_keep_tasks(tasks0, events);
            assert forall|a: int, b: int|
                0 <= a < self.tasks@.len() && 0 <= b < self.tasks@.len() && a != b && ids_distinct(
                    tasks0,
                ) implies #[trigger] self.tasks@[a].id != #[trigger] self.tasks@[b].id by {
                assert(self.tasks@[a].id == tasks0[a].id);
                assert(self.tasks@[b].id == tasks0[b].id);
            }
        }
        any
    }
}

impl Default for TaskManager {
    fn default() -> (r: TaskManager)
        ensures
            r.task_list() == Seq::<Task>::empty(),
            r.refresh_list() == Seq::<String>::empty(),
    {
        TaskManager::new()
    }
}

} // verus!
