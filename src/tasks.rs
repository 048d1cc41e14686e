use vstd::prelude::*;
use crate::ids::ObjectId;
use crate::search::{first_from, first_index};
use crate::text::{copy_opt_text, opt_text};

verus! {

/// A stored task.
#[derive(Debug)]
pub struct Task {
    pub id: ObjectId,
    pub title: String,
    pub description: Option<String>,
    pub status: String,
    pub priority: String,
    pub assignee: Option<String>,
    pub due_date: Option<i64>,
    pub created_by: ObjectId,
    pub created_at: i64,
    pub updated_at: i64,
}

pub struct TaskView {
    pub id: Seq<char>,
    pub title: Seq<char>,
    pub description: Option<Seq<char>>,
    pub status: Seq<char>,
    pub priority: Seq<char>,
    pub assignee: Option<Seq<char>>,
    pub due_date: Option<i64>,
    pub created_by: Seq<char>,
    pub created_at: i64,
    pub updated_at: i64,
}

impl View for Task {
    type V = TaskView;

    open spec fn view(&self) -> TaskView {
        TaskView {
            id: self.id@,
            title: self.title@,
            description: opt_text(self.description),
            status: self.status@,
            priority: self.priority@,
            assignee: opt_text(self.assignee),
            due_date: self.due_date,
            created_by: self.created_by@,
            created_at: self.created_at,
            updated_at: self.updated_at,
        }
    }
}

impl Task {
    /// The same task, as a new value.
    pub fn copy(&self) -> (r: Task)
        ensures
            r@ == self@,
    {
        Task {
            id: self.id.duplicate(),
            title: self.title.clone(),
            description: copy_opt_text(&self.description),
            status: self.status.clone(),
            priority: self.priority.clone(),
            assignee: copy_opt_text(&self.assignee),
            due_date: self.due_date,
            created_by: self.created_by.duplicate(),
            created_at: self.created_at,
            updated_at: self.updated_at,
        }
    }
}

/// The fields a client sends to create or replace a task.
#[derive(Debug)]
pub struct CreateTask {
    pub title: String,
    pub description: Option<String>,
    pub status: Option<String>,
    pub priority: Option<String>,
    pub assignee: Option<String>,
    pub due_date: Option<String>,
}

pub struct CreateTaskView {
    pub title: Seq<char>,
    pub description: Option<Seq<char>>,
    pub status: Option<Seq<char>>,
    pub priority: Option<Seq<char>>,
    pub assignee: Option<Seq<char>>,
    pub due_date: Option<Seq<char>>,
}

impl View for CreateTask {
    type V = CreateTaskView;

    open spec fn view(&self) -> CreateTaskView {
        CreateTaskView {
            title: self.title@,
            description: opt_text(self.description),
            status: opt_text(self.status),
            priority: opt_text(self.priority),
            assignee: opt_text(self.assignee),
            due_date: opt_text(self.due_date),
        }
    }
}

/// The fields an update writes; id, owner and creation time stay.
#[derive(Debug)]
pub struct TaskPatch {
    pub title: String,
    pub description: Option<String>,
    pub status: String,
    pub priority: String,
    pub assignee: Option<String>,
    pub due_date: Option<i64>,
    pub updated_at: i64,
}

pub struct TaskPatchView {
    pub title: Seq<char>,
    pub description: Option<Seq<char>>,
    pub status: Seq<char>,
    pub priority: Seq<char>,
    pub assignee: Option<Seq<char>>,
    pub due_date: Option<i64>,
    pub updated_at: i64,
}

impl View for TaskPatch {
    type V = TaskPatchView;

    open spec fn view(&self) -> TaskPatchView {
        TaskPatchView {
            title: self.title@,
            description: opt_text(self.description),
            status: self.status@,
            priority: self.priority@,
            assignee: opt_text(self.assignee),
            due_date: self.due_date,
            updated_at: self.updated_at,
        }
    }
}

/// `t` with the fields of `p` written over it.
pub open spec fn patched(t: TaskView, p: TaskPatchView) -> TaskView {
    TaskView {
        title: p.title,
        description: p.description,
        status: p.status,
        priority: p.priority,
        assignee: p.assignee,
        due_date: p.due_date,
        updated_at: p.updated_at,
        ..t
    }
}

/// Selects a task by id and, when given, by owner.
#[derive(Debug)]
pub struct TaskFilter {
    pub id: ObjectId,
    pub created_by: Option<ObjectId>,
}

pub struct TaskFilterView {
    pub id: Seq<char>,
    pub created_by: Option<Seq<char>>,
}

impl View for TaskFilter {
    type V = TaskFilterView;

    open spec fn view(&self) -> TaskFilterView {
        TaskFilterView {
            id: self.id@,
            created_by: match self.created_by {
                Some(o) => Some(o@),
                None => None,
            },
        }
    }
}

pub open spec fn owned_by(t: TaskView, owner: Option<Seq<char>>) -> bool {
    match owner {
        Some(o) => t.created_by == o,
        None => true,
    }
}

pub open spec fn task_matches(t: TaskView, f: TaskFilterView) -> bool {
    t.id == f.id && owned_by(t, f.created_by)
}

pub open spec fn task_pred(f: TaskFilterView) -> spec_fn(TaskView) -> bool {
    |t: TaskView| task_matches(t, f)
}

pub open spec fn owner_pred(owner: Option<Seq<char>>) -> spec_fn(TaskView) -> bool {
    |t: TaskView| owned_by(t, owner)
}

pub open spec fn task_views(v: Seq<Task>) -> Seq<TaskView> {
    v.map_values(|t: Task| t@)
}

/// No two tasks share an id.
pub open spec fn task_ids_unique(s: Seq<TaskView>) -> bool {
    forall|i: int, j: int| 0 <= i < s.len() && 0 <= j < s.len() && i != j ==> s[i].id != s[j].id
}

pub open spec fn index_of(r: Option<usize>) -> Option<int> {
    match r {
        Some(i) => Some(i as int),
        None => None,
    }
}

/// The task collection.
pub struct TaskStore {
    records: Vec<Task>,
}

impl View for TaskStore {
    type V = Seq<TaskView>;

    closed spec fn view(&self) -> Seq<TaskView> {
        task_views(self.records@)
    }
}

impl TaskStore {
    pub open spec fn wf(&self) -> bool {
        task_ids_unique(self@)
    }

    /// An empty collection.
    pub fn new() -> (r: TaskStore)
        ensures
            r@ == Seq::<TaskView>::empty(),
            r.wf(),
    {
        let r = TaskStore { records: Vec::new() };
        assert(r@ =~= Seq::<TaskView>::empty());
        r
    }

    /// The number of stored tasks.
    pub fn len(&self) -> (r: usize)
        ensures
            r == self@.len(),
    {
        self.records.len()
    }

    /// The task at index `i`, as a new value.
    pub fn get(&self, i: usize) -> (r: Task)
        requires
            i < self@.len(),
        ensures
            r@ == self@[i as int],
    {
        self.records[i].copy()
    }

    /// The index of the first task that the filter selects.
    pub fn find(&self, f: &TaskFilter) -> (r: Option<usize>)
        ensures
            index_of(r) == first_index(self@, task_pred(f@)),
    {
        let ghost pred = task_pred(f@);
        let mut i: usize = 0;
        while i < self.records.len()
            invariant
                i <= self@.len(),
                self@.len() == self.records@.len(),
                pred == task_pred(f@),
                first_from(self@, pred, 0) == first_from(self@, pred, i as int),
            decreases self@.len() - i,
        {
            let t = &self.records[i];
            assert(self@[i as int] == t@);
            let owner_ok = match &f.created_by {
                Some(o) => t.created_by == *o,
                None => true,
            };
            if t.id == f.id && owner_ok {
                return Some(i);
            }
            i = i + 1;
        }
        None
    }

    /// Whether a task with this id is stored.
    pub fn contains_id(&self, id: &ObjectId) -> (r: bool)
        ensures
            r == exists|i: int| 0 <= i < self@.len() && #[trigger] self@[i].id == id@,
    {
        let mut i: usize = 0;
        while i < self.records.len()
            invariant
                i <= self@.len(),
                self@.len() == self.records@.len(),
                forall|j: int| 0 <= j < i ==> #[trigger] self@[j].id != id@,
            decreases self@.len() - i,
        {
            assert(self@[i as int] == self.records@[i as int]@);
            if self.records[i].id == *id {
                assert(self@[i as int].id == id@);
                return true;
            }
            i = i + 1;
        }
        false
    }

    /// Stores a task whose id is new.
    pub fn insert(&mut self, t: Task)
        requires
            old(self).wf(),
            forall|i: int| 0 <= i < old(self)@.len() ==> #[trigger] old(self)@[i].id != t@.id,
        ensures
            final(self)@ == old(self)@.push(t@),
            final(self).wf(),
    {
        let ghost tv = t@;
        self.records.push(t);
        assert(self@ =~= old(self)@.push(tv));
    }

    /// Writes a patch over the task at index `i`.
    pub fn update_at(&mut self, i: usize, p: &TaskPatch)
        requires
            old(self).wf(),
            i < old(self)@.len(),
        ensures
            final(self)@ == old(self)@.update(i as int, patched(old(self)@[i as int], p@)),
            final(self).wf(),
    {
        let old_t = self.records[i].copy();
        assert(old_t@ == self@[i as int]);
        let t = Task {
            id: old_t.id,
            title: p.title.clone(),
            description: copy_opt_text(&p.description),
            status: p.status.clone(),
            priority: p.priority.clone(),
            assignee: copy_opt_text(&p.assignee),
            due_date: p.due_date,
            created_by: old_t.created_by,
            created_at: old_t.created_at,
            updated_at: p.updated_at,
        };
        let ghost tv = t@;
        self.records.set(i, t);
        assert(self@ =~= old(self)@.update(i as int, tv));
    }

    /// Removes the task at index `i`.
    pub fn remove_at(&mut self, i: usize)
        requires
            old(self).wf(),
            i < old(self)@.len(),
        ensures
            final(self)@ == old(self)@.remove(i as int),
            final(self).wf(),
    {
        self.records.remove(i);
        assert(self@ =~= old(self)@.remove(i as int));
    }

    /// The tasks that `owner` created, or all tasks, in order, as new values.
    pub fn list(&self, owner: &Option<ObjectId>) -> (r: Vec<Task>)
        ensures
            task_views(r@) == self@.filter(
                owner_pred(
                    match owner {
                        Some(o) => Some(o@),
                        None => None,
                    },
                ),
            ),
    {
        let ghost pred = owner_pred(
            match owner {
                Some(o) => Some(o@),
                None => None,
            },
        );
        let mut out: Vec<Task> = Vec::new();
        let mut i: usize = 0;
        while i < self.records.len()
            invariant
                i <= self@.len(),
                self@.len() == self.records@.len(),
                pred == owner_pred(
                    match owner {
                        Some(o) => Some(o@),
                        None => None,
                    },
                ),
                task_views(out@) == self@.subrange(0, i as int).filter(pred),
            decreases self@.len() - i,
        {
            let t = &self.records[i];
            assert(self@[i as int] == t@);
            proof {
                assert(self@.subrange(0, i + 1) == self@.subrange(0, i as int).push(t@));
                self@.subrange(0, i as int).lemma_filter_push(t@, pred);
            }
            let keep = match owner {
                Some(o) => t.created_by == *o,
                None => true,
            };
            if keep {
                let c = t.copy();
                let ghost before = out@;
                out.push(c);
                assert(task_views(out@) =~= task_views(before).push(t@));
            }
            i = i + 1;
        }
        assert(self@.subrange(0, self@.len() as int) == self@);
        out
    }
}

} // verus!
