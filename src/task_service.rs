use vstd::prelude::*;
use crate::dates::{due_date_outcome, parse_due_date};
use crate::error::{ApiError, Invalid};
use crate::ids::{parsed_id, ObjectId};
use crate::policy::AuthUser;
use crate::role::UserRole;
use crate::search::{first_index, lemma_first_from_found, lemma_first_from_none, lemma_first_from_same};
use crate::tasks::{
    owner_pred, patched, task_ids_unique, task_pred, task_views, CreateTask, CreateTaskView, Task,
    TaskFilter, TaskFilterView, TaskPatch, TaskPatchView, TaskStore, TaskView,
};

verus! {

pub open spec fn default_status_text() -> Seq<char> {
    seq!['t', 'o', 'd', 'o']
}

pub open spec fn default_priority_text() -> Seq<char> {
    seq!['m', 'e', 'd', 'i', 'u', 'm']
}

pub open spec fn or_default(o: Option<Seq<char>>, d: Seq<char>) -> Seq<char> {
    match o {
        Some(s) => s,
        None => d,
    }
}

/// The status a task gets when none is given.
pub fn default_status() -> (r: String)
    ensures
        r@ == default_status_text(),
{
    let s = String::from_str("todo");
    proof {
        reveal_strlit("todo");
    }
    s
}

/// The priority a task gets when none is given.
pub fn default_priority() -> (r: String)
    ensures
        r@ == default_priority_text(),
{
    let s = String::from_str("medium");
    proof {
        reveal_strlit("medium");
    }
    s
}

/// The fields an update with payload `p` writes at time `now`.
pub open spec fn patch_of(p: CreateTaskView, due: Option<i64>, now: i64) -> TaskPatchView {
    TaskPatchView {
        title: p.title,
        description: p.description,
        status: or_default(p.status, default_status_text()),
        priority: or_default(p.priority, default_priority_text()),
        assignee: p.assignee,
        due_date: due,
        updated_at: now,
    }
}

/// The task created from payload `p` for `owner` at time `now`.
pub open spec fn new_task_of(
    p: CreateTaskView,
    id: Seq<char>,
    owner: Seq<char>,
    due: Option<i64>,
    now: i64,
) -> TaskView {
    TaskView {
        id: id,
        title: p.title,
        description: p.description,
        status: or_default(p.status, default_status_text()),
        priority: or_default(p.priority, default_priority_text()),
        assignee: p.assignee,
        due_date: due,
        created_by: owner,
        created_at: now,
        updated_at: now,
    }
}

pub open spec fn id_taken(s: Seq<TaskView>, id: Seq<char>) -> bool {
    exists|i: int| 0 <= i < s.len() && #[trigger] s[i].id == id
}

pub open spec fn task_result(r: Result<Task, ApiError>) -> Result<TaskView, ApiError> {
    match r {
        Ok(t) => Ok(t@),
        Err(e) => Err(e),
    }
}

/// Creating a task: the creator is stamped as its owner.
pub open spec fn create_task_outcome(
    s: Seq<TaskView>,
    user_id: Seq<char>,
    p: CreateTaskView,
    new_id: Seq<char>,
    now: i64,
) -> (Result<TaskView, ApiError>, Seq<TaskView>) {
    match parsed_id(user_id) {
        None => (Err(ApiError::Validation(Invalid::Id)), s),
        Some(me) => match due_date_outcome(p.due_date) {
            Err(e) => (Err(e), s),
            Ok(due) => if id_taken(s, new_id) {
                (Err(ApiError::Transient), s)
            } else {
                let t = new_task_of(p, new_id, me, due, now);
                (Ok(t), s.push(t))
            },
        },
    }
}

/// The storage filter of an update or delete: the task id, and the owner
/// unless the principal is an admin.
pub open spec fn task_filter_for(user_id: Seq<char>, role: UserRole, id: Seq<char>) -> Result<
    TaskFilterView,
    ApiError,
> {
    match (parsed_id(id), parsed_id(user_id)) {
        (Some(tid), Some(me)) => Ok(
            TaskFilterView {
                id: tid,
                created_by: if role == UserRole::Admin {
                    None
                } else {
                    Some(me)
                },
            },
        ),
        _ => Err(ApiError::Validation(Invalid::Id)),
    }
}

/// Updating a task: the filter carries the authorization, so a task the
/// principal may not touch is reported as not found.
pub open spec fn update_task_outcome(
    s: Seq<TaskView>,
    user_id: Seq<char>,
    role: UserRole,
    id: Seq<char>,
    p: CreateTaskView,
    now: i64,
) -> (Result<TaskView, ApiError>, Seq<TaskView>) {
    match task_filter_for(user_id, role, id) {
        Err(e) => (Err(e), s),
        Ok(f) => match due_date_outcome(p.due_date) {
            Err(e) => (Err(e), s),
            Ok(due) => match first_index(s, task_pred(f)) {
                None => (Err(ApiError::NotFound), s),
                Some(i) => {
                    let t = patched(s[i], patch_of(p, due, now));
                    (Ok(t), s.update(i, t))
                },
            },
        },
    }
}

/// Deleting a task, under the same filter as an update.
pub open spec fn delete_task_outcome(
    s: Seq<TaskView>,
    user_id: Seq<char>,
    role: UserRole,
    id: Seq<char>,
) -> (Result<(), ApiError>, Seq<TaskView>) {
    match task_filter_for(user_id, role, id) {
        Err(e) => (Err(e), s),
        Ok(f) => match first_index(s, task_pred(f)) {
            None => (Err(ApiError::NotFound), s),
            Some(i) => (Ok(()), s.remove(i)),
        },
    }
}

/// The owner scope of a read: none, or a parsed user id.
pub open spec fn scope_outcome(scope: Option<Seq<char>>) -> Result<Option<Seq<char>>, ApiError> {
    match scope {
        None => Ok(None),
        Some(u) => match parsed_id(u) {
            Some(me) => Ok(Some(me)),
            None => Err(ApiError::Validation(Invalid::Id)),
        },
    }
}

/// Reading one task by id, within the scope if one is given.
pub open spec fn get_task_outcome(s: Seq<TaskView>, id: Seq<char>, scope: Option<Seq<char>>) -> Result<
    TaskView,
    ApiError,
> {
    match (parsed_id(id), scope_outcome(scope)) {
        (Some(tid), Ok(owner)) => match first_index(
            s,
            task_pred(TaskFilterView { id: tid, created_by: owner }),
        ) {
            Some(i) => Ok(s[i]),
            None => Err(ApiError::NotFound),
        },
        _ => Err(ApiError::Validation(Invalid::Id)),
    }
}

pub open spec fn opt_view_of(o: Option<&str>) -> Option<Seq<char>> {
    match o {
        Some(s) => Some(s@),
        None => None,
    }
}

fn parse_scope(scope: Option<&str>) -> (r: Result<Option<ObjectId>, ApiError>)
    ensures
        match (r, scope_outcome(opt_view_of(scope))) {
            (Ok(Some(a)), Ok(Some(b))) => a@ == b,
            (Ok(None), Ok(None)) => true,
            (Err(a), Err(b)) => a == b,
            _ => false,
        },
{
    match scope {
        None => Ok(None),
        Some(u) => match ObjectId::parse_str(u) {
            Some(me) => Ok(Some(me)),
            None => Err(ApiError::Validation(Invalid::Id)),
        },
    }
}

fn filter_for(user: &AuthUser, id: &str) -> (r: Result<TaskFilter, ApiError>)
    ensures
        match (r, task_filter_for(user.user_id@, user.role, id@)) {
            (Ok(a), Ok(b)) => a@ == b,
            (Err(a), Err(b)) => a == b,
            _ => false,
        },
{
    match (ObjectId::parse_str(id), ObjectId::parse_str(user.user_id.as_str())) {
        (Some(tid), Some(me)) => {
            let owner = if user.role == UserRole::Admin {
                None
            } else {
                Some(me)
            };
            Ok(TaskFilter { id: tid, created_by: owner })
        },
        _ => Err(ApiError::Validation(Invalid::Id)),
    }
}

/// Creates a task owned by the principal.
pub fn create_task(
    store: &mut TaskStore,
    user: &AuthUser,
    payload: CreateTask,
    new_id: ObjectId,
    now: i64,
) -> (r: Result<Task, ApiError>)
    requires
        old(store).wf(),
    ensures
        final(store).wf(),
        (task_result(r), final(store)@) == create_task_outcome(
            old(store)@,
            user.user_id@,
            payload@,
            new_id@,
            now,
        ),
{
    let me = match ObjectId::parse_str(user.user_id.as_str()) {
        Some(me) => me,
        None => {
            return Err(ApiError::Validation(Invalid::Id));
        },
    };
    let due = match parse_due_date(&payload.due_date) {
        Ok(d) => d,
        Err(e) => {
            return Err(e);
        },
    };
    if store.contains_id(&new_id) {
        return Err(ApiError::Transient);
    }
    let status = match payload.status {
        Some(s) => s,
        None => default_status(),
    };
    let priority = match payload.priority {
        Some(s) => s,
        None => default_priority(),
    };
    let t = Task {
        id: new_id,
        title: payload.title,
        description: payload.description,
        status,
        priority,
        assignee: payload.assignee,
        due_date: due,
        created_by: me,
        created_at: now,
        updated_at: now,
    };
    let created = t.copy();
    store.insert(t);
    Ok(created)
}

pub open spec fn task_list_result(r: Result<Vec<Task>, ApiError>) -> Result<Seq<TaskView>, ApiError> {
    match r {
        Ok(v) => Ok(task_views(v@)),
        Err(e) => Err(e),
    }
}

/// All tasks, or those created by the user in scope.
pub fn get_all_tasks(store: &TaskStore, user_id: Option<&str>) -> (r: Result<Vec<Task>, ApiError>)
    ensures
        task_list_result(r) == match scope_outcome(opt_view_of(user_id)) {
            Ok(owner) => Ok(store@.filter(owner_pred(owner))),
            Err(e) => Err(e),
        },
{
    match parse_scope(user_id) {
        Ok(owner) => Ok(store.list(&owner)),
        Err(e) => Err(e),
    }
}

/// One task by id, within the scope if one is given.
pub fn get_task_by_id(store: &TaskStore, id: &str, user_id: Option<&str>) -> (r: Result<
    Task,
    ApiError,
>)
    ensures
        task_result(r) == get_task_outcome(store@, id@, opt_view_of(user_id)),
{
    let scope = parse_scope(user_id);
    match (ObjectId::parse_str(id), scope) {
        (Some(tid), Ok(owner)) => {
            let f = TaskFilter { id: tid, created_by: owner };
            match store.find(&f) {
                Some(i) => {
                    proof {
                        lemma_first_from_found(store@, task_pred(f@), 0);
                    }
                    Ok(store.get(i))
                },
                None => Err(ApiError::NotFound),
            }
        },
        _ => Err(ApiError::Validation(Invalid::Id)),
    }
}

/// Replaces the editable fields of a task the principal owns (any task, for
/// an admin).
pub fn update_task(store: &mut TaskStore, user: &AuthUser, id: &str, payload: CreateTask, now: i64) -> (r:
    Result<Task, ApiError>)
    requires
        old(store).wf(),
    ensures
        final(store).wf(),
        (task_result(r), final(store)@) == update_task_outcome(
            old(store)@,
            user.user_id@,
            user.role,
            id@,
            payload@,
            now,
        ),
{
    let f = match filter_for(user, id) {
        Ok(f) => f,
        Err(e) => {
            return Err(e);
        },
    };
    let due = match parse_due_date(&payload.due_date) {
        Ok(d) => d,
        Err(e) => {
            return Err(e);
        },
    };
    match store.find(&f) {
        None => Err(ApiError::NotFound),
        Some(i) => {
            proof {
                lemma_first_from_found(store@, task_pred(f@), 0);
            }
            let status = match payload.status {
                Some(s) => s,
                None => default_status(),
            };
            let priority = match payload.priority {
                Some(s) => s,
                None => default_priority(),
            };
            let patch = TaskPatch {
                title: payload.title,
                description: payload.description,
                status,
                priority,
                assignee: payload.assignee,
                due_date: due,
                updated_at: now,
            };
            store.update_at(i, &patch);
            Ok(store.get(i))
        },
    }
}

/// Deletes a task the principal owns (any task, for an admin).
pub fn delete_task(store: &mut TaskStore, user: &AuthUser, id: &str) -> (r: Result<(), ApiError>)
    requires
        old(store).wf(),
    ensures
        final(store).wf(),
        (r, final(store)@) == delete_task_outcome(old(store)@, user.user_id@, user.role, id@),
{
    let f = match filter_for(user, id) {
        Ok(f) => f,
        Err(e) => {
            return Err(e);
        },
    };
    match store.find(&f) {
        None => Err(ApiError::NotFound),
        Some(i) => {
            proof {
                lemma_first_from_found(store@, task_pred(f@), 0);
            }
            store.remove_at(i);
            Ok(())
        },
    }
}

/// A regular user cannot update or delete a task that someone else created:
/// both requests report `NotFound` (never `Forbidden`) and leave the
/// collection exactly as it was.
pub proof fn lemma_foreign_task_untouched(
    s: Seq<TaskView>,
    k: int,
    user_id: Seq<char>,
    id: Seq<char>,
    p: CreateTaskView,
    now: i64,
)
    requires
        task_ids_unique(s),
        0 <= k < s.len(),
        parsed_id(id) == Some(s[k].id),
        parsed_id(user_id) matches Some(me) && me != s[k].created_by,
    ensures
        update_task_outcome(s, user_id, UserRole::User, id, p, now).1 == s,
        due_date_outcome(p.due_date) is Ok ==> update_task_outcome(
            s,
            user_id,
            UserRole::User,
            id,
            p,
            now,
        ).0 == Err::<TaskView, ApiError>(ApiError::NotFound),
        delete_task_outcome(s, user_id, UserRole::User, id) == (
            Err::<(), ApiError>(ApiError::NotFound),
            s,
        ),
{
    let f = task_filter_for(user_id, UserRole::User, id)->Ok_0;
    assert forall|j: int| 0 <= j < s.len() implies !(#[trigger] task_pred(f)(s[j])) by {
        if task_pred(f)(s[j]) {
            assert(s[j].id == s[k].id);
            assert(j == k);
        }
    }
    lemma_first_from_none(s, task_pred(f), 0);
}

/// Sending the same update twice leaves the collection as one update at the
/// later time would: the second request changes nothing but `updated_at`.
pub proof fn lemma_update_idempotent(
    s: Seq<TaskView>,
    user_id: Seq<char>,
    role: UserRole,
    id: Seq<char>,
    p: CreateTaskView,
    first: i64,
    second: i64,
)
    ensures
        update_task_outcome(
            update_task_outcome(s, user_id, role, id, p, first).1,
            user_id,
            role,
            id,
            p,
            second,
        ) == update_task_outcome(s, user_id, role, id, p, second),
{
    let once = update_task_outcome(s, user_id, role, id, p, first).1;
    if let Ok(f) = task_filter_for(user_id, role, id) {
        if let Ok(due) = due_date_outcome(p.due_date) {
            let pred = task_pred(f);
            lemma_first_from_found(s, pred, 0);
            if let Some(i) = first_index(s, pred) {
                let t1 = patched(s[i], patch_of(p, due, first));
                assert forall|j: int| 0 <= j < once.len() implies #[trigger] pred(once[j]) == pred(
                    s[j],
                ) by {
                    if j == i {
                        assert(once[j] == t1);
                    }
                }
                lemma_first_from_same(once, s, pred, 0);
                let t2 = patched(once[i], patch_of(p, due, second));
                assert(t2 == patched(s[i], patch_of(p, due, second)));
                assert(once.update(i, t2) =~= s.update(i, t2));
            }
        }
    }
}

} // verus!
