use vstd::prelude::*;
use crate::ids::ObjectId;
use crate::role::UserRole;
use crate::search::{first_from, first_index};
use crate::text::{copy_opt_text, opt_text};

verus! {

/// A registered user; `password` holds the bcrypt hash.
#[derive(Debug)]
pub struct User {
    pub id: ObjectId,
    pub name: String,
    pub email: String,
    pub password: String,
    pub profile_image: Option<String>,
    pub role: UserRole,
    pub created_at: i64,
    pub updated_at: Option<i64>,
}

pub struct UserView {
    pub id: Seq<char>,
    pub name: Seq<char>,
    pub email: Seq<char>,
    pub password: Seq<char>,
    pub profile_image: Option<Seq<char>>,
    pub role: UserRole,
    pub created_at: i64,
    pub updated_at: Option<i64>,
}

impl View for User {
    type V = UserView;

    open spec fn view(&self) -> UserView {
        UserView {
            id: self.id@,
            name: self.name@,
            email: self.email@,
            password: self.password@,
            profile_image: opt_text(self.profile_image),
            role: self.role,
            created_at: self.created_at,
            updated_at: self.updated_at,
        }
    }
}

impl User {
    /// The same user, as a new value.
    pub fn copy(&self) -> (r: User)
        ensures
            r@ == self@,
    {
        User {
            id: self.id.duplicate(),
            name: self.name.clone(),
            email: self.email.clone(),
            password: self.password.clone(),
            profile_image: copy_opt_text(&self.profile_image),
            role: self.role,
            created_at: self.created_at,
            updated_at: self.updated_at,
        }
    }
}

/// The fields of a registration, and of a profile update.
#[derive(Debug)]
pub struct RegisterUser {
    pub name: String,
    pub email: String,
    pub password: String,
    pub role: Option<UserRole>,
}

/// Login credentials.
#[derive(Debug)]
pub struct LoginUser {
    pub email: String,
    pub password: String,
}

/// What a client learns of a user.
#[derive(Debug)]
pub struct UserResponse {
    pub id: String,
    pub name: String,
    pub email: String,
    pub role: UserRole,
}

/// A token and the user it was issued to.
#[derive(Debug)]
pub struct LoginResponse {
    pub token: String,
    pub user: UserResponse,
}

pub open spec fn email_pred(email: Seq<char>) -> spec_fn(UserView) -> bool {
    |u: UserView| u.email == email
}

pub open spec fn user_id_pred(id: Seq<char>) -> spec_fn(UserView) -> bool {
    |u: UserView| u.id == id
}

pub open spec fn user_views(v: Seq<User>) -> Seq<UserView> {
    v.map_values(|u: User| u@)
}

/// No two users share an id or an email.
pub open spec fn users_unique(s: Seq<UserView>) -> bool {
    forall|i: int, j: int|
        0 <= i < s.len() && 0 <= j < s.len() && i != j ==> s[i].id != s[j].id && s[i].email
            != s[j].email
}

/// Some user other than the one at `skip` has this email.
pub open spec fn email_used_except(s: Seq<UserView>, email: Seq<char>, skip: int) -> bool {
    exists|i: int| 0 <= i < s.len() && i != skip && #[trigger] s[i].email == email
}

pub open spec fn user_id_used(s: Seq<UserView>, id: Seq<char>) -> bool {
    exists|i: int| 0 <= i < s.len() && #[trigger] s[i].id == id
}

/// The user collection.
pub struct UserStore {
    records: Vec<User>,
}

impl View for UserStore {
    type V = Seq<UserView>;

    closed spec fn view(&self) -> Seq<UserView> {
        user_views(self.records@)
    }
}

impl UserStore {
    pub open spec fn wf(&self) -> bool {
        users_unique(self@)
    }

    /// An empty collection.
    pub fn new() -> (r: UserStore)
        ensures
            r@ == Seq::<UserView>::empty(),
            r.wf(),
    {
        let r = UserStore { records: Vec::new() };
        assert(r@ =~= Seq::<UserView>::empty());
        r
    }

    /// The number of stored users.
    pub fn len(&self) -> (r: usize)
        ensures
            r == self@.len(),
    {
        self.records.len()
    }

    /// The user at index `i`, as a new value.
    pub fn get(&self, i: usize) -> (r: User)
        requires
            i < self@.len(),
        ensures
            r@ == self@[i as int],
    {
        self.records[i].copy()
    }

    /// The index of the first user with this email.
    pub fn find_by_email(&self, email: &str) -> (r: Option<usize>)
        ensures
            crate::tasks::index_of(r) == first_index(self@, email_pred(email@)),
    {
        let ghost pred = email_pred(email@);
        let wanted = String::from_str(email);
        let mut i: usize = 0;
        while i < self.records.len()
            invariant
                i <= self@.len(),
                self@.len() == self.records@.len(),
                pred == email_pred(email@),
                wanted@ == email@,
                first_from(self@, pred, 0) == first_from(self@, pred, i as int),
            decreases self@.len() - i,
        {
            assert(self@[i as int] == self.records@[i as int]@);
            if self.records[i].email == wanted {
                return Some(i);
            }
            i = i + 1;
        }
        None
    }

    /// The index of the first user with this id.
    pub fn find_by_id(&self, id: &ObjectId) -> (r: Option<usize>)
        ensures
            crate::tasks::index_of(r) == first_index(self@, user_id_pred(id@)),
    {
        let ghost pred = user_id_pred(id@);
        let mut i: usize = 0;
        while i < self.records.len()
            invariant
                i <= self@.len(),
                self@.len() == self.records@.len(),
                pred == user_id_pred(id@),
                first_from(self@, pred, 0) == first_from(self@, pred, i as int),
            decreases self@.len() - i,
        {
            assert(self@[i as int] == self.records@[i as int]@);
            if self.records[i].id == *id {
                return Some(i);
            }
            i = i + 1;
        }
        None
    }

    /// Whether a user other than the one at `skip` has this email.
    pub fn email_used_except(&self, email: &str, skip: usize) -> (r: bool)
        ensures
            r == email_used_except(self@, email@, skip as int),
    {
        let wanted = String::from_str(email);
        let mut i: usize = 0;
        while i < self.records.len()
            invariant
                i <= self@.len(),
                self@.len() == self.records@.len(),
                wanted@ == email@,
                forall|j: int| 0 <= j < i && j != skip ==> #[trigger] self@[j].email != email@,
            decreases self@.len() - i,
        {
            assert(self@[i as int] == self.records@[i as int]@);
            if i != skip && self.records[i].email == wanted {
                assert(self@[i as int].email == email@);
                return true;
            }
            i = i + 1;
        }
        false
    }

    /// Whether a user with this id is stored.
    pub fn contains_id(&self, id: &ObjectId) -> (r: bool)
        ensures
            r == user_id_used(self@, id@),
    {
        let mut i: usize = 0;
        while i < self.records.len()
            invariant
                i <= self@.len(),
                self@.len() == self.records@.len(),
                forall|j: int| 0 <= j < i ==> #[trigger] self@[j].id != id@,
            decreases self@.len() - i,
        {
            assert(self@[i as int] == self.records@[i as int]@);
            if self.records[i].id == *id {
                assert(self@[i as int].id == id@);
                return true;
            }
            i = i + 1;
        }
        false
    }

    /// Stores a user whose id and email are new.
    pub fn insert(&mut self, u: User)
        requires
            old(self).wf(),
            !user_id_used(old(self)@, u@.id),
            !email_used_except(old(self)@, u@.email, -1),
        ensures
            final(self)@ == old(self)@.push(u@),
            final(self).wf(),
    {
        let ghost uv = u@;
        self.records.push(u);
        assert(self@ =~= old(self)@.push(uv));
        assert forall|i: int, j: int|
            0 <= i < self@.len() && 0 <= j < self@.len() && i != j implies self@[i].id
            != self@[j].id && self@[i].email != self@[j].email by {
            if i == old(self)@.len() as int {
                assert(old(self)@[j].id != uv.id);
                assert(old(self)@[j].email != uv.email);
            } else if j == old(self)@.len() as int {
                assert(old(self)@[i].id != uv.id);
                assert(old(self)@[i].email != uv.email);
            }
        }
    }

    /// Replaces the user at index `i` by one with the same id.
    pub fn replace_at(&mut self, i: usize, u: User)
        requires
            old(self).wf(),
            i < old(self)@.len(),
            u@.id == old(self)@[i as int].id,
            !email_used_except(old(self)@, u@.email, i as int),
        ensures
            final(self)@ == old(self)@.update(i as int, u@),
            final(self).wf(),
    {
        let ghost uv = u@;
        self.records.set(i, u);
        assert(self@ =~= old(self)@.update(i as int, uv));
        assert forall|a: int, b: int|
            0 <= a < self@.len() && 0 <= b < self@.len() && a != b implies self@[a].id
            != self@[b].id && self@[a].email != self@[b].email by {
            if a == i as int {
                assert(old(self)@[b].email != uv.email);
                assert(old(self)@[b].id != old(self)@[a].id);
            } else if b == i as int {
                assert(old(self)@[a].email != uv.email);
                assert(old(self)@[b].id != old(self)@[a].id);
            }
        }
    }
}

} // verus!
