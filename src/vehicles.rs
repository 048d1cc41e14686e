use vstd::prelude::*;
use crate::error::{ApiError, Invalid};
use crate::ids::{parsed_id, ObjectId};
use crate::policy::{require_role, AuthUser};
use crate::role::UserRole;
use crate::search::{first_from, first_index, lemma_first_from_found, lemma_first_from_some};
use crate::tasks::index_of;

verus! {

/// A stored vehicle; `user_id` is the user who registered it.
#[derive(Debug)]
pub struct Vehicle {
    pub id: ObjectId,
    pub user_id: ObjectId,
    pub make: String,
    pub model: String,
    pub year: String,
    pub files: Option<Vec<String>>,
    pub created_at: i64,
    pub updated_at: i64,
}

pub struct VehicleView {
    pub id: Seq<char>,
    pub user_id: Seq<char>,
    pub make: Seq<char>,
    pub model: Seq<char>,
    pub year: Seq<char>,
    pub files: Option<Seq<Seq<char>>>,
    pub created_at: i64,
    pub updated_at: i64,
}

pub open spec fn texts_view(v: Seq<String>) -> Seq<Seq<char>> {
    v.map_values(|s: String| s@)
}

pub open spec fn files_view(f: Option<Vec<String>>) -> Option<Seq<Seq<char>>> {
    match f {
        Some(v) => Some(texts_view(v@)),
        None => None,
    }
}

impl View for Vehicle {
    type V = VehicleView;

    open spec fn view(&self) -> VehicleView {
        VehicleView {
            id: self.id@,
            user_id: self.user_id@,
            make: self.make@,
            model: self.model@,
            year: self.year@,
            files: files_view(self.files),
            created_at: self.created_at,
            updated_at: self.updated_at,
        }
    }
}

/// The same list of texts, as a new value.
pub fn copy_texts(v: &Vec<String>) -> (r: Vec<String>)
    ensures
        texts_view(r@) == texts_view(v@),
{
    let mut out: Vec<String> = Vec::new();
    let mut i: usize = 0;
    while i < v.len()
        invariant
            i <= v@.len(),
            out@.len() == i,
            forall|j: int| 0 <= j < i ==> #[trigger] out@[j]@ == v@[j]@,
        decreases v@.len() - i,
    {
        let c = v[i].clone();
        out.push(c);
        i = i + 1;
    }
    assert(texts_view(out@) =~= texts_view(v@));
    out
}

fn copy_files(f: &Option<Vec<String>>) -> (r: Option<Vec<String>>)
    ensures
        files_view(r) == files_view(*f),
{
    match f {
        Some(v) => Some(copy_texts(v)),
        None => None,
    }
}

impl Vehicle {
    /// The same vehicle, as a new value.
    pub fn copy(&self) -> (r: Vehicle)
        ensures
            r@ == self@,
    {
        Vehicle {
            id: self.id.duplicate(),
            user_id: self.user_id.duplicate(),
            make: self.make.clone(),
            model: self.model.clone(),
            year: self.year.clone(),
            files: copy_files(&self.files),
            created_at: self.created_at,
            updated_at: self.updated_at,
        }
    }
}

/// The text fields of a vehicle form.
#[derive(Debug)]
pub struct CreateVehicle {
    pub make: String,
    pub model: String,
    pub year: String,
}

pub open spec fn vehicle_id_pred(id: Seq<char>) -> spec_fn(VehicleView) -> bool {
    |v: VehicleView| v.id == id
}

pub open spec fn vehicle_views(v: Seq<Vehicle>) -> Seq<VehicleView> {
    v.map_values(|x: Vehicle| x@)
}

pub open spec fn vehicle_ids_unique(s: Seq<VehicleView>) -> bool {
    forall|i: int, j: int| 0 <= i < s.len() && 0 <= j < s.len() && i != j ==> s[i].id != s[j].id
}

pub open spec fn vehicle_id_used(s: Seq<VehicleView>, id: Seq<char>) -> bool {
    exists|i: int| 0 <= i < s.len() && #[trigger] s[i].id == id
}

pub open spec fn vehicle_result(r: Result<Vehicle, ApiError>) -> Result<VehicleView, ApiError> {
    match r {
        Ok(v) => Ok(v@),
        Err(e) => Err(e),
    }
}

/// `v` after an update: each non-empty text replaces its field, a new file
/// list replaces the old one, and the update time is stamped.
pub open spec fn edited_vehicle(
    v: VehicleView,
    p: CreateVehicle,
    files: Option<Seq<Seq<char>>>,
    now: i64,
) -> VehicleView {
    VehicleView {
        make: if p.make@.len() > 0 {
            p.make@
        } else {
            v.make
        },
        model: if p.model@.len() > 0 {
            p.model@
        } else {
            v.model
        },
        year: if p.year@.len() > 0 {
            p.year@
        } else {
            v.year
        },
        files: match files {
            Some(f) => Some(f),
            None => v.files,
        },
        updated_at: now,
        ..v
    }
}

/// Creating a vehicle: the creator is stamped as its user.
pub open spec fn create_vehicle_outcome(
    s: Seq<VehicleView>,
    user_id: Seq<char>,
    p: CreateVehicle,
    files: Option<Seq<Seq<char>>>,
    new_id: Seq<char>,
    now: i64,
) -> (Result<VehicleView, ApiError>, Seq<VehicleView>) {
    match parsed_id(user_id) {
        None => (Err(ApiError::Validation(Invalid::Id)), s),
        Some(me) => if vehicle_id_used(s, new_id) {
            (Err(ApiError::Transient), s)
        } else {
            let v = VehicleView {
                id: new_id,
                user_id: me,
                make: p.make@,
                model: p.model@,
                year: p.year@,
                files: files,
                created_at: now,
                updated_at: now,
            };
            (Ok(v), s.push(v))
        },
    }
}

/// Updating a vehicle: admins only, whoever registered it.
pub open spec fn update_vehicle_outcome(
    s: Seq<VehicleView>,
    role: UserRole,
    id: Seq<char>,
    p: CreateVehicle,
    files: Option<Seq<Seq<char>>>,
    now: i64,
) -> (Result<VehicleView, ApiError>, Seq<VehicleView>) {
    if role != UserRole::Admin {
        (Err(ApiError::Forbidden), s)
    } else {
        match parsed_id(id) {
            None => (Err(ApiError::Validation(Invalid::Id)), s),
            Some(vid) => match first_index(s, vehicle_id_pred(vid)) {
                None => (Err(ApiError::NotFound), s),
                Some(i) => {
                    let v = edited_vehicle(s[i], p, files, now);
                    (Ok(v), s.update(i, v))
                },
            },
        }
    }
}

/// The vehicle collection.
pub struct VehicleStore {
    records: Vec<Vehicle>,
}

impl View for VehicleStore {
    type V = Seq<VehicleView>;

    closed spec fn view(&self) -> Seq<VehicleView> {
        vehicle_views(self.records@)
    }
}

impl VehicleStore {
    pub open spec fn wf(&self) -> bool {
        vehicle_ids_unique(self@)
    }

    /// An empty collection.
    pub fn new() -> (r: VehicleStore)
        ensures
            r@ == Seq::<VehicleView>::empty(),
            r.wf(),
    {
        let r = VehicleStore { records: Vec::new() };
        assert(r@ =~= Seq::<VehicleView>::empty());
        r
    }

    /// The number of stored vehicles.
    pub fn len(&self) -> (r: usize)
        ensures
            r == self@.len(),
    {
        self.records.len()
    }

    /// The vehicle at index `i`, as a new value.
    pub fn get(&self, i: usize) -> (r: Vehicle)
        requires
            i < self@.len(),
        ensures
            r@ == self@[i as int],
    {
        self.records[i].copy()
    }

    /// The index of the vehicle with this id.
    pub fn find_by_id(&self, id: &ObjectId) -> (r: Option<usize>)
        ensures
            index_of(r) == first_index(self@, vehicle_id_pred(id@)),
    {
        let ghost pred = vehicle_id_pred(id@);
        let mut i: usize = 0;
        while i < self.records.len()
            invariant
                i <= self@.len(),
                self@.len() == self.records@.len(),
                pred == vehicle_id_pred(id@),
                first_from(self@, pred, 0) == first_from(self@, pred, i as int),
            decreases self@.len() - i,
        {
            assert(self@[i as int] == self.records@[i as int]@);
            if self.records[i].id == *id {
                return Some(i);
            }
            i = i + 1;
        }
        None
    }

    /// Stores a vehicle whose id is new.
    pub fn insert(&mut self, v: Vehicle)
        requires
            old(self).wf(),
            !vehicle_id_used(old(self)@, v@.id),
        ensures
            final(self)@ == old(self)@.push(v@),
            final(self).wf(),
    {
        let ghost vv = v@;
        self.records.push(v);
        assert(self@ =~= old(self)@.push(vv));
        assert forall|i: int, j: int|
            0 <= i < self@.len() && 0 <= j < self@.len() && i != j implies self@[i].id
            != self@[j].id by {
            if i == old(self)@.len() as int {
                assert(old(self)@[j].id != vv.id);
            } else if j == old(self)@.len() as int {
                assert(old(self)@[i].id != vv.id);
            }
        }
    }

    /// Replaces the vehicle at index `i` by one with the same id.
    pub fn replace_at(&mut self, i: usize, v: Vehicle)
        requires
            old(self).wf(),
            i < old(self)@.len(),
            v@.id == old(self)@[i as int].id,
        ensures
            final(self)@ == old(self)@.update(i as int, v@),
            final(self).wf(),
    {
        let ghost vv = v@;
        self.records.set(i, v);
        assert(self@ =~= old(self)@.update(i as int, vv));
    }
}

/// Registers a vehicle for the principal, under a given id.
pub fn create_vehicle(
    store: &mut VehicleStore,
    user: &AuthUser,
    payload: CreateVehicle,
    file_paths: Option<Vec<String>>,
    new_id: ObjectId,
    now: i64,
) -> (r: Result<Vehicle, ApiError>)
    requires
        old(store).wf(),
    ensures
        final(store).wf(),
        (vehicle_result(r), final(store)@) == create_vehicle_outcome(
            old(store)@,
            user.user_id@,
            payload,
            files_view(file_paths),
            new_id@,
            now,
        ),
{
    let me = match ObjectId::parse_str(user.user_id.as_str()) {
        Some(me) => me,
        None => {
            return Err(ApiError::Validation(Invalid::Id));
        },
    };
    if store.find_by_id(&new_id).is_some() {
        proof {
            lemma_first_from_found(store@, vehicle_id_pred(new_id@), 0);
        }
        return Err(ApiError::Transient);
    }
    assert(!vehicle_id_used(store@, new_id@)) by {
        if vehicle_id_used(store@, new_id@) {
            let j = choose|j: int| 0 <= j < store@.len() && #[trigger] store@[j].id == new_id@;
            lemma_first_from_some(store@, vehicle_id_pred(new_id@), 0, j);
        }
    }
    let v = Vehicle {
        id: new_id,
        user_id: me,
        make: payload.make,
        model: payload.model,
        year: payload.year,
        files: file_paths,
        created_at: now,
        updated_at: now,
    };
    let created = v.copy();
    store.insert(v);
    Ok(created)
}

/// Updates a vehicle; only an admin may, whoever registered it.
pub fn update_vehicle(
    store: &mut VehicleStore,
    user: &AuthUser,
    id: &str,
    payload: CreateVehicle,
    file_paths: Option<Vec<String>>,
    now: i64,
) -> (r: Result<Vehicle, ApiError>)
    requires
        old(store).wf(),
    ensures
        final(store).wf(),
        (vehicle_result(r), final(store)@) == update_vehicle_outcome(
            old(store)@,
            user.role,
            id@,
            payload,
            files_view(file_paths),
            now,
        ),
{
    let admins = [UserRole::Admin];
    assert(admins@ == seq![UserRole::Admin]);
    if require_role(user, &admins).is_err() {
        assert(user.role != UserRole::Admin) by {
            if user.role == UserRole::Admin {
                assert(admins@[0] == user.role);
            }
        }
        return Err(ApiError::Forbidden);
    }
    assert(user.role == UserRole::Admin);
    let vid = match ObjectId::parse_str(id) {
        Some(v) => v,
        None => {
            return Err(ApiError::Validation(Invalid::Id));
        },
    };
    let i = match store.find_by_id(&vid) {
        Some(i) => i,
        None => {
            return Err(ApiError::NotFound);
        },
    };
    proof {
        lemma_first_from_found(store@, vehicle_id_pred(vid@), 0);
    }
    let old_v = store.get(i);
    let make = if payload.make.unicode_len() > 0 {
        payload.make
    } else {
        old_v.make
    };
    let model = if payload.model.unicode_len() > 0 {
        payload.model
    } else {
        old_v.model
    };
    let year = if payload.year.unicode_len() > 0 {
        payload.year
    } else {
        old_v.year
    };
    let files = match file_paths {
        Some(f) => Some(f),
        None => old_v.files,
    };
    let v = Vehicle {
        id: old_v.id,
        user_id: old_v.user_id,
        make,
        model,
        year,
        files,
        created_at: old_v.created_at,
        updated_at: now,
    };
    let updated = v.copy();
    store.replace_at(i, v);
    Ok(updated)
}

/// An admin can update any stored vehicle, whoever registered it; a regular
/// user can update none, and the collection stays as it was.
pub proof fn lemma_vehicle_update_admin_only(
    s: Seq<VehicleView>,
    k: int,
    id: Seq<char>,
    p: CreateVehicle,
    files: Option<Seq<Seq<char>>>,
    now: i64,
)
    requires
        0 <= k < s.len(),
        parsed_id(id) == Some(s[k].id),
    ensures
        update_vehicle_outcome(s, UserRole::Admin, id, p, files, now).0 is Ok,
        update_vehicle_outcome(s, UserRole::User, id, p, files, now) == (
            Err::<VehicleView, ApiError>(ApiError::Forbidden),
            s,
        ),
{
    lemma_first_from_some(s, vehicle_id_pred(s[k].id), 0, k);
}

} // verus!
