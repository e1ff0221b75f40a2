use crate::entity::{devices, users};
use crate::seqs::{lemma_filter_keeps, lemma_filter_member, lemma_filter_order, lemma_filter_step};
use crate::text::{contains, is_substring, same_text};
use vstd::prelude::*;

verus! {

/// The credential store held in memory: the `users` table and the `devices`
/// table, each in the order in which its rows were stored.
pub struct Store {
    users: Vec<users::Model>,
    devices: Vec<devices::Model>,
    last_user_id: i64,
    last_device_id: i64,
}

/// The two tables as mathematical values.
pub struct StoreView {
    pub users: Seq<users::ModelView>,
    pub devices: Seq<devices::ModelView>,
}

/// The rows that a deletion under `filter` leaves.
pub open spec fn not_selected(filter: devices::FilterView) -> spec_fn(devices::ModelView) -> bool {
    |row: devices::ModelView| !filter.selects(row)
}

/// The users with another key than `id`.
pub open spec fn other_user(id: int) -> spec_fn(users::ModelView) -> bool {
    |row: users::ModelView| row.id != id
}

/// The devices of other users than the one with the key `id`.
pub open spec fn of_other_user(id: int) -> spec_fn(devices::ModelView) -> bool {
    |row: devices::ModelView| row.user_id != id
}

/// The devices of the user with the key `id`.
pub open spec fn of_user(id: int) -> spec_fn(devices::ModelView) -> bool {
    |row: devices::ModelView| row.user_id == id
}

/// The users whose name holds `part`.
pub open spec fn named_like(part: Seq<char>) -> spec_fn(users::ModelView) -> bool {
    |row: users::ModelView| is_substring(row.name, part)
}

impl StoreView {
    /// A user with the key `id` is stored.
    pub open spec fn has_user(self, id: int) -> bool {
        exists|i: int| 0 <= i < self.users.len() && (#[trigger] self.users[i]).id == id
    }

    /// A user with the address `email` is stored.
    pub open spec fn has_email(self, email: Seq<char>) -> bool {
        exists|i: int| 0 <= i < self.users.len() && (#[trigger] self.users[i]).email == email
    }

    /// What the datastore guarantees of its tables: keys are unique, no two
    /// users share an address, and every device belongs to a stored user.
    pub open spec fn wf(self) -> bool {
        &&& forall|i: int, j: int|
            0 <= i < j < self.users.len() ==> (#[trigger] self.users[i]).id != (
            #[trigger] self.users[j]).id
        &&& forall|i: int, j: int|
            0 <= i < j < self.users.len() ==> (#[trigger] self.users[i]).email != (
            #[trigger] self.users[j]).email
        &&& forall|i: int, j: int|
            0 <= i < j < self.devices.len() ==> (#[trigger] self.devices[i]).id != (
            #[trigger] self.devices[j]).id
        &&& forall|k: int|
            0 <= k < self.devices.len() ==> self.has_user((#[trigger] self.devices[k]).user_id)
    }

    /// The tables after `row` was added to `users`.
    pub open spec fn with_user(self, row: users::ModelView) -> StoreView {
        StoreView { users: self.users.push(row), devices: self.devices }
    }

    /// The tables after `row` was added to `devices`.
    pub open spec fn with_device(self, row: devices::ModelView) -> StoreView {
        StoreView { users: self.users, devices: self.devices.push(row) }
    }

    /// The tables after the devices that `filter` selects were deleted.
    pub open spec fn without_devices(self, filter: devices::FilterView) -> StoreView {
        StoreView { users: self.users, devices: self.devices.filter(not_selected(filter)) }
    }

    /// The tables after the user with the key `id` was deleted, and with it
    /// every device that belonged to it.
    pub open spec fn without_user(self, id: int) -> StoreView {
        StoreView {
            users: self.users.filter(other_user(id)),
            devices: self.devices.filter(of_other_user(id)),
        }
    }

    /// The devices of the user with the key `id`, in the order of the table.
    pub open spec fn devices_of(self, id: int) -> Seq<devices::ModelView> {
        self.devices.filter(of_user(id))
    }

    /// The users whose name holds `part`, in the order of the table.
    pub open spec fn users_named_like(self, part: Seq<char>) -> Seq<users::ModelView> {
        self.users.filter(named_like(part))
    }
}

/// Deleting devices keeps the tables' guarantees.
pub proof fn lemma_without_devices_wf(tables: StoreView, filter: devices::FilterView)
    requires
        tables.wf(),
    ensures
        tables.without_devices(filter).wf(),
{
    let after = tables.without_devices(filter);
    let keep = not_selected(filter);
    assert forall|i: int, j: int| 0 <= i < j < after.devices.len() implies (
    #[trigger] after.devices[i]).id != (#[trigger] after.devices[j]).id by {
        lemma_filter_order(tables.devices, keep, i, j);
    }
    assert forall|k: int| 0 <= k < after.devices.len() implies after.has_user(
        (#[trigger] after.devices[k]).user_id,
    ) by {
        lemma_filter_member(tables.devices, keep, k);
        let a = choose|a: int| 0 <= a < tables.devices.len() && tables.devices[a] == after.devices[k];
        let owner = tables.devices[a].user_id;
        assert(tables.has_user(owner));
        let u = choose|u: int| 0 <= u < tables.users.len() && (#[trigger] tables.users[u]).id == owner;
        assert(after.users[u].id == owner);
    }
}

/// Deleting a user together with its devices keeps the tables' guarantees.
pub proof fn lemma_without_user_wf(tables: StoreView, id: int)
    requires
        tables.wf(),
    ensures
        tables.without_user(id).wf(),
{
    let after = tables.without_user(id);
    assert forall|i: int, j: int| 0 <= i < j < after.users.len() implies (
    #[trigger] after.users[i]).id != (#[trigger] after.users[j]).id && after.users[i].email
        != after.users[j].email by {
        lemma_filter_order(tables.users, other_user(id), i, j);
    }
    assert forall|i: int, j: int| 0 <= i < j < after.devices.len() implies (
    #[trigger] after.devices[i]).id != (#[trigger] after.devices[j]).id by {
        lemma_filter_order(tables.devices, of_other_user(id), i, j);
    }
    assert forall|k: int| 0 <= k < after.devices.len() implies after.has_user(
        (#[trigger] after.devices[k]).user_id,
    ) by {
        lemma_filter_member(tables.devices, of_other_user(id), k);
        let owner = after.devices[k].user_id;
        let d = choose|d: int| 0 <= d < tables.devices.len() && tables.devices[d] == after.devices[k];
        assert(tables.has_user(tables.devices[d].user_id));
        let a = choose|a: int| 0 <= a < tables.users.len() && (#[trigger] tables.users[a]).id == owner;
        lemma_filter_keeps(tables.users, other_user(id), a);
        let b = choose|b: int|
            0 <= b < after.users.len() && after.users[b] == tables.users[a];
        assert(after.users[b].id == owner);
    }
}

impl View for Store {
    type V = StoreView;

    closed spec fn view(&self) -> StoreView {
        StoreView { users: self.users.deep_view(), devices: self.devices.deep_view() }
    }
}

impl Store {
    /// No stored key lies above the last key that was given out.
    pub closed spec fn keys_given(&self) -> bool {
        &&& forall|i: int|
            0 <= i < self@.users.len() ==> (#[trigger] self@.users[i]).id <= self.last_user_id
        &&& forall|i: int|
            0 <= i < self@.devices.len() ==> (#[trigger] self@.devices[i]).id
                <= self.last_device_id
    }

    /// A key is left for one more user.
    pub closed spec fn user_key_left(&self) -> bool {
        self.last_user_id < i64::MAX
    }

    /// A key is left for one more device.
    pub closed spec fn device_key_left(&self) -> bool {
        self.last_device_id < i64::MAX
    }

    /// The store is in a state that its own operations lead to.
    pub open spec fn wf(&self) -> bool {
        &&& self@.wf()
        &&& self.keys_given()
    }

    /// The empty store.
    pub fn new() -> (store: Store)
        ensures
            store.wf(),
            store@.users.len() == 0,
            store@.devices.len() == 0,
    {
        Store { users: Vec::new(), devices: Vec::new(), last_user_id: 0, last_device_id: 0 }
    }

    /// The rows of `users`, in the order in which they were stored.
    pub fn users(&self) -> (rows: &Vec<users::Model>)
        ensures
            rows.deep_view() == self@.users,
    {
        &self.users
    }

    /// The rows of `devices`, in the order in which they were stored.
    pub fn devices(&self) -> (rows: &Vec<devices::Model>)
        ensures
            rows.deep_view() == self@.devices,
    {
        &self.devices
    }

    /// The user with the given address, if one is stored.
    pub fn find_user_by_email(&self, email: &str) -> (found: Option<users::Model>)
        ensures
            match found {
                Some(user) => self@.users.contains(user@) && user@.email == email@,
                None => !self@.has_email(email@),
            },
    {
        let mut i: usize = 0;
        while i < self.users.len()
            invariant
                i <= self.users.len(),
                forall|k: int| 0 <= k < i ==> (#[trigger] self@.users[k]).email != email@,
            decreases self.users.len() - i,
        {
            if same_text(self.users[i].email.as_str(), email) {
                assert(self@.users[i as int] == self.users[i as int]@);
                return Some(self.users[i].clone());
            }
            assert(self@.users[i as int] == self.users[i as int]@);
            i += 1;
        }
        None
    }

    /// The user with the given key, if one is stored.
    pub fn find_user_by_id(&self, id: i64) -> (found: Option<users::Model>)
        ensures
            match found {
                Some(user) => self@.users.contains(user@) && user@.id == id,
                None => !self@.has_user(id as int),
            },
    {
        let mut i: usize = 0;
        while i < self.users.len()
            invariant
                i <= self.users.len(),
                forall|k: int| 0 <= k < i ==> (#[trigger] self@.users[k]).id != id,
            decreases self.users.len() - i,
        {
            if self.users[i].id == id {
                assert(self@.users[i as int] == self.users[i as int]@);
                return Some(self.users[i].clone());
            }
            assert(self@.users[i as int] == self.users[i as int]@);
            i += 1;
        }
        None
    }

    /// The users whose name holds `part`, in the order of the table.
    pub fn find_users_by_name(&self, part: &str) -> (found: Vec<users::Model>)
        ensures
            found.deep_view() == self@.users_named_like(part@),
    {
        let mut found: Vec<users::Model> = Vec::new();
        let mut i: usize = 0;
        assert(self@.users.take(0).filter(named_like(part@)) =~= Seq::empty()) by {
            reveal(Seq::filter);
        }
        while i < self.users.len()
            invariant
                i <= self.users.len(),
                found.deep_view() == self@.users.take(i as int).filter(named_like(part@)),
            decreases self.users.len() - i,
        {
            proof {
                lemma_filter_step(self@.users, named_like(part@), i as int);
            }
            assert(self@.users[i as int] == self.users[i as int]@);
            if contains(self.users[i].name.as_str(), part) {
                let ghost before = found.deep_view();
                found.push(self.users[i].clone());
                assert(found.deep_view() =~= before.push(self.users[i as int]@));
            }
            i += 1;
        }
        assert(self@.users.take(i as int) =~= self@.users);
        found
    }

    /// Stores a user. The datastore gives the next key. An address that is
    /// already stored is refused, and so is a row for which no key is left.
    pub fn insert_user(&mut self, new: users::NewModel) -> (r: Result<users::Model, String>)
        requires
            old(self).wf(),
        ensures
            final(self).wf(),
            r is Ok <==> !old(self)@.has_email(new.email@) && old(self).user_key_left(),
            match r {
                Ok(row) => row@ == new.stored_as(row.id as int) && !old(self)@.has_user(
                    row.id as int,
                ) && final(self)@ == old(self)@.with_user(row@),
                Err(_) => final(self)@ == old(self)@,
            },
    {
        if self.last_user_id == i64::MAX {
            return Err("database or disk is full".to_owned());
        }
        match self.find_user_by_email(new.email.as_str()) {
            Some(_) => {
                return Err("UNIQUE constraint failed: users.email".to_owned());
            },
            None => {},
        }
        let id = self.last_user_id + 1;
        let row = new.into_model(id);
        let copy = row.clone();
        let ghost before = self@;
        self.last_user_id = id;
        self.users.push(row);
        assert(self@.users =~= before.users.push(copy@));
        assert(self@.devices =~= before.devices);
        assert(!before.has_user(id as int));
        assert(!before.has_email(copy@.email));
        assert(self@.wf()) by {
            assert forall|k: int| 0 <= k < self@.devices.len() implies self@.has_user(
                (#[trigger] self@.devices[k]).user_id,
            ) by {
                let owner = before.devices[k].user_id;
                assert(before.has_user(owner));
                let a = choose|a: int|
                    0 <= a < before.users.len() && (#[trigger] before.users[a]).id == owner;
                assert(self@.users[a].id == owner);
            }
        }
        Ok(copy)
    }

    /// Stores a session at the instant `now`. The datastore gives the next
    /// key. A session of a user that is not stored is refused, and so is a
    /// row for which no key is left.
    pub fn insert_device(&mut self, new: devices::NewModel, now: i64) -> (r: Result<
        devices::Model,
        String,
    >)
        requires
            old(self).wf(),
        ensures
            final(self).wf(),
            r is Ok <==> old(self)@.has_user(new.user_id as int) && old(self).device_key_left(),
            match r {
                Ok(row) => row@ == new.stored_as(row.id as int, now as int) && final(self)@ == old(
                    self,
                )@.with_device(row@),
                Err(_) => final(self)@ == old(self)@,
            },
    {
        if self.last_device_id == i64::MAX {
            return Err("database or disk is full".to_owned());
        }
        match self.find_user_by_id(new.user_id) {
            Some(_) => {},
            None => {
                return Err("FOREIGN KEY constraint failed".to_owned());
            },
        }
        let id = self.last_device_id + 1;
        let row = new.into_model(id, now);
        let copy = row.clone();
        let ghost before = self@;
        self.last_device_id = id;
        self.devices.push(row);
        assert(self@.devices =~= before.devices.push(copy@));
        assert(self@.users =~= before.users);
        assert(self@.wf()) by {
            assert forall|k: int| 0 <= k < self@.devices.len() implies self@.has_user(
                (#[trigger] self@.devices[k]).user_id,
            ) by {
                if k < before.devices.len() {
                    assert(before.has_user(before.devices[k].user_id));
                }
            }
        }
        Ok(copy)
    }

    /// Deletes the devices that `filter` selects, and says how many they were.
    pub fn delete_devices(&mut self, filter: &devices::Filter) -> (removed: u64)
        requires
            old(self).wf(),
        ensures
            final(self).wf(),
            final(self)@ == old(self)@.without_devices(filter@),
            removed == old(self)@.devices.len() - final(self)@.devices.len(),
    {
        let ghost before = self@;
        let mut kept: Vec<devices::Model> = Vec::new();
        let mut i: usize = 0;
        assert(before.devices.take(0).filter(not_selected(filter@)) =~= Seq::empty()) by {
            reveal(Seq::filter);
        }
        while i < self.devices.len()
            invariant
                i <= self.devices.len(),
                self@ == before,
                kept.deep_view() == before.devices.take(i as int).filter(not_selected(filter@)),
            decreases self.devices.len() - i,
        {
            proof {
                lemma_filter_step(before.devices, not_selected(filter@), i as int);
            }
            assert(self@.devices[i as int] == self.devices[i as int]@);
            if !filter.selects(&self.devices[i]) {
                let ghost so_far = kept.deep_view();
                kept.push(self.devices[i].clone());
                assert(kept.deep_view() =~= so_far.push(self.devices[i as int]@));
            }
            i += 1;
        }
        assert(before.devices.take(i as int) =~= before.devices);
        proof {
            before.devices.lemma_filter_len(not_selected(filter@));
        }
        let removed = self.devices.len() - kept.len();
        self.devices = kept;
        assert(self@.users =~= before.users);
        proof {
            lemma_without_devices_wf(before, filter@);
            assert forall|k: int| 0 <= k < self@.devices.len() implies (
            #[trigger] self@.devices[k]).id <= self.last_device_id by {
                lemma_filter_member(before.devices, not_selected(filter@), k);
            }
        }
        removed as u64
    }

    /// Deletes the user with the key `id`, and with it every device that
    /// belongs to it. Says how many users were deleted: one or none.
    pub fn delete_user(&mut self, id: i64) -> (removed: u64)
        requires
            old(self).wf(),
        ensures
            final(self).wf(),
            final(self)@ == old(self)@.without_user(id as int),
            removed == if old(self)@.has_user(id as int) {
                1int
            } else {
                0int
            },
    {
        let ghost before = self@;
        let mut users_kept: Vec<users::Model> = Vec::new();
        let mut i: usize = 0;
        assert(before.users.take(0).filter(other_user(id as int)) =~= Seq::empty()) by {
            reveal(Seq::filter);
        }
        while i < self.users.len()
            invariant
                i <= self.users.len(),
                self@ == before,
                users_kept.deep_view() == before.users.take(i as int).filter(other_user(id as int)),
            decreases self.users.len() - i,
        {
            proof {
                lemma_filter_step(before.users, other_user(id as int), i as int);
            }
            assert(self@.users[i as int] == self.users[i as int]@);
            if self.users[i].id != id {
                let ghost so_far = users_kept.deep_view();
                users_kept.push(self.users[i].clone());
                assert(users_kept.deep_view() =~= so_far.push(self.users[i as int]@));
            }
            i += 1;
        }
        assert(before.users.take(i as int) =~= before.users);
        let mut devices_kept: Vec<devices::Model> = Vec::new();
        let mut j: usize = 0;
        assert(before.devices.take(0).filter(of_other_user(id as int)) =~= Seq::empty()) by {
            reveal(Seq::filter);
        }
        while j < self.devices.len()
            invariant
                j <= self.devices.len(),
                self@ == before,
                devices_kept.deep_view() == before.devices.take(j as int).filter(
                    of_other_user(id as int),
                ),
            decreases self.devices.len() - j,
        {
            proof {
                lemma_filter_step(before.devices, of_other_user(id as int), j as int);
            }
            assert(self@.devices[j as int] == self.devices[j as int]@);
            if self.devices[j].user_id != id {
                let ghost so_far = devices_kept.deep_view();
                devices_kept.push(self.devices[j].clone());
                assert(devices_kept.deep_view() =~= so_far.push(self.devices[j as int]@));
            }
            j += 1;
        }
        assert(before.devices.take(j as int) =~= before.devices);
        proof {
            before.users.lemma_filter_len(other_user(id as int));
            lemma_one_user_per_key(before, id as int);
        }
        let removed = self.users.len() - users_kept.len();
        self.users = users_kept;
        self.devices = devices_kept;
        proof {
            lemma_without_user_wf(before, id as int);
            assert forall|k: int| 0 <= k < self@.users.len() implies (#[trigger] self@.users[k]).id
                <= self.last_user_id by {
                lemma_filter_member(before.users, other_user(id as int), k);
            }
            assert forall|k: int| 0 <= k < self@.devices.len() implies (
            #[trigger] self@.devices[k]).id <= self.last_device_id by {
                lemma_filter_member(before.devices, of_other_user(id as int), k);
            }
        }
        removed as u64
    }
}

/// Deleting by key takes one user out of the table where the key is stored,
/// and none where it is not.
pub proof fn lemma_one_user_per_key(tables: StoreView, id: int)
    requires
        tables.wf(),
    ensures
        tables.users.len() - tables.users.filter(other_user(id)).len() == if tables.has_user(id) {
            1int
        } else {
            0int
        },
{
    lemma_count_key(tables.users, id);
}

/// In a sequence of users with distinct keys, all but at most one have
/// another key than `id`.
proof fn lemma_count_key(rows: Seq<users::ModelView>, id: int)
    requires
        forall|i: int, j: int|
            0 <= i < j < rows.len() ==> (#[trigger] rows[i]).id != (#[trigger] rows[j]).id,
    ensures
        rows.len() - rows.filter(other_user(id)).len() == if exists|i: int|
            0 <= i < rows.len() && (#[trigger] rows[i]).id == id {
            1int
        } else {
            0int
        },
    decreases rows.len(),
{
    reveal(Seq::filter);
    if rows.len() > 0 {
        let rest = rows.drop_last();
        lemma_count_key(rest, id);
        if rows.last().id == id {
            assert(rows[rows.len() - 1].id == id);
            assert(!(exists|i: int| 0 <= i < rest.len() && (#[trigger] rest[i]).id == id)) by {
                if exists|i: int| 0 <= i < rest.len() && (#[trigger] rest[i]).id == id {
                    let i = choose|i: int| 0 <= i < rest.len() && (#[trigger] rest[i]).id == id;
                    assert(rows[i].id == rows[rows.len() - 1].id);
                }
            }
        } else {
            if exists|i: int| 0 <= i < rows.len() && (#[trigger] rows[i]).id == id {
                let i = choose|i: int| 0 <= i < rows.len() && (#[trigger] rows[i]).id == id;
                assert(rest[i].id == id);
            }
            if exists|i: int| 0 <= i < rest.len() && (#[trigger] rest[i]).id == id {
                let i = choose|i: int| 0 <= i < rest.len() && (#[trigger] rest[i]).id == id;
                assert(rows[i].id == id);
            }
        }
    }
}

} // verus!
