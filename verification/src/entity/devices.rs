use crate::text::same_text;
use vstd::prelude::*;

verus! {

/// A row of the `devices` table: one session of one user. Instants are
/// seconds of the Unix epoch.
#[derive(Debug, PartialEq, Eq)]
pub struct Model {
    /// The key, given by the datastore.
    pub id: i64,
    /// The key of the user that owns the session.
    pub user_id: i64,
    /// The token that was issued for the session.
    pub token: String,
    pub create_time: i64,
    pub update_time: i64,
    /// What the user calls the device, if anything.
    pub name: Option<String>,
}

/// A device row as a mathematical value.
pub struct ModelView {
    pub id: int,
    pub user_id: int,
    pub token: Seq<char>,
    pub create_time: int,
    pub update_time: int,
    pub name: Option<Seq<char>>,
}

/// A session that is about to be stored. The datastore gives the key and the
/// two instants; the name stays empty.
#[derive(Debug)]
pub struct NewModel {
    pub user_id: i64,
    pub token: String,
}

/// Which sessions a deletion removes: those of one user, and among them only
/// the one with the given token where one is given.
#[derive(Debug)]
pub struct Filter {
    pub user_id: i64,
    pub token: Option<String>,
}

/// A filter as a mathematical value.
pub struct FilterView {
    pub user_id: int,
    pub token: Option<Seq<char>>,
}

/// What a device row refers to.
#[derive(Debug, Clone, Copy, PartialEq, Eq, Structural)]
pub enum Relation {
    /// `user_id` is the key of a row of `users`; when that row is deleted,
    /// the device row goes with it.
    Users,
}

impl View for Model {
    type V = ModelView;

    open spec fn view(&self) -> ModelView {
        ModelView {
            id: self.id as int,
            user_id: self.user_id as int,
            token: self.token@,
            create_time: self.create_time as int,
            update_time: self.update_time as int,
            name: match self.name {
                Some(name) => Some(name@),
                None => None,
            },
        }
    }
}

impl DeepView for Model {
    type V = ModelView;

    open spec fn deep_view(&self) -> ModelView {
        self@
    }
}

impl Clone for Model {
    fn clone(&self) -> (copy: Model)
        ensures
            copy@ == self@,
    {
        Model {
            id: self.id,
            user_id: self.user_id,
            token: self.token.clone(),
            create_time: self.create_time,
            update_time: self.update_time,
            name: match &self.name {
                Some(name) => Some(name.clone()),
                None => None,
            },
        }
    }
}

impl NewModel {
    /// The row that the datastore makes of this session under the key `id`
    /// at the instant `now`.
    pub open spec fn stored_as(&self, id: int, now: int) -> ModelView {
        ModelView {
            id,
            user_id: self.user_id as int,
            token: self.token@,
            create_time: now,
            update_time: now,
            name: None,
        }
    }

    /// The row under the key `id`, stored at `now`.
    pub fn into_model(self, id: i64, now: i64) -> (row: Model)
        ensures
            row@ == self.stored_as(id as int, now as int),
    {
        Model {
            id,
            user_id: self.user_id,
            token: self.token,
            create_time: now,
            update_time: now,
            name: None,
        }
    }
}

impl View for Filter {
    type V = FilterView;

    open spec fn view(&self) -> FilterView {
        FilterView {
            user_id: self.user_id as int,
            token: match self.token {
                Some(token) => Some(token@),
                None => None,
            },
        }
    }
}

impl FilterView {
    /// Whether the filter selects the row.
    pub open spec fn selects(self, row: ModelView) -> bool {
        &&& row.user_id == self.user_id
        &&& match self.token {
            Some(token) => row.token == token,
            None => true,
        }
    }
}

impl Filter {
    /// Whether the filter selects the row.
    pub fn selects(&self, row: &Model) -> (selected: bool)
        ensures
            selected == self@.selects(row@),
    {
        row.user_id == self.user_id && match &self.token {
            Some(token) => same_text(row.token.as_str(), token.as_str()),
            None => true,
        }
    }
}

} // verus!
