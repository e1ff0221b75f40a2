use vstd::prelude::*;

verus! {

/// A row of the `users` table. Instants are seconds of the Unix epoch.
#[derive(Debug, PartialEq, Eq)]
pub struct Model {
    /// The key, given by the datastore.
    pub id: i64,
    pub name: String,
    /// Unique over the table.
    pub email: String,
    /// The encoded hash of the password, never the password.
    pub pass_word: String,
    /// The state of the account; `normal` for a new one.
    pub status: String,
    pub create_time: i64,
    pub update_time: i64,
}

/// A user row as a mathematical value.
pub struct ModelView {
    pub id: int,
    pub name: Seq<char>,
    pub email: Seq<char>,
    pub pass_word: Seq<char>,
    pub status: Seq<char>,
    pub create_time: int,
    pub update_time: int,
}

/// A user that is about to be stored: every column but the key.
#[derive(Debug)]
pub struct NewModel {
    pub name: String,
    pub email: String,
    pub pass_word: String,
    pub status: String,
    pub create_time: i64,
    pub update_time: i64,
}

impl View for Model {
    type V = ModelView;

    open spec fn view(&self) -> ModelView {
        ModelView {
            id: self.id as int,
            name: self.name@,
            email: self.email@,
            pass_word: self.pass_word@,
            status: self.status@,
            create_time: self.create_time as int,
            update_time: self.update_time as int,
        }
    }
}

impl DeepView for Model {
    type V = ModelView;

    open spec fn deep_view(&self) -> ModelView {
        self@
    }
}

impl Clone for Model {
    fn clone(&self) -> (copy: Model)
        ensures
            copy@ == self@,
    {
        Model {
            id: self.id,
            name: self.name.clone(),
            email: self.email.clone(),
            pass_word: self.pass_word.clone(),
            status: self.status.clone(),
            create_time: self.create_time,
            update_time: self.update_time,
        }
    }
}

impl NewModel {
    /// The row that the datastore makes of this user under the key `id`.
    pub open spec fn stored_as(&self, id: int) -> ModelView {
        ModelView {
            id,
            name: self.name@,
            email: self.email@,
            pass_word: self.pass_word@,
            status: self.status@,
            create_time: self.create_time as int,
            update_time: self.update_time as int,
        }
    }

    /// The row under the key `id`.
    pub fn into_model(self, id: i64) -> (row: Model)
        ensures
            row@ == self.stored_as(id as int),
    {
        Model {
            id,
            name: self.name,
            email: self.email,
            pass_word: self.pass_word,
            status: self.status,
            create_time: self.create_time,
            update_time: self.update_time,
        }
    }
}

} // verus!
