//! The storage contract and the record store.
//!
//! A [`Database`] loads and persists the whole state. A [`JiraHandle`]
//! runs every operation as one transaction on it: load the state, apply a
//! rule of [`crate::rules`], persist the result. Nothing is kept between
//! two operations.

use crate::error::DbError;
use crate::models::{DBState, DBStateView, Epic, Status, Story};
use vstd::prelude::*;

verus! {

/// A storage backend: it loads and persists the whole state, and keeps no
/// copy between calls.
///
/// The value of a backend stands for the storage with what it holds, so
/// that a persist changes it. [`Database::stored`] and
/// [`Database::reliable`] describe a backend to proofs and are never run.
pub trait Database {
    /// The state that the storage holds, if it holds one that can be loaded.
    spec fn stored(&self) -> Option<DBStateView>;

    /// Whether no load and no persist on this storage fails.
    spec fn reliable(&self) -> bool;

    /// Loads the state afresh from the storage. A state that is returned
    /// is the state that the storage holds; a failure is one of the
    /// storage, which reliable storage never reports.
    fn read_db(&self) -> (r: Result<DBState, DbError>)
        ensures
            match r {
                Ok(state) => self.stored() == Some(state@),
                Err(e) => e.is_storage_failure() && !self.reliable(),
            },
    ;

    /// Persists `db_state` as the whole content of the storage. On success
    /// the storage holds `db_state`; a failure is one of writing, which
    /// reliable storage never reports and after which nothing is known of
    /// what the storage holds. Reliable storage stays reliable.
    fn write_db(&mut self, db_state: &DBState) -> (r: Result<(), DbError>)
        ensures
            old(self).reliable() ==> final(self).reliable(),
            match r {
                Ok(()) => final(self).stored() == Some(db_state@),
                Err(e) => e is Io && !old(self).reliable(),
            },
    ;
}

/// What [`Database::read_db`] promises, as a relation between the storage
/// and what the load returned.
pub open spec fn loads<D: Database>(database: D, returned: Result<DBState, DbError>) -> bool {
    match returned {
        Ok(state) => database.stored() == Some(state@),
        Err(e) => e.is_storage_failure() && !database.reliable(),
    }
}

/// What [`Database::write_db`] promises, as a relation between the storage
/// before, the state handed over, the storage after, and what the persist
/// returned.
pub open spec fn persists<D: Database>(
    before: D,
    state: DBStateView,
    after: D,
    returned: Result<(), DbError>,
) -> bool {
    &&& before.reliable() ==> after.reliable()
    &&& match returned {
        Ok(()) => after.stored() == Some(state),
        Err(e) => e is Io && !before.reliable(),
    }
}

/// Storage that holds the state in memory, and never fails.
pub struct MemoryDatabase {
    pub state: DBState,
}

impl MemoryDatabase {
    /// Storage that holds the state in which nothing was created yet.
    pub fn new() -> (database: Self)
        ensures
            database.stored() == Some(DBStateView::empty()),
    {
        MemoryDatabase { state: DBState::new() }
    }
}

impl Database for MemoryDatabase {
    open spec fn stored(&self) -> Option<DBStateView> {
        Some(self.state@)
    }

    open spec fn reliable(&self) -> bool {
        true
    }

    fn read_db(&self) -> (r: Result<DBState, DbError>) {
        Ok(self.state.clone())
    }

    fn write_db(&mut self, db_state: &DBState) -> (r: Result<(), DbError>) {
        self.state = db_state.clone();
        Ok(())
    }
}

/// What one transaction on the storage leaves behind and returns, where
/// `rule` says what the operation does to a state.
///
/// - `Ok`: the storage held a state, the rule accepted it, and the storage
///   now holds the state that the rule gives; the value is the rule's.
/// - An error of the rule: the storage held a state, the rule refused it
///   with that error, and the storage was not written to.
/// - A failure of the storage: either the load failed and the storage was
///   not written to, or the rule accepted the loaded state and the persist
///   failed. Reliable storage never gives this case, and stays reliable.
pub open spec fn transacted<D: Database, T>(
    before: D,
    rule: spec_fn(DBStateView) -> Result<(DBStateView, T), DbError>,
    after: D,
    returned: Result<T, DbError>,
) -> bool {
    &&& before.reliable() ==> after.reliable()
    &&& match returned {
        Ok(value) => {
            &&& before.stored() matches Some(state)
            &&& rule(state) matches Ok((next, v))
            &&& v == value
            &&& after.stored() == Some(next)
        },
        Err(e) => if e.is_storage_failure() {
            &&& !before.reliable()
            &&& after == before || (before.stored() matches Some(state) && rule(state) is Ok)
        } else {
            &&& before.stored() matches Some(state)
            &&& rule(state) == Err::<(DBStateView, T), DbError>(e)
            &&& after == before
        },
    }
}

/// The record store: create, read, update and delete over the state that
/// a storage backend holds.
pub struct JiraHandle<D: Database> {
    pub database: D,
}

impl<D: Database> JiraHandle<D> {
    /// A record store over `database`.
    pub fn new(database: D) -> (handle: Self)
        ensures
            handle.database == database,
    {
        JiraHandle { database: database }
    }

    /// Loads the whole state from the storage.
    pub fn read_full_record(&self) -> (r: Result<DBState, DbError>)
        ensures
            loads(self.database, r),
    {
        self.database.read_db()
    }

    /// Creates `epic` and returns its identifier.
    pub fn create_epic(&mut self, epic: Epic) -> (r: Result<u32, DbError>)
        ensures
            transacted(
                old(self).database,
                |state: DBStateView| state.create_epic(epic@),
                final(self).database,
                r,
            ),
    {
        let mut db_state = match self.database.read_db() {
            Ok(db_state) => db_state,
            Err(e) => {
                return Err(e);
            },
        };
        let id = match db_state.create_epic(epic) {
            Ok(id) => id,
            Err(e) => {
                return Err(e);
            },
        };
        match self.database.write_db(&db_state) {
            Ok(()) => Ok(id),
            Err(e) => Err(e),
        }
    }

    /// Creates `story` under the epic `epic_id` and returns its identifier.
    /// When the epic is absent nothing is persisted.
    pub fn create_story(&mut self, story: Story, epic_id: u32) -> (r: Result<u32, DbError>)
        ensures
            transacted(
                old(self).database,
                |state: DBStateView| state.create_story(story@, epic_id),
                final(self).database,
                r,
            ),
    {
        let mut db_state = match self.database.read_db() {
            Ok(db_state) => db_state,
            Err(e) => {
                return Err(e);
            },
        };
        let id = match db_state.create_story(story, epic_id) {
            Ok(id) => id,
            Err(e) => {
                return Err(e);
            },
        };
        match self.database.write_db(&db_state) {
            Ok(()) => Ok(id),
            Err(e) => Err(e),
        }
    }

    /// Deletes the epic `epic_id` and, with it, every story in its list.
    /// When the epic is absent nothing is persisted.
    pub fn delete_epic(&mut self, epic_id: u32) -> (r: Result<(), DbError>)
        ensures
            transacted(
                old(self).database,
                |state: DBStateView| state.delete_epic(epic_id),
                final(self).database,
                r,
            ),
    {
        let mut db_state = match self.database.read_db() {
            Ok(db_state) => db_state,
            Err(e) => {
                return Err(e);
            },
        };
        if let Err(e) = db_state.delete_epic(epic_id) {
            return Err(e);
        }
        self.database.write_db(&db_state)
    }

    /// Deletes the story `story_id` of the epic `epic_id`. When the epic is
    /// absent, or does not list the story, nothing is persisted.
    pub fn delete_story(&mut self, epic_id: u32, story_id: u32) -> (r: Result<(), DbError>)
        ensures
            transacted(
                old(self).database,
                |state: DBStateView| state.delete_story(epic_id, story_id),
                final(self).database,
                r,
            ),
    {
        let mut db_state = match self.database.read_db() {
            Ok(db_state) => db_state,
            Err(e) => {
                return Err(e);
            },
        };
        if let Err(e) = db_state.delete_story(epic_id, story_id) {
            return Err(e);
        }
        self.database.write_db(&db_state)
    }

    /// Sets the status of the epic `epic_id`. When the epic is absent
    /// nothing is persisted.
    pub fn update_epic_status(&mut self, epic_id: u32, status: Status) -> (r: Result<(), DbError>)
        ensures
            transacted(
                old(self).database,
                |state: DBStateView| state.update_epic_status(epic_id, status),
                final(self).database,
                r,
            ),
    {
        let mut db_state = match self.database.read_db() {
            Ok(db_state) => db_state,
            Err(e) => {
                return Err(e);
            },
        };
        if let Err(e) = db_state.update_epic_status(epic_id, status) {
            return Err(e);
        }
        self.database.write_db(&db_state)
    }

    /// Sets the status of the story `story_id`. When the story is absent
    /// nothing is persisted.
    pub fn update_story_status(&mut self, story_id: u32, status: Status) -> (r: Result<(), DbError>)
        ensures
            transacted(
                old(self).database,
                |state: DBStateView| state.update_story_status(story_id, status),
                final(self).database,
                r,
            ),
    {
        let mut db_state = match self.database.read_db() {
            Ok(db_state) => db_state,
            Err(e) => {
                return Err(e);
            },
        };
        if let Err(e) = db_state.update_story_status(story_id, status) {
            return Err(e);
        }
        self.database.write_db(&db_state)
    }
}

} // verus!
