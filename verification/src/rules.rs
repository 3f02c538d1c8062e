//! The consistency rules of the store: what each mutation does to a
//! persisted state, and when it is refused.
//!
//! Each rule is stated once as a function on the value of a state, and the
//! executable mutation of the same name on [`DBState`] is proved to follow
//! it. A refused mutation leaves the state as it was, and every mutation
//! keeps a well-formed state well formed.

use crate::error::DbError;
use crate::laws::{
    lemma_create_epic_keeps_well_formed, lemma_create_story_keeps_well_formed,
    lemma_delete_epic_keeps_well_formed, lemma_delete_story_keeps_well_formed,
    lemma_update_epic_status_keeps_well_formed, lemma_update_story_status_keeps_well_formed,
};
use crate::models::{DBState, DBStateView, Epic, EpicView, Status, Story, StoryView};
use vstd::prelude::*;

verus! {

impl StoryView {
    /// The same story in another status.
    pub open spec fn with_status(self, status: Status) -> StoryView {
        StoryView { status: status, ..self }
    }
}

impl EpicView {
    /// The same epic in another status.
    pub open spec fn with_status(self, status: Status) -> EpicView {
        EpicView { status: status, ..self }
    }

    /// The same epic with one more story at the end of its list.
    pub open spec fn with_story(self, story_id: u32) -> EpicView {
        EpicView { stories: self.stories.push(story_id), ..self }
    }

    /// The same epic without the first occurrence of a story in its list.
    pub open spec fn without_story(self, story_id: u32) -> EpicView {
        EpicView { stories: self.stories.remove_value(story_id), ..self }
    }
}

impl DBStateView {
    /// Whether an identifier is left to assign.
    pub open spec fn has_free_id(self) -> bool {
        self.last_item_id < u32::MAX
    }

    /// The identifier that the next created item gets: one more than the
    /// highest ever assigned.
    pub open spec fn next_id(self) -> u32
        recommends
            self.has_free_id(),
    {
        (self.last_item_id + 1) as u32
    }

    /// Creating an epic: it is stored under the next identifier, which
    /// becomes the highest assigned. Refused only when no identifier is left.
    pub open spec fn create_epic(self, epic: EpicView) -> Result<(DBStateView, u32), DbError> {
        if !self.has_free_id() {
            Err(DbError::IdsExhausted)
        } else {
            let id = self.next_id();
            Ok((DBStateView { last_item_id: id, epics: self.epics.insert(id, epic), ..self }, id))
        }
    }

    /// Creating a story under an epic: it is stored under the next
    /// identifier, which is appended to the epic's list and becomes the
    /// highest assigned. Refused when the epic is absent, and then when no
    /// identifier is left.
    pub open spec fn create_story(self, story: StoryView, epic_id: u32) -> Result<
        (DBStateView, u32),
        DbError,
    > {
        if !self.epics.contains_key(epic_id) {
            Err(DbError::EpicNotFound { epic_id: epic_id })
        } else if !self.has_free_id() {
            Err(DbError::IdsExhausted)
        } else {
            let id = self.next_id();
            Ok(
                (
                    DBStateView {
                        last_item_id: id,
                        epics: self.epics.insert(epic_id, self.epics[epic_id].with_story(id)),
                        stories: self.stories.insert(id, story),
                    },
                    id,
                ),
            )
        }
    }

    /// Deleting an epic: the epic leaves, and with it every story that its
    /// list names. Refused when the epic is absent.
    pub open spec fn delete_epic(self, epic_id: u32) -> Result<(DBStateView, ()), DbError> {
        if !self.epics.contains_key(epic_id) {
            Err(DbError::EpicNotFound { epic_id: epic_id })
        } else {
            Ok(
                (
                    DBStateView {
                        epics: self.epics.remove(epic_id),
                        stories: self.stories.remove_keys(self.epics[epic_id].stories.to_set()),
                        ..self
                    },
                    (),
                ),
            )
        }
    }

    /// Deleting a story of an epic: the story leaves the epic's list and the
    /// stories. Refused when the epic is absent, and then when the epic's
    /// list does not name the story, whether or not a story is stored under
    /// that identifier.
    pub open spec fn delete_story(self, epic_id: u32, story_id: u32) -> Result<
        (DBStateView, ()),
        DbError,
    > {
        if !self.epics.contains_key(epic_id) {
            Err(DbError::EpicNotFound { epic_id: epic_id })
        } else if !self.epics[epic_id].stories.contains(story_id) {
            Err(DbError::StoryNotLinked { epic_id: epic_id, story_id: story_id })
        } else {
            Ok(
                (
                    DBStateView {
                        epics: self.epics.insert(
                            epic_id,
                            self.epics[epic_id].without_story(story_id),
                        ),
                        stories: self.stories.remove(story_id),
                        ..self
                    },
                    (),
                ),
            )
        }
    }

    /// Setting the status of an epic, whatever it was before. Refused when
    /// the epic is absent.
    pub open spec fn update_epic_status(self, epic_id: u32, status: Status) -> Result<
        (DBStateView, ()),
        DbError,
    > {
        if !self.epics.contains_key(epic_id) {
            Err(DbError::EpicNotFound { epic_id: epic_id })
        } else {
            Ok(
                (
                    DBStateView {
                        epics: self.epics.insert(epic_id, self.epics[epic_id].with_status(status)),
                        ..self
                    },
                    (),
                ),
            )
        }
    }

    /// Setting the status of a story, whatever it was before. Refused when
    /// the story is absent.
    pub open spec fn update_story_status(self, story_id: u32, status: Status) -> Result<
        (DBStateView, ()),
        DbError,
    > {
        if !self.stories.contains_key(story_id) {
            Err(DbError::StoryNotFound { story_id: story_id })
        } else {
            Ok(
                (
                    DBStateView {
                        stories: self.stories.insert(
                            story_id,
                            self.stories[story_id].with_status(status),
                        ),
                        ..self
                    },
                    (),
                ),
            )
        }
    }
}

/// What a mutation leaves behind and returns, given what its rule says of
/// the state before: on `Ok` the new state and the value, on `Err` the
/// state as it was and the error.
pub open spec fn follows<T>(
    rule: Result<(DBStateView, T), DbError>,
    before: DBStateView,
    after: DBStateView,
    returned: Result<T, DbError>,
) -> bool {
    match rule {
        Ok((state, value)) => after == state && returned == Ok::<T, DbError>(value),
        Err(e) => after == before && returned == Err::<T, DbError>(e),
    }
}

impl DBState {
    /// Stores `epic` under the next identifier and returns that identifier.
    pub fn create_epic(&mut self, epic: Epic) -> (r: Result<u32, DbError>)
        ensures
            follows(old(self)@.create_epic(epic@), old(self)@, final(self)@, r),
            old(self)@.well_formed() && epic@.stories.len() == 0 ==> final(self)@.well_formed(),
    {
        proof {
            if old(self)@.well_formed() && epic@.stories.len() == 0 {
                lemma_create_epic_keeps_well_formed(old(self)@, epic@);
            }
        }
        if self.last_item_id == u32::MAX {
            return Err(DbError::IdsExhausted);
        }
        let id: u32 = self.last_item_id + 1;
        self.epics.insert(id, epic);
        self.last_item_id = id;
        assert(self@.epics =~= old(self)@.epics.insert(id, epic@));
        Ok(id)
    }

    /// Stores `story` under the next identifier, appends that identifier to
    /// the list of the epic `epic_id`, and returns it. The epic is looked up
    /// before anything changes.
    pub fn create_story(&mut self, story: Story, epic_id: u32) -> (r: Result<u32, DbError>)
        ensures
            follows(old(self)@.create_story(story@, epic_id), old(self)@, final(self)@, r),
            old(self)@.well_formed() ==> final(self)@.well_formed(),
    {
        proof {
            if old(self)@.well_formed() {
                lemma_create_story_keeps_well_formed(old(self)@, story@, epic_id);
            }
        }
        if !self.epics.contains_key(&epic_id) {
            return Err(DbError::EpicNotFound { epic_id: epic_id });
        }
        if self.last_item_id == u32::MAX {
            return Err(DbError::IdsExhausted);
        }
        let id: u32 = self.last_item_id + 1;
        let mut epic = self.epics.remove(&epic_id).unwrap();
        epic.stories.push(id);
        self.epics.insert(epic_id, epic);
        self.stories.insert(id, story);
        self.last_item_id = id;
        assert(self@.epics =~= old(self)@.epics.insert(
            epic_id,
            old(self)@.epics[epic_id].with_story(id),
        ));
        assert(self@.stories =~= old(self)@.stories.insert(id, story@));
        Ok(id)
    }

    /// Removes the epic `epic_id` together with every story that its list
    /// names, so that none of them is left without an epic.
    pub fn delete_epic(&mut self, epic_id: u32) -> (r: Result<(), DbError>)
        ensures
            follows(old(self)@.delete_epic(epic_id), old(self)@, final(self)@, r),
            old(self)@.well_formed() ==> final(self)@.well_formed(),
    {
        proof {
            if old(self)@.well_formed() {
                lemma_delete_epic_keeps_well_formed(old(self)@, epic_id);
            }
        }
        if !self.epics.contains_key(&epic_id) {
            return Err(DbError::EpicNotFound { epic_id: epic_id });
        }
        let epic = self.epics.remove(&epic_id).unwrap();
        let ghost stories_before = self.stories@;
        let mut i: usize = 0;
        while i < epic.stories.len()
            invariant
                i <= epic.stories.len(),
                self.last_item_id == old(self).last_item_id,
                self.epics@ == old(self).epics@.remove(epic_id),
                self.stories@ == stories_before.remove_keys(
                    epic.stories@.subrange(0, i as int).to_set(),
                ),
            decreases epic.stories.len() - i,
        {
            let story_id: u32 = epic.stories[i];
            self.stories.remove(&story_id);
            proof {
                let done = epic.stories@.subrange(0, i as int);
                assert(epic.stories@.subrange(0, i + 1) =~= done.push(story_id));
                done.lemma_push_to_set_commute(story_id);
            }
            i += 1;
        }
        assert(epic.stories@.subrange(0, i as int) =~= epic.stories@);
        assert(self@.epics =~= old(self)@.epics.remove(epic_id));
        assert(self@.stories =~= old(self)@.stories.remove_keys(
            old(self)@.epics[epic_id].stories.to_set(),
        ));
        Ok(())
    }

    /// Removes the story `story_id` from the list of the epic `epic_id` and
    /// from the stories. Both lookups come before anything changes.
    pub fn delete_story(&mut self, epic_id: u32, story_id: u32) -> (r: Result<(), DbError>)
        ensures
            follows(old(self)@.delete_story(epic_id, story_id), old(self)@, final(self)@, r),
            old(self)@.well_formed() ==> final(self)@.well_formed(),
    {
        proof {
            if old(self)@.well_formed() {
                lemma_delete_story_keeps_well_formed(old(self)@, epic_id, story_id);
            }
        }
        let found = match self.epics.get(&epic_id) {
            None => {
                return Err(DbError::EpicNotFound { epic_id: epic_id });
            },
            Some(epic) => position(&epic.stories, story_id),
        };
        let index = match found {
            None => {
                return Err(DbError::StoryNotLinked { epic_id: epic_id, story_id: story_id });
            },
            Some(index) => index,
        };
        let mut epic = self.epics.remove(&epic_id).unwrap();
        proof {
            epic.stories@.index_of_first_ensures(story_id);
        }
        epic.stories.remove(index);
        self.epics.insert(epic_id, epic);
        self.stories.remove(&story_id);
        assert(self@.epics =~= old(self)@.epics.insert(
            epic_id,
            old(self)@.epics[epic_id].without_story(story_id),
        ));
        assert(self@.stories =~= old(self)@.stories.remove(story_id));
        Ok(())
    }

    /// Overwrites the status of the epic `epic_id`.
    pub fn update_epic_status(&mut self, epic_id: u32, status: Status) -> (r: Result<
        (),
        DbError,
    >)
        ensures
            follows(
                old(self)@.update_epic_status(epic_id, status),
                old(self)@,
                final(self)@,
                r,
            ),
            old(self)@.well_formed() ==> final(self)@.well_formed(),
    {
        proof {
            if old(self)@.well_formed() {
                lemma_update_epic_status_keeps_well_formed(old(self)@, epic_id, status);
            }
        }
        if !self.epics.contains_key(&epic_id) {
            return Err(DbError::EpicNotFound { epic_id: epic_id });
        }
        let mut epic = self.epics.remove(&epic_id).unwrap();
        epic.status = status;
        self.epics.insert(epic_id, epic);
        assert(self@.epics =~= old(self)@.epics.insert(
            epic_id,
            old(self)@.epics[epic_id].with_status(status),
        ));
        Ok(())
    }

    /// Overwrites the status of the story `story_id`.
    pub fn update_story_status(&mut self, story_id: u32, status: Status) -> (r: Result<
        (),
        DbError,
    >)
        ensures
            follows(
                old(self)@.update_story_status(story_id, status),
                old(self)@,
                final(self)@,
                r,
            ),
            old(self)@.well_formed() ==> final(self)@.well_formed(),
    {
        proof {
            if old(self)@.well_formed() {
                lemma_update_story_status_keeps_well_formed(old(self)@, story_id, status);
            }
        }
        if !self.stories.contains_key(&story_id) {
            return Err(DbError::StoryNotFound { story_id: story_id });
        }
        let mut story = self.stories.remove(&story_id).unwrap();
        story.status = status;
        self.stories.insert(story_id, story);
        assert(self@.stories =~= old(self)@.stories.insert(
            story_id,
            old(self)@.stories[story_id].with_status(status),
        ));
        Ok(())
    }
}

/// The index at which `id` first occurs in `list`, if it occurs.
pub fn position(list: &Vec<u32>, id: u32) -> (found: Option<usize>)
    ensures
        match found {
            Some(index) => list@.index_of_first(id) == Some(index as int),
            None => !list@.contains(id),
        },
{
    let mut i: usize = 0;
    while i < list.len()
        invariant
            i <= list.len(),
            forall|j: int| 0 <= j < i ==> list@[j] != id,
        decreases list.len() - i,
    {
        if list[i] == id {
            proof {
                list@.index_of_first_ensures(id);
            }
            return Some(i);
        }
        i += 1;
    }
    None
}

} // verus!
