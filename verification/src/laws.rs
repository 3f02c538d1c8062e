//! What holds of the rules of [`crate::rules`] and of the transactions of
//! [`crate::db`], for every state and every storage backend.

use crate::db::{loads, persists, transacted, Database};
use crate::error::DbError;
use crate::models::{DBState, DBStateView, EpicView, Status, StoryView};
use vstd::prelude::*;

verus! {

/// The state in which nothing was created yet is well formed.
pub proof fn lemma_empty_is_well_formed()
    ensures
        DBStateView::empty().well_formed(),
{
}

/// Creating an epic that lists no story keeps a state well formed.
pub proof fn lemma_create_epic_keeps_well_formed(state: DBStateView, epic: EpicView)
    requires
        state.well_formed(),
        epic.stories.len() == 0,
    ensures
        state.create_epic(epic) matches Ok((next, _)) ==> next.well_formed(),
{
    if let Ok((next, id)) = state.create_epic(epic) {
        assert forall|story_id: u32| #[trigger] next.stories.contains_key(story_id) implies exists|
            epic_id: u32,
        | #[trigger] next.lists(epic_id, story_id) by {
            let owner = choose|epic_id: u32| #[trigger] state.lists(epic_id, story_id);
            assert(next.lists(owner, story_id));
        }
    }
}

/// Creating a story under an epic keeps a state well formed.
pub proof fn lemma_create_story_keeps_well_formed(
    state: DBStateView,
    story: StoryView,
    epic_id: u32,
)
    requires
        state.well_formed(),
    ensures
        state.create_story(story, epic_id) matches Ok((next, _)) ==> next.well_formed(),
{
    if let Ok((next, id)) = state.create_story(story, epic_id) {
        let before = state.epics[epic_id].stories;
        let after = next.epics[epic_id].stories;
        assert(after[before.len() as int] == id);
        assert forall|story_id: u32| #[trigger] next.stories.contains_key(story_id) implies exists|
            owner: u32,
        | #[trigger] next.lists(owner, story_id) by {
            if story_id == id {
                assert(next.lists(epic_id, story_id));
            } else {
                let owner = choose|owner: u32| #[trigger] state.lists(owner, story_id);
                let i = choose|i: int|
                    0 <= i < state.epics[owner].stories.len() && state.epics[owner].stories[i]
                        == story_id;
                assert(next.epics[owner].stories[i] == story_id);
                assert(next.lists(owner, story_id));
            }
        }
    }
}

/// Deleting an epic keeps a state well formed: the stories that leave are
/// exactly those that only the deleted epic listed.
pub proof fn lemma_delete_epic_keeps_well_formed(state: DBStateView, epic_id: u32)
    requires
        state.well_formed(),
    ensures
        state.delete_epic(epic_id) matches Ok((next, _)) ==> next.well_formed(),
{
    if let Ok((next, _)) = state.delete_epic(epic_id) {
        let gone = state.epics[epic_id].stories;
        assert forall|story_id: u32| #[trigger] next.stories.contains_key(story_id) implies exists|
            owner: u32,
        | #[trigger] next.lists(owner, story_id) by {
            let owner = choose|owner: u32| #[trigger] state.lists(owner, story_id);
            if owner == epic_id {
                assert(gone.to_set().contains(story_id));
            }
            assert(next.lists(owner, story_id));
        }
    }
}

/// Deleting a story of an epic keeps a state well formed: no list names
/// the story afterwards.
pub proof fn lemma_delete_story_keeps_well_formed(state: DBStateView, epic_id: u32, story_id: u32)
    requires
        state.well_formed(),
    ensures
        state.delete_story(epic_id, story_id) matches Ok((next, _)) ==> next.well_formed(),
{
    if let Ok((next, _)) = state.delete_story(epic_id, story_id) {
        let before = state.epics[epic_id].stories;
        let after = next.epics[epic_id].stories;
        before.index_of_first_ensures(story_id);
        let at = before.index_of_first(story_id).unwrap();
        assert forall|id: u32| #[trigger] next.stories.contains_key(id) implies exists|
            owner: u32,
        | #[trigger] next.lists(owner, id) by {
            let owner = choose|owner: u32| #[trigger] state.lists(owner, id);
            let i = choose|i: int|
                0 <= i < state.epics[owner].stories.len() && state.epics[owner].stories[i] == id;
            if owner == epic_id {
                let k = if i < at {
                    i
                } else {
                    i - 1
                };
                assert(after[k] == before[i]);
            } else {
                assert(next.epics[owner].stories[i] == id);
            }
            assert(next.lists(owner, id));
        }
    }
}

/// Setting the status of an epic keeps a state well formed.
pub proof fn lemma_update_epic_status_keeps_well_formed(
    state: DBStateView,
    epic_id: u32,
    status: Status,
)
    requires
        state.well_formed(),
    ensures
        state.update_epic_status(epic_id, status) matches Ok((next, _)) ==> next.well_formed(),
{
    if let Ok((next, _)) = state.update_epic_status(epic_id, status) {
        assert forall|id: u32| #[trigger] next.stories.contains_key(id) implies exists|
            owner: u32,
        | #[trigger] next.lists(owner, id) by {
            let owner = choose|owner: u32| #[trigger] state.lists(owner, id);
            assert(next.lists(owner, id));
        }
    }
}

/// Setting the status of a story keeps a state well formed.
pub proof fn lemma_update_story_status_keeps_well_formed(
    state: DBStateView,
    story_id: u32,
    status: Status,
)
    requires
        state.well_formed(),
    ensures
        state.update_story_status(story_id, status) matches Ok((next, _)) ==> next.well_formed(),
{
    if let Ok((next, _)) = state.update_story_status(story_id, status) {
        assert forall|id: u32| #[trigger] next.stories.contains_key(id) implies exists|
            owner: u32,
        | #[trigger] next.lists(owner, id) by {
            let owner = choose|owner: u32| #[trigger] state.lists(owner, id);
            assert(next.lists(owner, id));
        }
    }
}

/// No rule lowers the counter: a creation raises it by one, to the
/// identifier that it assigns, and every other rule leaves it as it is.
pub proof fn lemma_counter_never_decreases(
    state: DBStateView,
    epic: EpicView,
    story: StoryView,
    epic_id: u32,
    story_id: u32,
    status: Status,
)
    ensures
        state.create_epic(epic) matches Ok((next, id)) ==> id == state.last_item_id + 1
            && next.last_item_id == id,
        state.create_story(story, epic_id) matches Ok((next, id)) ==> id == state.last_item_id + 1
            && next.last_item_id == id,
        state.delete_epic(epic_id) matches Ok((next, _)) ==> next.last_item_id
            == state.last_item_id,
        state.delete_story(epic_id, story_id) matches Ok((next, _)) ==> next.last_item_id
            == state.last_item_id,
        state.update_epic_status(epic_id, status) matches Ok((next, _)) ==> next.last_item_id
            == state.last_item_id,
        state.update_story_status(story_id, status) matches Ok((next, _)) ==> next.last_item_id
            == state.last_item_id,
{
}

/// An identifier is assigned once: where the counter is at least every
/// key, as it is after any run of rules from a well-formed state, the
/// identifier that a creation assigns is the key of nothing yet, whatever
/// was deleted before.
pub proof fn lemma_created_id_is_fresh(
    state: DBStateView,
    epic: EpicView,
    story: StoryView,
    epic_id: u32,
)
    requires
        state.counter_covers_keys(),
    ensures
        state.create_epic(epic) matches Ok((_, id)) ==> !state.epics.contains_key(id)
            && !state.stories.contains_key(id),
        state.create_story(story, epic_id) matches Ok((_, id)) ==> !state.epics.contains_key(id)
            && !state.stories.contains_key(id),
{
}

/// Setting the status of an epic a second time changes nothing.
pub proof fn lemma_update_epic_status_is_idempotent(
    state: DBStateView,
    epic_id: u32,
    status: Status,
)
    ensures
        state.update_epic_status(epic_id, status) matches Ok((next, _))
            ==> next.update_epic_status(epic_id, status) == Ok::<(DBStateView, ()), DbError>(
            (next, ()),
        ),
{
    if let Ok((next, _)) = state.update_epic_status(epic_id, status) {
        assert(next.epics.insert(epic_id, next.epics[epic_id].with_status(status)) =~= next.epics);
    }
}

/// Setting the status of a story a second time changes nothing.
pub proof fn lemma_update_story_status_is_idempotent(
    state: DBStateView,
    story_id: u32,
    status: Status,
)
    ensures
        state.update_story_status(story_id, status) matches Ok((next, _))
            ==> next.update_story_status(story_id, status) == Ok::<(DBStateView, ()), DbError>(
            (next, ()),
        ),
{
    if let Ok((next, _)) = state.update_story_status(story_id, status) {
        assert(next.stories.insert(story_id, next.stories[story_id].with_status(status))
            =~= next.stories);
    }
}

/// After an epic was created, a load returns it under the identifier that
/// the creation returned, and that identifier is the highest assigned.
pub proof fn lemma_created_epic_is_read_back<D: Database>(
    before: D,
    epic: EpicView,
    after: D,
    id: u32,
    read: DBState,
)
    requires
        transacted(
            before,
            |state: DBStateView| state.create_epic(epic),
            after,
            Ok::<u32, DbError>(id),
        ),
        loads(after, Ok::<DBState, DbError>(read)),
    ensures
        read@.epics.contains_key(id),
        read@.epics[id] == epic,
        read@.last_item_id == id,
{
}

/// Creating a story under an epic that the stored state does not hold
/// fails and leaves the storage as it was. The failure is that the epic was
/// not found, unless the storage is unreliable and failed to load.
pub proof fn lemma_create_story_without_epic_changes_nothing<D: Database>(
    before: D,
    state: DBStateView,
    story: StoryView,
    epic_id: u32,
    after: D,
    returned: Result<u32, DbError>,
)
    requires
        before.stored() == Some(state),
        !state.epics.contains_key(epic_id),
        transacted(
            before,
            |state: DBStateView| state.create_story(story, epic_id),
            after,
            returned,
        ),
    ensures
        after == before,
        returned matches Err(e) && (e == (DbError::EpicNotFound { epic_id: epic_id }) || (
        !before.reliable() && e.is_storage_failure())),
{
}

/// After an epic was deleted, the stored state holds neither the epic nor
/// any story that its list named; and if the state was well formed, it
/// still is, so that no list names a story that is gone.
pub proof fn lemma_delete_epic_cascades<D: Database>(
    before: D,
    state: DBStateView,
    epic_id: u32,
    after: D,
)
    requires
        before.stored() == Some(state),
        transacted(
            before,
            |state: DBStateView| state.delete_epic(epic_id),
            after,
            Ok::<(), DbError>(()),
        ),
    ensures
        state.epics.contains_key(epic_id),
        after.stored() matches Some(next) && {
            &&& !next.epics.contains_key(epic_id)
            &&& forall|story_id: u32| #[trigger]
                state.epics[epic_id].stories.contains(story_id) ==> !next.stories.contains_key(
                    story_id,
                )
            &&& forall|id: u32|
                id != epic_id && state.epics.contains_key(id) ==> #[trigger] next.epics.contains_key(
                    id,
                ) && next.epics[id] == state.epics[id]
            &&& state.well_formed() ==> next.well_formed()
        },
{
    if state.well_formed() {
        lemma_delete_epic_keeps_well_formed(state, epic_id);
    }
}

/// Deleting a story that the epic does not list fails and leaves the
/// storage as it was, whether or not a story is stored under that
/// identifier. The failure is that the story is not linked to the epic,
/// unless the storage is unreliable and failed to load.
pub proof fn lemma_delete_story_not_listed_changes_nothing<D: Database>(
    before: D,
    state: DBStateView,
    epic_id: u32,
    story_id: u32,
    after: D,
    returned: Result<(), DbError>,
)
    requires
        before.stored() == Some(state),
        state.epics.contains_key(epic_id),
        !state.epics[epic_id].stories.contains(story_id),
        transacted(
            before,
            |state: DBStateView| state.delete_story(epic_id, story_id),
            after,
            returned,
        ),
    ensures
        after == before,
        returned matches Err(e) && (e == (DbError::StoryNotLinked {
            epic_id: epic_id,
            story_id: story_id,
        }) || (!before.reliable() && e.is_storage_failure())),
{
}

/// Setting the status of an epic twice leaves the storage holding what it
/// held after the first time.
pub proof fn lemma_update_epic_status_twice<D: Database>(
    before: D,
    epic_id: u32,
    status: Status,
    once: D,
    twice: D,
)
    requires
        transacted(
            before,
            |state: DBStateView| state.update_epic_status(epic_id, status),
            once,
            Ok::<(), DbError>(()),
        ),
        transacted(
            once,
            |state: DBStateView| state.update_epic_status(epic_id, status),
            twice,
            Ok::<(), DbError>(()),
        ),
    ensures
        twice.stored() == once.stored(),
{
    lemma_update_epic_status_is_idempotent(before.stored().unwrap(), epic_id, status);
}

/// Setting the status of a story twice leaves the storage holding what it
/// held after the first time.
pub proof fn lemma_update_story_status_twice<D: Database>(
    before: D,
    story_id: u32,
    status: Status,
    once: D,
    twice: D,
)
    requires
        transacted(
            before,
            |state: DBStateView| state.update_story_status(story_id, status),
            once,
            Ok::<(), DbError>(()),
        ),
        transacted(
            once,
            |state: DBStateView| state.update_story_status(story_id, status),
            twice,
            Ok::<(), DbError>(()),
        ),
    ensures
        twice.stored() == once.stored(),
{
    lemma_update_story_status_is_idempotent(before.stored().unwrap(), story_id, status);
}

/// Persisting what was loaded changes nothing: the storage holds the same
/// state as before, and a load after it returns the state that the first
/// load returned.
pub proof fn lemma_persist_of_load_round_trips<D: Database>(
    before: D,
    loaded: DBState,
    after: D,
    reloaded: DBState,
)
    requires
        loads(before, Ok::<DBState, DbError>(loaded)),
        persists(before, loaded@, after, Ok::<(), DbError>(())),
        loads(after, Ok::<DBState, DbError>(reloaded)),
    ensures
        after.stored() == before.stored(),
        reloaded@ == loaded@,
{
}

} // verus!
