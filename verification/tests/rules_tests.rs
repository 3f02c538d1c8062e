use jira_db::db::{Database, JiraHandle, MemoryDatabase};
use jira_db::error::DbError;
use jira_db::models::{DBState, Epic, Status, Story};
use jira_db::rules::position;

fn epic(name: &str) -> Epic {
    Epic::new(name.to_owned(), "".to_owned())
}

fn story(name: &str) -> Story {
    Story::new(name.to_owned(), "".to_owned())
}

#[test]
fn new_epic_is_open_and_has_no_stories() {
    let e = Epic::new("Epic A".to_owned(), "about A".to_owned());
    assert_eq!(e.name, "Epic A");
    assert_eq!(e.description, "about A");
    assert_eq!(e.status, Status::Open);
    assert_eq!(e.stories, Vec::<u32>::new());
}

#[test]
fn new_story_is_open() {
    let s = Story::new("Story A".to_owned(), "about A".to_owned());
    assert_eq!(s.name, "Story A");
    assert_eq!(s.description, "about A");
    assert_eq!(s.status, Status::Open);
}

#[test]
fn clones_are_equal_and_independent() {
    let mut e = epic("e");
    e.stories.push(4);
    let mut copy = e.clone();
    assert_eq!(copy, e);
    copy.stories.push(5);
    copy.status = Status::Closed;
    assert_eq!(e.stories, vec![4]);
    assert_eq!(e.status, Status::Open);

    let s = story("s");
    assert_eq!(s.clone(), s);

    let mut state = DBState::new();
    state.create_epic(e.clone()).unwrap();
    let copy = state.clone();
    assert_eq!(copy, state);
    state.delete_epic(1).unwrap();
    assert_eq!(copy.epics.get(&1), Some(&e));
}

#[test]
fn position_is_the_first_occurrence() {
    assert_eq!(position(&vec![], 3), None);
    assert_eq!(position(&vec![3], 3), Some(0));
    assert_eq!(position(&vec![1, 2, 3], 3), Some(2));
    assert_eq!(position(&vec![1, 3, 2, 3], 3), Some(1));
    assert_eq!(position(&vec![1, 2, 4], 3), None);
}

#[test]
fn scenario_create_and_delete() {
    let mut handle = JiraHandle::new(MemoryDatabase::new());

    assert_eq!(handle.create_epic(epic("Epic A")), Ok(1));
    let state = handle.read_full_record().unwrap();
    assert_eq!(state.last_item_id, 1);
    assert_eq!(state.epics.get(&1), Some(&epic("Epic A")));

    assert_eq!(handle.create_story(story("S1"), 1), Ok(2));
    let state = handle.read_full_record().unwrap();
    assert_eq!(state.epics.get(&1).unwrap().stories, vec![2]);
    assert_eq!(state.stories.get(&2), Some(&story("S1")));
    assert_eq!(state.last_item_id, 2);

    assert_eq!(handle.delete_story(1, 2), Ok(()));
    let state = handle.read_full_record().unwrap();
    assert_eq!(state.epics.get(&1).unwrap().stories, Vec::<u32>::new());
    assert!(!state.stories.contains_key(&2));
    assert_eq!(state.last_item_id, 2);

    assert_eq!(handle.delete_epic(1), Ok(()));
    let state = handle.read_full_record().unwrap();
    assert!(!state.epics.contains_key(&1));
    assert_eq!(state.last_item_id, 2);
}

#[test]
fn scenario_create_story_on_empty_state() {
    let mut handle = JiraHandle::new(MemoryDatabase::new());
    let res = handle.create_story(story("s"), 999);
    assert_eq!(res, Err(DbError::EpicNotFound { epic_id: 999 }));
    let state = handle.read_full_record().unwrap();
    assert_eq!(state.last_item_id, 0);
    assert_eq!(state, DBState::new());
}

#[test]
fn created_epic_is_read_back_as_given() {
    let mut handle = JiraHandle::new(MemoryDatabase::new());
    let mut given = Epic::new("named".to_owned(), "described".to_owned());
    given.status = Status::InProgress;
    for expected in 1..=3u32 {
        let id = handle.create_epic(given.clone()).unwrap();
        assert_eq!(id, expected);
        let state = handle.read_full_record().unwrap();
        assert_eq!(state.epics.get(&id), Some(&given));
        assert_eq!(state.last_item_id, id);
    }
}

#[test]
fn stories_are_listed_in_the_order_of_creation() {
    let mut state = DBState::new();
    assert_eq!(state.create_epic(epic("a")), Ok(1));
    assert_eq!(state.create_epic(epic("b")), Ok(2));
    assert_eq!(state.create_story(story("x"), 1), Ok(3));
    assert_eq!(state.create_story(story("y"), 2), Ok(4));
    assert_eq!(state.create_story(story("z"), 1), Ok(5));
    assert_eq!(state.epics.get(&1).unwrap().stories, vec![3, 5]);
    assert_eq!(state.epics.get(&2).unwrap().stories, vec![4]);
    assert_eq!(state.stories.len(), 3);
    assert_eq!(state.last_item_id, 5);
}

#[test]
fn delete_epic_takes_its_stories_and_no_others() {
    let mut handle = JiraHandle::new(MemoryDatabase::new());
    handle.create_epic(epic("a")).unwrap();
    handle.create_epic(epic("b")).unwrap();
    handle.create_story(story("x"), 1).unwrap();
    handle.create_story(story("y"), 2).unwrap();
    handle.create_story(story("z"), 1).unwrap();
    assert_eq!(handle.delete_epic(1), Ok(()));
    let state = handle.read_full_record().unwrap();
    assert!(!state.epics.contains_key(&1));
    assert!(!state.stories.contains_key(&3));
    assert!(!state.stories.contains_key(&5));
    assert_eq!(state.stories.get(&4), Some(&story("y")));
    assert_eq!(state.epics.get(&2).unwrap().stories, vec![4]);
    for listed in state.epics.values().flat_map(|e| e.stories.iter()) {
        assert!(state.stories.contains_key(listed));
    }
    assert_eq!(state.last_item_id, 5);
}

#[test]
fn delete_story_needs_the_epic_that_lists_it() {
    let mut handle = JiraHandle::new(MemoryDatabase::new());
    handle.create_epic(epic("a")).unwrap();
    handle.create_epic(epic("b")).unwrap();
    handle.create_story(story("x"), 1).unwrap();
    let before = handle.read_full_record().unwrap();
    // story 3 exists, but under epic 1
    assert_eq!(
        handle.delete_story(2, 3),
        Err(DbError::StoryNotLinked { epic_id: 2, story_id: 3 })
    );
    assert_eq!(handle.read_full_record().unwrap(), before);
    assert_eq!(handle.delete_story(1, 3), Ok(()));
    assert!(!handle.read_full_record().unwrap().stories.contains_key(&3));
}

#[test]
fn delete_story_removes_the_first_occurrence_only() {
    let mut state = DBState::new();
    let mut e = epic("a");
    e.stories = vec![7, 8, 7];
    state.epics.insert(1, e);
    state.stories.insert(7, story("x"));
    state.stories.insert(8, story("y"));
    state.last_item_id = 8;
    assert_eq!(state.delete_story(1, 7), Ok(()));
    assert_eq!(state.epics.get(&1).unwrap().stories, vec![8, 7]);
    assert!(!state.stories.contains_key(&7));
    assert!(state.stories.contains_key(&8));
}

#[test]
fn update_status_is_idempotent() {
    let mut handle = JiraHandle::new(MemoryDatabase::new());
    handle.create_epic(epic("a")).unwrap();
    handle.create_story(story("x"), 1).unwrap();

    assert_eq!(handle.update_epic_status(1, Status::Resolved), Ok(()));
    let once = handle.read_full_record().unwrap();
    assert_eq!(handle.update_epic_status(1, Status::Resolved), Ok(()));
    assert_eq!(handle.read_full_record().unwrap(), once);
    assert_eq!(once.epics.get(&1).unwrap().status, Status::Resolved);
    assert_eq!(once.epics.get(&1).unwrap().stories, vec![2]);

    assert_eq!(handle.update_story_status(2, Status::InProgress), Ok(()));
    let once = handle.read_full_record().unwrap();
    assert_eq!(handle.update_story_status(2, Status::InProgress), Ok(()));
    assert_eq!(handle.read_full_record().unwrap(), once);
    assert_eq!(once.stories.get(&2).unwrap().status, Status::InProgress);
}

#[test]
fn any_status_may_follow_any_other() {
    let mut state = DBState::new();
    state.create_epic(epic("a")).unwrap();
    for status in [Status::Closed, Status::Open, Status::Resolved, Status::InProgress, Status::Open] {
        assert_eq!(state.update_epic_status(1, status), Ok(()));
        assert_eq!(state.epics.get(&1).unwrap().status, status);
    }
}

#[test]
fn update_story_status_should_error_if_invalid_story_id() {
    let mut handle = JiraHandle::new(MemoryDatabase::new());
    handle.create_epic(epic("a")).unwrap();
    // 1 is an epic, not a story
    assert_eq!(
        handle.update_story_status(1, Status::Closed),
        Err(DbError::StoryNotFound { story_id: 1 })
    );
}

#[test]
fn identifiers_are_not_reused_after_deletion() {
    let mut handle = JiraHandle::new(MemoryDatabase::new());
    assert_eq!(handle.create_epic(epic("a")), Ok(1));
    assert_eq!(handle.create_story(story("x"), 1), Ok(2));
    assert_eq!(handle.delete_epic(1), Ok(()));
    assert_eq!(handle.read_full_record().unwrap().last_item_id, 2);
    assert_eq!(handle.create_epic(epic("b")), Ok(3));
    assert_eq!(handle.create_story(story("y"), 3), Ok(4));
    let state = handle.database.read_db().unwrap();
    assert_eq!(state.last_item_id, 4);
    assert_eq!(state.epics.len(), 1);
    assert_eq!(state.stories.len(), 1);
}

#[test]
fn refused_rule_leaves_the_state_as_it_was() {
    let mut state = DBState::new();
    state.create_epic(epic("a")).unwrap();
    state.create_story(story("x"), 1).unwrap();
    let before = state.clone();
    assert_eq!(state.create_story(story("y"), 9), Err(DbError::EpicNotFound { epic_id: 9 }));
    assert_eq!(state.delete_epic(9), Err(DbError::EpicNotFound { epic_id: 9 }));
    assert_eq!(state.delete_story(9, 2), Err(DbError::EpicNotFound { epic_id: 9 }));
    assert_eq!(
        state.delete_story(1, 9),
        Err(DbError::StoryNotLinked { epic_id: 1, story_id: 9 })
    );
    assert_eq!(state.update_epic_status(9, Status::Closed), Err(DbError::EpicNotFound { epic_id: 9 }));
    assert_eq!(
        state.update_story_status(9, Status::Closed),
        Err(DbError::StoryNotFound { story_id: 9 })
    );
    assert_eq!(state, before);
    state.last_item_id = u32::MAX;
    let before = state.clone();
    assert_eq!(state.create_epic(epic("b")), Err(DbError::IdsExhausted));
    assert_eq!(state.create_story(story("y"), 1), Err(DbError::IdsExhausted));
    assert_eq!(state, before);
}
