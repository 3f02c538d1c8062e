//! The entities of the tracker and the state that is persisted, each with
//! the mathematical value that contracts speak of.

use std::collections::HashMap;
use vstd::prelude::*;

verus! {

/// The lifecycle state of an epic or a story. Any status may follow any
/// other.
#[derive(Clone, Copy, Debug, PartialEq, Eq, Structural)]
pub enum Status {
    Open,
    InProgress,
    Resolved,
    Closed,
}

/// A leaf work item. Its identifier is the key under which the state
/// holds it.
#[derive(Debug, PartialEq)]
pub struct Story {
    pub name: String,
    pub description: String,
    pub status: Status,
}

/// A container work item. It refers to its stories by identifier, in the
/// order in which they were added; the state owns the stories themselves.
#[derive(Debug, PartialEq)]
pub struct Epic {
    pub name: String,
    pub description: String,
    pub status: Status,
    pub stories: Vec<u32>,
}

/// Everything that is persisted: the two mappings and the counter from
/// which identifiers are drawn.
#[derive(Debug, PartialEq)]
pub struct DBState {
    /// The highest identifier ever assigned.
    pub last_item_id: u32,
    pub epics: HashMap<u32, Epic>,
    pub stories: HashMap<u32, Story>,
}

/// The value of a [`Story`].
pub struct StoryView {
    pub name: Seq<char>,
    pub description: Seq<char>,
    pub status: Status,
}

/// The value of an [`Epic`].
pub struct EpicView {
    pub name: Seq<char>,
    pub description: Seq<char>,
    pub status: Status,
    pub stories: Seq<u32>,
}

/// The value of a [`DBState`].
pub struct DBStateView {
    pub last_item_id: u32,
    pub epics: Map<u32, EpicView>,
    pub stories: Map<u32, StoryView>,
}

impl View for Story {
    type V = StoryView;

    open spec fn view(&self) -> StoryView {
        StoryView { name: self.name@, description: self.description@, status: self.status }
    }
}

impl View for Epic {
    type V = EpicView;

    open spec fn view(&self) -> EpicView {
        EpicView {
            name: self.name@,
            description: self.description@,
            status: self.status,
            stories: self.stories@,
        }
    }
}

impl View for DBState {
    type V = DBStateView;

    open spec fn view(&self) -> DBStateView {
        DBStateView {
            last_item_id: self.last_item_id,
            epics: self.epics@.map_values(|epic: Epic| epic@),
            stories: self.stories@.map_values(|story: Story| story@),
        }
    }
}

impl Story {
    /// A story that is open.
    pub fn new(name: String, description: String) -> (story: Self)
        ensures
            story@ == (StoryView {
                name: name@,
                description: description@,
                status: Status::Open,
            }),
    {
        Story { name: name, description: description, status: Status::Open }
    }
}

impl Epic {
    /// An epic that is open and has no stories yet.
    pub fn new(name: String, description: String) -> (epic: Self)
        ensures
            epic@ == (EpicView {
                name: name@,
                description: description@,
                status: Status::Open,
                stories: Seq::empty(),
            }),
    {
        Epic { name: name, description: description, status: Status::Open, stories: Vec::new() }
    }
}

impl DBStateView {
    /// The state before anything was created.
    pub open spec fn empty() -> DBStateView {
        DBStateView { last_item_id: 0, epics: Map::empty(), stories: Map::empty() }
    }

    /// Whether the epic `epic_id` is present and lists the story `story_id`.
    pub open spec fn lists(self, epic_id: u32, story_id: u32) -> bool {
        self.epics.contains_key(epic_id) && self.epics[epic_id].stories.contains(story_id)
    }

    /// Every identifier in an epic's list is the key of a story.
    pub open spec fn references_resolve(self) -> bool {
        forall|epic_id: u32, i: int|
            self.epics.contains_key(epic_id) && 0 <= i < self.epics[epic_id].stories.len()
                ==> self.stories.contains_key(#[trigger] self.epics[epic_id].stories[i])
    }

    /// The counter is at least every key of an epic or a story.
    pub open spec fn counter_covers_keys(self) -> bool {
        &&& forall|id: u32| #[trigger] self.epics.contains_key(id) ==> id <= self.last_item_id
        &&& forall|id: u32| #[trigger] self.stories.contains_key(id) ==> id <= self.last_item_id
    }

    /// An identifier is listed at one place only: by one epic, once.
    pub open spec fn listed_once(self) -> bool {
        forall|epic_id: u32, i: int, other_id: u32, j: int|
            self.epics.contains_key(epic_id) && 0 <= i < self.epics[epic_id].stories.len()
                && self.epics.contains_key(other_id) && 0 <= j < self.epics[other_id].stories.len()
                && #[trigger] self.epics[epic_id].stories[i]
                == #[trigger] self.epics[other_id].stories[j] ==> epic_id == other_id && i == j
    }

    /// Every story is listed by an epic.
    pub open spec fn stories_have_epic(self) -> bool {
        forall|story_id: u32| #[trigger]
            self.stories.contains_key(story_id) ==> exists|epic_id: u32| #[trigger]
                self.lists(epic_id, story_id)
    }

    /// No identifier is the key of both an epic and a story.
    pub open spec fn keys_apart(self) -> bool {
        forall|id: u32| !(#[trigger] self.epics.contains_key(id) && self.stories.contains_key(id))
    }

    /// The invariant of a persisted state: the lists of the epics refer to
    /// stories that exist, every story belongs to exactly one epic, which
    /// lists it once, the counter is at least every key, and epics and
    /// stories share no key.
    pub open spec fn well_formed(self) -> bool {
        &&& self.references_resolve()
        &&& self.counter_covers_keys()
        &&& self.listed_once()
        &&& self.stories_have_epic()
        &&& self.keys_apart()
    }
}

impl DBState {
    /// The state before anything was created: no epic, no story, and no
    /// identifier assigned.
    pub fn new() -> (state: Self)
        ensures
            state@ == DBStateView::empty(),
            state@.well_formed(),
    {
        let state = DBState { last_item_id: 0, epics: HashMap::new(), stories: HashMap::new() };
        assert(state@.epics =~= Map::empty());
        assert(state@.stories =~= Map::empty());
        state
    }
}

impl Clone for Story {
    /// A story of its own with the same value.
    fn clone(&self) -> (copy: Self)
        ensures
            copy@ == self@,
    {
        Story {
            name: self.name.clone(),
            description: self.description.clone(),
            status: self.status,
        }
    }
}

impl Clone for Epic {
    /// An epic of its own with the same value.
    fn clone(&self) -> (copy: Self)
        ensures
            copy@ == self@,
    {
        Epic {
            name: self.name.clone(),
            description: self.description.clone(),
            status: self.status,
            stories: self.stories.clone(),
        }
    }
}

impl Clone for DBState {
    /// A state of its own with the same value.
    fn clone(&self) -> (copy: Self)
        ensures
            copy@ == self@,
    {
        DBState {
            last_item_id: self.last_item_id,
            epics: self.epics.clone(),
            stories: self.stories.clone(),
        }
    }
}

} // verus!
