//! The per-page message types. Each page has its own sum type; the top
//! level combines them only for routing, so a result message always carries
//! the identity of the page it belongs to.

use vstd::prelude::*;

use crate::config::SavedCharactersConfig;
use crate::entities::{DisplayError, Project, ProjectJoin};

verus! {

/// Messages of the character-generator page. `CharactersLoaded` is the
/// completion of a settings-store read scheduled by `LoadData`.
pub enum OCPageMessage {
    LoadData,
    GenerateButtonClicked,
    SaveButtonClicked,
    DeleteCharacter(usize),
    CharactersLoaded(SavedCharactersConfig),
}

/// Messages of the project-manager page. The `*ed` variants are completions
/// of storage operations, already converted to display form.
pub enum ProjectManagerPageMessage {
    LoadData,
    DataLoaded(Result<Vec<ProjectJoin>, DisplayError>),
    ToggleCreateProject,
    CreateProject(String, Option<String>),
    DeleteProject(i64),
    ProjectCreated(Result<Project, DisplayError>),
    ProjectDeleted(Result<i64, DisplayError>),
    CloseToast(u64),
}

/// The load state of a page's data, checked by the dispatch loop before it
/// issues a load, so that no duplicate load is in flight.
#[derive(Clone, Copy, Debug, PartialEq, Eq, Structural)]
pub enum LoadStatus {
    NotLoaded,
    Loading,
    Loaded,
    Failed,
}

} // verus!
