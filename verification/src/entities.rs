//! The domain entities served by the project store, their mathematical
//! views, and the storage error taxonomy.

use vstd::prelude::*;

verus! {

/// Mathematical view of a stored project.
pub struct ProjectV {
    pub id: int,
    pub name: Seq<char>,
    pub description: Option<Seq<char>>,
    pub created_at: int,
}

/// Mathematical view of a tag.
pub struct TagV {
    pub id: int,
    pub name: Seq<char>,
    pub color: Option<Seq<char>>,
}

/// Mathematical view of a project-tag association row.
pub struct ProjectTagV {
    pub id: int,
    pub project_id: int,
    pub tag_id: int,
}

/// Mathematical view of a feature row.
pub struct FeatureV {
    pub id: int,
    pub project_id: int,
    pub description: Seq<char>,
    pub completed: bool,
    pub created_at: int,
}

/// A project record as the store returns it. The id and creation time are
/// assigned by the store, never by callers.
pub struct Project {
    pub id: i64,
    pub name: String,
    pub description: Option<String>,
    pub created_at: i64,
}

/// A tag for categorising projects; the display name is unique.
pub struct Tag {
    pub id: i64,
    pub name: String,
    pub color: Option<String>,
}

/// A project-tag association row (many-to-many join).
pub struct ProjectTag {
    pub id: i64,
    pub project_id: i64,
    pub tag_id: i64,
}

/// A feature belonging to one project.
pub struct Feature {
    pub id: i64,
    pub project_id: i64,
    pub description: String,
    pub completed: bool,
    pub created_at: i64,
}

impl View for Project {
    type V = ProjectV;

    open spec fn view(&self) -> ProjectV {
        ProjectV {
            id: self.id as int,
            name: self.name@,
            description: self.description.deep_view(),
            created_at: self.created_at as int,
        }
    }
}

impl View for Tag {
    type V = TagV;

    open spec fn view(&self) -> TagV {
        TagV { id: self.id as int, name: self.name@, color: self.color.deep_view() }
    }
}

impl View for ProjectTag {
    type V = ProjectTagV;

    open spec fn view(&self) -> ProjectTagV {
        ProjectTagV {
            id: self.id as int,
            project_id: self.project_id as int,
            tag_id: self.tag_id as int,
        }
    }
}

impl View for Feature {
    type V = FeatureV;

    open spec fn view(&self) -> FeatureV {
        FeatureV {
            id: self.id as int,
            project_id: self.project_id as int,
            description: self.description@,
            completed: self.completed,
            created_at: self.created_at as int,
        }
    }
}

impl DeepView for Project {
    type V = ProjectV;

    open spec fn deep_view(&self) -> ProjectV {
        self.view()
    }
}

impl DeepView for Tag {
    type V = TagV;

    open spec fn deep_view(&self) -> TagV {
        self.view()
    }
}

impl DeepView for ProjectTag {
    type V = ProjectTagV;

    open spec fn deep_view(&self) -> ProjectTagV {
        self.view()
    }
}

impl DeepView for Feature {
    type V = FeatureV;

    open spec fn deep_view(&self) -> FeatureV {
        self.view()
    }
}

/// Mathematical view of one entry of the read-model aggregate.
pub struct ProjectJoinV {
    pub project: ProjectV,
    pub tags: Seq<TagV>,
    pub features: Seq<FeatureV>,
}

/// One entry of the read-model aggregate built for display: a project with
/// the tags attached to it and the features it owns. It is derived by the
/// store on every load and never persisted.
pub struct ProjectJoin {
    pub project: Project,
    pub tags: Vec<Tag>,
    pub features: Vec<Feature>,
}

impl View for ProjectJoin {
    type V = ProjectJoinV;

    open spec fn view(&self) -> ProjectJoinV {
        ProjectJoinV {
            project: self.project@,
            tags: self.tags.deep_view(),
            features: self.features.deep_view(),
        }
    }
}

impl DeepView for ProjectJoin {
    type V = ProjectJoinV;

    open spec fn deep_view(&self) -> ProjectJoinV {
        self.view()
    }
}

pub(crate) fn clone_opt_string(s: &Option<String>) -> (r: Option<String>)
    ensures
        r.deep_view() == s.deep_view(),
{
    match s {
        Some(t) => Some(t.clone()),
        None => None,
    }
}

impl Clone for Project {
    fn clone(&self) -> (r: Self)
        ensures
            r@ == self@,
    {
        Project {
            id: self.id,
            name: self.name.clone(),
            description: clone_opt_string(&self.description),
            created_at: self.created_at,
        }
    }
}

impl Clone for Tag {
    fn clone(&self) -> (r: Self)
        ensures
            r@ == self@,
    {
        Tag { id: self.id, name: self.name.clone(), color: clone_opt_string(&self.color) }
    }
}

impl Clone for ProjectTag {
    fn clone(&self) -> (r: Self)
        ensures
            r@ == self@,
    {
        ProjectTag { id: self.id, project_id: self.project_id, tag_id: self.tag_id }
    }
}

impl Clone for Feature {
    fn clone(&self) -> (r: Self)
        ensures
            r@ == self@,
    {
        Feature {
            id: self.id,
            project_id: self.project_id,
            description: self.description.clone(),
            completed: self.completed,
            created_at: self.created_at,
        }
    }
}

/// The error taxonomy of the storage layer and of the data-access service.
///
/// `NotInitialized` is returned by the service while no storage handle is
/// installed; `NotFound` when a referenced entity id does not exist;
/// `Conflict` when a uniqueness constraint is violated; `Storage` for every
/// other store-level failure (a constraint violation such as an empty
/// project name, or an exhausted id space).
#[derive(Clone, Copy, Debug, PartialEq, Eq, Structural)]
pub enum StorageError {
    NotInitialized,
    NotFound,
    Conflict,
    Storage,
}

/// The short label under which each error kind is shown.
pub open spec fn kind_label(e: StorageError) -> Seq<char> {
    match e {
        StorageError::NotInitialized => "database not initialized"@,
        StorageError::NotFound => "not found"@,
        StorageError::Conflict => "already exists"@,
        StorageError::Storage => "storage failure"@,
    }
}

/// A presentation-ready error: the text that pages display, plus the kind
/// tag they use to decide, for instance, whether a retry makes sense.
/// Structured storage errors are converted to this form at the dispatch
/// boundary; pages never hold them.
pub struct DisplayError {
    pub kind: StorageError,
    pub text: String,
}

impl Clone for DisplayError {
    fn clone(&self) -> (r: Self)
        ensures
            r.kind == self.kind,
            r.text@ == self.text@,
    {
        DisplayError { kind: self.kind, text: self.text.clone() }
    }
}

/// Convert a storage error into display form, prefixed with the name of the
/// operation it came from.
pub fn display_error(op: &str, e: StorageError) -> (r: DisplayError)
    ensures
        r.kind == e,
        r.text@ == op@ + ": "@ + kind_label(e),
{
    let label: &str = match e {
        StorageError::NotInitialized => "database not initialized",
        StorageError::NotFound => "not found",
        StorageError::Conflict => "already exists",
        StorageError::Storage => "storage failure",
    };
    let text = op.to_owned().concat(": ").concat(label);
    proof {
        assert(text@ =~= op@ + ": "@ + kind_label(e));
    }
    DisplayError { kind: e, text: text }
}

} // verus!
