//! The storage interface: the capability set any project-store backend must
//! provide, with the exact semantics of every operation stated over the
//! store model.

use vstd::prelude::*;

use crate::entities::{Feature, Project, ProjectJoin, StorageError, Tag};
use crate::store_model::{
    can_create_project, can_create_tag, features_of, has_feature, has_project, has_tag,
    link_exists, listing, new_feature_of, new_project_of, new_tag_of, tag_name_taken, tags_of,
    wf, with_added_feature, with_attached, with_created_project, with_created_tag,
    with_deleted_project, with_detached, with_removed_feature, with_time, StoreModel,
};

verus! {

/// The name of the store file. It encodes the schema version, so that an
/// incompatible schema change can live in a fresh file beside the old one
/// instead of requiring a destructive migration.
pub fn db_file_name() -> (s: String)
    ensures
        s@ == "com.github.kitfoxboy.cosmi-kit-projects-v1.db"@,
{
    String::from_str("com.github.kitfoxboy.cosmi-kit-projects-v1.db")
}

/// The contract every project-store backend provides.
///
/// Each operation is stated against the abstract [`StoreModel`]: writes are
/// the model transitions of [`crate::store_model`], reads return exactly
/// what the model derives. The store owns id assignment and creation
/// timestamps; `set_time` feeds the store a current time, which never moves
/// its clock backward.
pub trait ProjectDatabase: Sized {
    /// The abstract state this store currently represents.
    spec fn model(&self) -> StoreModel;

    /// Advance the store's clock to `now` (ignored if the clock is already
    /// past it); creation timestamps are drawn from this clock.
    fn set_time(&mut self, now: i64)
        requires
            wf(old(self).model()),
        ensures
            final(self).model() == with_time(old(self).model(), now as int),
            wf(final(self).model()),
    ;

    /// Store a new project. Succeeds exactly when the name is non-empty and
    /// the id space is not exhausted; the stored record, with its assigned
    /// id and creation time, is returned.
    fn create_project(&mut self, name: String, description: Option<String>) -> (r: Result<
        Project,
        StorageError,
    >)
        requires
            wf(old(self).model()),
        ensures
            wf(final(self).model()),
            can_create_project(old(self).model(), name@) ==> {
                &&& r matches Ok(p) && p@ == new_project_of(
                    old(self).model(),
                    name@,
                    description.deep_view(),
                )
                &&& final(self).model() == with_created_project(
                    old(self).model(),
                    name@,
                    description.deep_view(),
                )
            },
            !can_create_project(old(self).model(), name@) ==> r == Err::<Project, StorageError>(
                StorageError::Storage,
            ) && final(self).model() == old(self).model(),
    ;

    /// The full read-model aggregate: every project ordered by creation
    /// time descending, each with its tags and its features.
    fn get_all_projects(&self) -> (r: Result<Vec<ProjectJoin>, StorageError>)
        requires
            wf(self.model()),
        ensures
            r matches Ok(v) && v.deep_view() == listing(self.model()),
    ;

    /// Delete a project and, by the documented cascade policy, every tag
    /// association and feature that references it. Fails with `NotFound`
    /// exactly when no project has the id.
    fn delete_project(&mut self, id: i64) -> (r: Result<(), StorageError>)
        requires
            wf(old(self).model()),
        ensures
            wf(final(self).model()),
            has_project(old(self).model(), id as int) ==> (r matches Ok(u) && final(self).model()
                == with_deleted_project(old(self).model(), id as int)),
            !has_project(old(self).model(), id as int) ==> r == Err::<(), StorageError>(
                StorageError::NotFound,
            ) && final(self).model() == old(self).model(),
    ;

    /// Store a new tag. A taken name is rejected as a conflict (the
    /// documented duplicate-name policy); an empty name or an exhausted id
    /// space is a storage error.
    fn create_tag(&mut self, name: String) -> (r: Result<Tag, StorageError>)
        requires
            wf(old(self).model()),
        ensures
            wf(final(self).model()),
            can_create_tag(old(self).model(), name@) ==> {
                &&& r matches Ok(t) && t@ == new_tag_of(old(self).model(), name@)
                &&& final(self).model() == with_created_tag(old(self).model(), name@)
            },
            name@.len() > 0 && tag_name_taken(old(self).model(), name@) ==> r == Err::<
                Tag,
                StorageError,
            >(StorageError::Conflict) && final(self).model() == old(self).model(),
            !can_create_tag(old(self).model(), name@) && !tag_name_taken(old(self).model(), name@)
                ==> r == Err::<Tag, StorageError>(StorageError::Storage) && final(self).model()
                == old(self).model(),
    ;

    /// Every stored tag, in insertion order.
    fn get_all_tags(&self) -> (r: Result<Vec<Tag>, StorageError>)
        requires
            wf(self.model()),
        ensures
            r matches Ok(v) && v.deep_view() == self.model().tags,
    ;

    /// The tags attached to one project, in order of attachment. Fails with
    /// `NotFound` exactly when the project id is invalid.
    fn get_project_tags(&self, project_id: i64) -> (r: Result<Vec<Tag>, StorageError>)
        requires
            wf(self.model()),
        ensures
            has_project(self.model(), project_id as int) ==> (r matches Ok(v) && v.deep_view()
                == tags_of(self.model(), project_id as int)),
            !has_project(self.model(), project_id as int) ==> r == Err::<Vec<Tag>, StorageError>(
                StorageError::NotFound,
            ),
    ;

    /// Attach a tag to a project. Attaching an already-attached pair is
    /// idempotent and succeeds without change; an invalid id on either side
    /// is `NotFound`.
    fn add_tag_to_project(&mut self, project_id: i64, tag_id: i64) -> (r: Result<
        (),
        StorageError,
    >)
        requires
            wf(old(self).model()),
        ensures
            wf(final(self).model()),
            !(has_project(old(self).model(), project_id as int) && has_tag(
                old(self).model(),
                tag_id as int,
            )) ==> r == Err::<(), StorageError>(StorageError::NotFound) && final(self).model()
                == old(self).model(),
            has_project(old(self).model(), project_id as int) && has_tag(
                old(self).model(),
                tag_id as int,
            ) && (link_exists(old(self).model(), project_id as int, tag_id as int) || old(
                self,
            ).model().next_link_id < i64::MAX) ==> (r matches Ok(u) && final(self).model()
                == with_attached(old(self).model(), project_id as int, tag_id as int)),
            has_project(old(self).model(), project_id as int) && has_tag(
                old(self).model(),
                tag_id as int,
            ) && !link_exists(old(self).model(), project_id as int, tag_id as int) && old(
                self,
            ).model().next_link_id == i64::MAX ==> r == Err::<(), StorageError>(
                StorageError::Storage,
            ) && final(self).model() == old(self).model(),
    ;

    /// Detach a tag from a project. An invalid id on either side is
    /// `NotFound`; detaching a pair that is not attached succeeds without
    /// change.
    fn remove_tag_from_project(&mut self, project_id: i64, tag_id: i64) -> (r: Result<
        (),
        StorageError,
    >)
        requires
            wf(old(self).model()),
        ensures
            wf(final(self).model()),
            has_project(old(self).model(), project_id as int) && has_tag(
                old(self).model(),
                tag_id as int,
            ) ==> (r matches Ok(u) && final(self).model() == with_detached(
                old(self).model(),
                project_id as int,
                tag_id as int,
            )),
            !(has_project(old(self).model(), project_id as int) && has_tag(
                old(self).model(),
                tag_id as int,
            )) ==> r == Err::<(), StorageError>(StorageError::NotFound) && final(self).model()
                == old(self).model(),
    ;

    /// Store a new feature under a project. The parent's existence is
    /// verified first: an invalid project id is `NotFound` and nothing is
    /// inserted.
    fn add_feature(&mut self, project_id: i64, description: String) -> (r: Result<
        Feature,
        StorageError,
    >)
        requires
            wf(old(self).model()),
        ensures
            wf(final(self).model()),
            !has_project(old(self).model(), project_id as int) ==> r == Err::<
                Feature,
                StorageError,
            >(StorageError::NotFound) && final(self).model() == old(self).model(),
            has_project(old(self).model(), project_id as int) && old(self).model().next_feature_id
                < i64::MAX ==> {
                &&& r matches Ok(f) && f@ == new_feature_of(
                    old(self).model(),
                    project_id as int,
                    description@,
                )
                &&& final(self).model() == with_added_feature(
                    old(self).model(),
                    project_id as int,
                    description@,
                )
            },
            has_project(old(self).model(), project_id as int) && old(self).model().next_feature_id
                == i64::MAX ==> r == Err::<Feature, StorageError>(StorageError::Storage)
                && final(self).model() == old(self).model(),
    ;

    /// The features of one project, newest first. Fails with `NotFound`
    /// exactly when the project id is invalid.
    fn get_project_features(&self, project_id: i64) -> (r: Result<Vec<Feature>, StorageError>)
        requires
            wf(self.model()),
        ensures
            has_project(self.model(), project_id as int) ==> (r matches Ok(v) && v.deep_view()
                == features_of(self.model(), project_id as int)),
            !has_project(self.model(), project_id as int) ==> r == Err::<
                Vec<Feature>,
                StorageError,
            >(StorageError::NotFound),
    ;

    /// Remove a feature. Fails with `NotFound` exactly when no feature has
    /// the id.
    fn remove_feature(&mut self, feature_id: i64) -> (r: Result<(), StorageError>)
        requires
            wf(old(self).model()),
        ensures
            wf(final(self).model()),
            has_feature(old(self).model(), feature_id as int) ==> (r matches Ok(u)
                && final(self).model() == with_removed_feature(old(self).model(), feature_id as int)),
            !has_feature(old(self).model(), feature_id as int) ==> r == Err::<(), StorageError>(
                StorageError::NotFound,
            ) && final(self).model() == old(self).model(),
    ;
}

} // verus!
