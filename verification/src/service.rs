//! The data-access service: the single point through which the rest of the
//! application reaches storage. It owns an optional storage handle — absent
//! until asynchronous initialisation completes — and fails predictably with
//! a not-initialized error before the handle is ready, performing no partial
//! mutation.

use vstd::prelude::*;

use crate::database::ProjectDatabase;
use crate::entities::{Feature, Project, ProjectJoin, StorageError, Tag};
use crate::store_model::{
    can_create_project, can_create_tag, has_project, has_tag, link_exists, listing,
    new_feature_of, new_project_of, new_tag_of, tag_name_taken, wf, with_added_feature,
    with_attached, with_created_project, with_created_tag, with_deleted_project, with_time,
    StoreModel,
};

verus! {

/// The service owning the optional storage handle. Once installed, the
/// handle is only used, never replaced; all operations delegate to it.
pub struct AppData<D: ProjectDatabase> {
    db: Option<D>,
}

impl<D: ProjectDatabase> AppData<D> {
    /// Whether a storage handle has been installed.
    pub closed spec fn has_db(&self) -> bool {
        self.db is Some
    }

    /// The model of the installed store; meaningful only when one is there.
    pub closed spec fn db_model(&self) -> StoreModel
        recommends
            self.has_db(),
    {
        self.db->0.model()
    }

    /// The service is valid when any installed store is well formed.
    pub open spec fn inv(&self) -> bool {
        self.has_db() ==> wf(self.db_model())
    }

    /// A service with no storage handle yet.
    pub fn new() -> (r: Self)
        ensures
            !r.has_db(),
            r.inv(),
    {
        AppData { db: None }
    }

    /// Install the storage handle once initialisation has produced it.
    pub fn set_database(&mut self, db: D)
        requires
            wf(db.model()),
        ensures
            final(self).has_db(),
            final(self).db_model() == db.model(),
            final(self).inv(),
    {
        self.db = Some(db);
    }

    /// Whether storage is available.
    pub fn has_database(&self) -> (b: bool)
        ensures
            b == self.has_db(),
    {
        self.db.is_some()
    }

    /// Feed the store the current time; a no-op before initialisation.
    pub fn set_time(&mut self, now: i64)
        requires
            old(self).inv(),
        ensures
            final(self).inv(),
            final(self).has_db() == old(self).has_db(),
            old(self).has_db() ==> final(self).db_model() == with_time(
                old(self).db_model(),
                now as int,
            ),
            !old(self).has_db() ==> *final(self) == *old(self),
    {
        match &mut self.db {
            Some(db) => db.set_time(now),
            None => (),
        }
    }

    /// Load the full read-model aggregate.
    pub fn load_projects(&self) -> (r: Result<Vec<ProjectJoin>, StorageError>)
        requires
            self.inv(),
        ensures
            !self.has_db() ==> r == Err::<Vec<ProjectJoin>, StorageError>(
                StorageError::NotInitialized,
            ),
            self.has_db() ==> (r matches Ok(v) && v.deep_view() == listing(self.db_model())),
    {
        match &self.db {
            Some(db) => db.get_all_projects(),
            None => Err(StorageError::NotInitialized),
        }
    }

    /// Create a new project.
    pub fn create_project(&mut self, name: String, description: Option<String>) -> (r: Result<
        Project,
        StorageError,
    >)
        requires
            old(self).inv(),
        ensures
            final(self).inv(),
            final(self).has_db() == old(self).has_db(),
            !old(self).has_db() ==> r == Err::<Project, StorageError>(StorageError::NotInitialized)
                && *final(self) == *old(self),
            old(self).has_db() && can_create_project(old(self).db_model(), name@) ==> {
                &&& r matches Ok(p) && p@ == new_project_of(
                    old(self).db_model(),
                    name@,
                    description.deep_view(),
                )
                &&& final(self).db_model() == with_created_project(
                    old(self).db_model(),
                    name@,
                    description.deep_view(),
                )
            },
            old(self).has_db() && !can_create_project(old(self).db_model(), name@) ==> r == Err::<
                Project,
                StorageError,
            >(StorageError::Storage) && final(self).db_model() == old(self).db_model(),
    {
        match &mut self.db {
            Some(db) => db.create_project(name, description),
            None => Err(StorageError::NotInitialized),
        }
    }

    /// Delete a project by id, cascading over its links and features.
    pub fn delete_project(&mut self, id: i64) -> (r: Result<(), StorageError>)
        requires
            old(self).inv(),
        ensures
            final(self).inv(),
            final(self).has_db() == old(self).has_db(),
            !old(self).has_db() ==> r == Err::<(), StorageError>(StorageError::NotInitialized)
                && *final(self) == *old(self),
            old(self).has_db() && has_project(old(self).db_model(), id as int) ==> (r matches Ok(u)
                && final(self).db_model() == with_deleted_project(old(self).db_model(), id as int)),
            old(self).has_db() && !has_project(old(self).db_model(), id as int) ==> r == Err::<
                (),
                StorageError,
            >(StorageError::NotFound) && final(self).db_model() == old(self).db_model(),
    {
        match &mut self.db {
            Some(db) => db.delete_project(id),
            None => Err(StorageError::NotInitialized),
        }
    }

    /// Create a new tag; a taken name is a conflict.
    pub fn create_tag(&mut self, name: String) -> (r: Result<Tag, StorageError>)
        requires
            old(self).inv(),
        ensures
            final(self).inv(),
            final(self).has_db() == old(self).has_db(),
            !old(self).has_db() ==> r == Err::<Tag, StorageError>(StorageError::NotInitialized)
                && *final(self) == *old(self),
            old(self).has_db() && can_create_tag(old(self).db_model(), name@) ==> {
                &&& r matches Ok(t) && t@ == new_tag_of(old(self).db_model(), name@)
                &&& final(self).db_model() == with_created_tag(old(self).db_model(), name@)
            },
            old(self).has_db() && name@.len() > 0 && tag_name_taken(old(self).db_model(), name@)
                ==> r == Err::<Tag, StorageError>(StorageError::Conflict) && final(self).db_model()
                == old(self).db_model(),
            old(self).has_db() && !can_create_tag(old(self).db_model(), name@) && !tag_name_taken(
                old(self).db_model(),
                name@,
            ) ==> r == Err::<Tag, StorageError>(StorageError::Storage) && final(self).db_model()
                == old(self).db_model(),
    {
        match &mut self.db {
            Some(db) => db.create_tag(name),
            None => Err(StorageError::NotInitialized),
        }
    }

    /// Every stored tag, in insertion order.
    pub fn get_all_tags(&self) -> (r: Result<Vec<Tag>, StorageError>)
        requires
            self.inv(),
        ensures
            !self.has_db() ==> r == Err::<Vec<Tag>, StorageError>(StorageError::NotInitialized),
            self.has_db() ==> (r matches Ok(v) && v.deep_view() == self.db_model().tags),
    {
        match &self.db {
            Some(db) => db.get_all_tags(),
            None => Err(StorageError::NotInitialized),
        }
    }

    /// Attach a tag to a project (idempotent).
    pub fn add_tag_to_project(&mut self, project_id: i64, tag_id: i64) -> (r: Result<
        (),
        StorageError,
    >)
        requires
            old(self).inv(),
        ensures
            final(self).inv(),
            final(self).has_db() == old(self).has_db(),
            !old(self).has_db() ==> r == Err::<(), StorageError>(StorageError::NotInitialized)
                && *final(self) == *old(self),
            old(self).has_db() && !(has_project(old(self).db_model(), project_id as int) && has_tag(
                old(self).db_model(),
                tag_id as int,
            )) ==> r == Err::<(), StorageError>(StorageError::NotFound) && final(self).db_model()
                == old(self).db_model(),
            old(self).has_db() && has_project(old(self).db_model(), project_id as int) && has_tag(
                old(self).db_model(),
                tag_id as int,
            ) && (link_exists(old(self).db_model(), project_id as int, tag_id as int) || old(
                self,
            ).db_model().next_link_id < i64::MAX) ==> (r matches Ok(u) && final(self).db_model()
                == with_attached(old(self).db_model(), project_id as int, tag_id as int)),
    {
        match &mut self.db {
            Some(db) => db.add_tag_to_project(project_id, tag_id),
            None => Err(StorageError::NotInitialized),
        }
    }

    /// Add a feature to a project.
    pub fn add_feature(&mut self, project_id: i64, description: String) -> (r: Result<
        Feature,
        StorageError,
    >)
        requires
            old(self).inv(),
        ensures
            final(self).inv(),
            final(self).has_db() == old(self).has_db(),
            !old(self).has_db() ==> r == Err::<Feature, StorageError>(StorageError::NotInitialized)
                && *final(self) == *old(self),
            old(self).has_db() && !has_project(old(self).db_model(), project_id as int) ==> r
                == Err::<Feature, StorageError>(StorageError::NotFound) && final(self).db_model()
                == old(self).db_model(),
            old(self).has_db() && has_project(old(self).db_model(), project_id as int) && old(
                self,
            ).db_model().next_feature_id < i64::MAX ==> {
                &&& r matches Ok(f) && f@ == new_feature_of(
                    old(self).db_model(),
                    project_id as int,
                    description@,
                )
                &&& final(self).db_model() == with_added_feature(
                    old(self).db_model(),
                    project_id as int,
                    description@,
                )
            },
    {
        match &mut self.db {
            Some(db) => db.add_feature(project_id, description),
            None => Err(StorageError::NotInitialized),
        }
    }

    /// The features of one project, newest first.
    pub fn get_project_features(&self, project_id: i64) -> (r: Result<Vec<Feature>, StorageError>)
        requires
            self.inv(),
        ensures
            !self.has_db() ==> r == Err::<Vec<Feature>, StorageError>(StorageError::NotInitialized),
            self.has_db() && has_project(self.db_model(), project_id as int) ==> (r matches Ok(v)
                && v.deep_view() == crate::store_model::features_of(
                self.db_model(),
                project_id as int,
            )),
            self.has_db() && !has_project(self.db_model(), project_id as int) ==> r == Err::<
                Vec<Feature>,
                StorageError,
            >(StorageError::NotFound),
    {
        match &self.db {
            Some(db) => db.get_project_features(project_id),
            None => Err(StorageError::NotInitialized),
        }
    }
}

impl<D: ProjectDatabase> Default for AppData<D> {
    /// A service with no storage handle, as `new` builds it.
    fn default() -> (r: Self)
        ensures
            !r.has_db(),
            r.inv(),
    {
        AppData::new()
    }
}

} // verus!
