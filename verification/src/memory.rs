//! The in-memory storage engine: a complete, verified implementation of the
//! storage interface against the abstract store model.

use vstd::prelude::*;

use crate::database::ProjectDatabase;
use crate::entities::{Feature, FeatureV, Project, ProjectJoin, ProjectTag, ProjectTagV, ProjectV,
    StorageError, Tag};
use crate::store_model::{
    empty_store, has_project, has_tag, lemma_filter_take_succ,
    lemma_wf_added_feature, lemma_wf_attached, lemma_wf_created_project, lemma_wf_created_tag,
    lemma_wf_deleted_project, lemma_wf_detached, lemma_wf_removed_feature, lemma_wf_with_time,
    link_exists, listing, tag_name_taken, tag_with_id, tags_of, wf, with_added_feature,
    with_attached, with_created_project, with_created_tag, with_deleted_project, with_detached,
    with_removed_feature, with_time, StoreModel,
};

verus! {

/// A project store held entirely in memory.
///
/// Rows are kept in insertion order; ids are assigned from the `next_*`
/// counters; `now` is the clock that creation timestamps are drawn from.
/// The data-access service owns the one store, so all readers observe the
/// same data; a shell that adds a pooled durable backend keeps that pool
/// behind its own cheaply-cloned handle.
pub struct MemStore {
    projects: Vec<Project>,
    tags: Vec<Tag>,
    links: Vec<ProjectTag>,
    features: Vec<Feature>,
    now: i64,
    next_project_id: i64,
    next_tag_id: i64,
    next_link_id: i64,
    next_feature_id: i64,
}

impl MemStore {
    /// A fresh, empty store with its clock at zero.
    pub fn new() -> (s: Self)
        ensures
            s.model() == empty_store(),
            wf(s.model()),
    {
        let s = MemStore {
            projects: Vec::new(),
            tags: Vec::new(),
            links: Vec::new(),
            features: Vec::new(),
            now: 0,
            next_project_id: 1,
            next_tag_id: 1,
            next_link_id: 1,
            next_feature_id: 1,
        };
        proof {
            assert(s.model() =~~= empty_store());
        }
        s
    }

    /// Whether some stored project has the id.
    fn project_exists(&self, id: i64) -> (b: bool)
        ensures
            b == has_project(self.model(), id as int),
    {
        let n = self.projects.len();
        let mut i: usize = 0;
        while i < n
            invariant
                n == self.projects.len(),
                i <= n,
                forall|k: int|
                    0 <= k < i ==> (#[trigger] self.projects.deep_view()[k]).id != id as int,
            decreases n - i,
        {
            if self.projects[i].id == id {
                proof {
                    assert((#[trigger] self.projects.deep_view()[i as int]).id == id as int);
                }
                return true;
            }
            i = i + 1;
        }
        false
    }

    /// Whether some stored tag has the id.
    fn tag_exists(&self, id: i64) -> (b: bool)
        ensures
            b == has_tag(self.model(), id as int),
    {
        let n = self.tags.len();
        let mut i: usize = 0;
        while i < n
            invariant
                n == self.tags.len(),
                i <= n,
                forall|k: int| 0 <= k < i ==> (#[trigger] self.tags.deep_view()[k]).id != id as int,
            decreases n - i,
        {
            if self.tags[i].id == id {
                proof {
                    assert((#[trigger] self.tags.deep_view()[i as int]).id == id as int);
                }
                return true;
            }
            i = i + 1;
        }
        false
    }

    /// Whether some stored feature has the id.
    fn feature_exists(&self, id: i64) -> (b: bool)
        ensures
            b == crate::store_model::has_feature(self.model(), id as int),
    {
        let n = self.features.len();
        let mut i: usize = 0;
        while i < n
            invariant
                n == self.features.len(),
                i <= n,
                forall|k: int|
                    0 <= k < i ==> (#[trigger] self.features.deep_view()[k]).id != id as int,
            decreases n - i,
        {
            if self.features[i].id == id {
                proof {
                    let ghost m = self.model();
                    assert(m.features == self.features.deep_view());
                    assert(0 <= (i as int) < m.features.len());
                    assert((m.features[i as int]).id == id as int);
                    assert(crate::store_model::has_feature(m, id as int));
                }
                return true;
            }
            i = i + 1;
        }
        false
    }

    /// Whether the project-tag pair is already linked.
    fn link_present(&self, project_id: i64, tag_id: i64) -> (b: bool)
        ensures
            b == link_exists(self.model(), project_id as int, tag_id as int),
    {
        let n = self.links.len();
        let mut i: usize = 0;
        while i < n
            invariant
                n == self.links.len(),
                i <= n,
                forall|k: int|
                    0 <= k < i ==> !((#[trigger] self.links.deep_view()[k]).project_id == project_id
                        as int && self.links.deep_view()[k].tag_id == tag_id as int),
            decreases n - i,
        {
            if self.links[i].project_id == project_id && self.links[i].tag_id == tag_id {
                proof {
                    let ghost m = self.model();
                    assert(m.links == self.links.deep_view());
                    assert(0 <= (i as int) < m.links.len());
                    assert((m.links[i as int]).project_id == project_id as int
                        && (m.links[i as int]).tag_id == tag_id as int);
                    assert(link_exists(m, project_id as int, tag_id as int));
                }
                return true;
            }
            i = i + 1;
        }
        false
    }

    /// Whether the tag name is already taken.
    fn tag_name_exists(&self, name: &String) -> (b: bool)
        ensures
            b == tag_name_taken(self.model(), name@),
    {
        let n = self.tags.len();
        let mut i: usize = 0;
        while i < n
            invariant
                n == self.tags.len(),
                i <= n,
                forall|k: int|
                    0 <= k < i ==> (#[trigger] self.tags.deep_view()[k]).name != name@,
            decreases n - i,
        {
            if self.tags[i].name == *name {
                proof {
                    assert((#[trigger] self.tags.deep_view()[i as int]).name == name@);
                }
                return true;
            }
            i = i + 1;
        }
        false
    }

    /// The stored tag with the given id, copied out.
    fn find_tag(&self, tag_id: i64) -> (t: Tag)
        requires
            wf(self.model()),
            has_tag(self.model(), tag_id as int),
        ensures
            t@ == tag_with_id(self.model().tags, tag_id as int),
    {
        let n = self.tags.len();
        let mut i: usize = 0;
        while i < n
            invariant
                n == self.tags.len(),
                wf(self.model()),
                has_tag(self.model(), tag_id as int),
                i <= n,
                forall|k: int|
                    0 <= k < i ==> (#[trigger] self.tags.deep_view()[k]).id != tag_id as int,
            decreases n - i,
        {
            if self.tags[i].id == tag_id {
                let t = self.tags[i].clone();
                proof {
                    let tags = self.model().tags;
                    let c = choose|c: int| 0 <= c < tags.len() && (#[trigger] tags[c]).id == tag_id
                        as int;
                    if c < i as int {
                        assert(tags[c].id < tags[i as int].id);
                    }
                    if (i as int) < c {
                        assert(tags[i as int].id < tags[c].id);
                    }
                    assert(c == i as int);
                }
                return t;
            }
            i = i + 1;
        }
        proof {
            let c = choose|c: int|
                0 <= c < self.model().tags.len() && (#[trigger] self.model().tags[c]).id == tag_id
                    as int;
            assert(false);
        }
        Tag { id: 0, name: String::new(), color: None }
    }

    /// The tags attached to one project, in order of attachment.
    fn collect_tags(&self, project_id: i64) -> (r: Vec<Tag>)
        requires
            wf(self.model()),
        ensures
            r.deep_view() == tags_of(self.model(), project_id as int),
    {
        let ghost m = self.model();
        let ghost f = |l: ProjectTagV|
            if l.project_id == project_id as int {
                Some(tag_with_id(m.tags, l.tag_id))
            } else {
                None
            };
        let mut r: Vec<Tag> = Vec::new();
        let n = self.links.len();
        let mut i: usize = 0;
        proof {
            reveal(Seq::filter_map);
            assert(r.deep_view() =~= m.links.take(0).filter_map(f));
        }
        while i < n
            invariant
                n == self.links.len(),
                m == self.model(),
                wf(m),
                f == (|l: ProjectTagV|
                    if l.project_id == project_id as int {
                        Some(tag_with_id(m.tags, l.tag_id))
                    } else {
                        None
                    }),
                i <= n,
                r.deep_view() == m.links.take(i as int).filter_map(f),
            decreases n - i,
        {
            let ghost pre = r.deep_view();
            if self.links[i].project_id == project_id {
                proof {
                    assert(has_tag(m, m.links[i as int].tag_id));
                }
                let t = self.find_tag(self.links[i].tag_id);
                r.push(t);
                proof {
                    assert(r.deep_view() =~= pre.push(tag_with_id(m.tags, m.links[i as int].tag_id)));
                }
            }
            proof {
                m.links.lemma_filter_map_take_succ(f, i as int);
                assert(r.deep_view() =~= m.links.take(i as int + 1).filter_map(f));
            }
            i = i + 1;
        }
        proof {
            assert(m.links.take(n as int) =~= m.links);
            assert(r.deep_view() =~= tags_of(m, project_id as int));
        }
        r
    }

    /// The features of one project, newest first.
    fn collect_features(&self, project_id: i64) -> (r: Vec<Feature>)
        requires
            wf(self.model()),
        ensures
            r.deep_view() == crate::store_model::features_of(self.model(), project_id as int),
    {
        let ghost m = self.model();
        let ghost rev = m.features.reverse();
        let ghost f = |x: FeatureV|
            if x.project_id == project_id as int {
                Some(x)
            } else {
                None
            };
        let mut r: Vec<Feature> = Vec::new();
        let n = self.features.len();
        let mut i: usize = 0;
        proof {
            reveal(Seq::filter_map);
            assert(rev.len() == n as int);
            assert(r.deep_view() =~= rev.take(0).filter_map(f));
        }
        while i < n
            invariant
                n == self.features.len(),
                m == self.model(),
                wf(m),
                rev == m.features.reverse(),
                rev.len() == n as int,
                f == (|x: FeatureV|
                    if x.project_id == project_id as int {
                        Some(x)
                    } else {
                        None
                    }),
                i <= n,
                r.deep_view() == rev.take(i as int).filter_map(f),
            decreases n - i,
        {
            let ghost pre = r.deep_view();
            let idx = n - 1 - i;
            proof {
                assert(rev[i as int] == m.features[idx as int]);
            }
            if self.features[idx].project_id == project_id {
                let x = self.features[idx].clone();
                r.push(x);
                proof {
                    assert(r.deep_view() =~= pre.push(m.features[idx as int]));
                }
            }
            proof {
                rev.lemma_filter_map_take_succ(f, i as int);
                assert(r.deep_view() =~= rev.take(i as int + 1).filter_map(f));
            }
            i = i + 1;
        }
        proof {
            assert(rev.take(n as int) =~= rev);
            assert(r.deep_view() =~= crate::store_model::features_of(m, project_id as int));
        }
        r
    }
}

impl ProjectDatabase for MemStore {
    closed spec fn model(&self) -> StoreModel {
        StoreModel {
            projects: self.projects.deep_view(),
            tags: self.tags.deep_view(),
            links: self.links.deep_view(),
            features: self.features.deep_view(),
            now: self.now as int,
            next_project_id: self.next_project_id as int,
            next_tag_id: self.next_tag_id as int,
            next_link_id: self.next_link_id as int,
            next_feature_id: self.next_feature_id as int,
        }
    }

    fn set_time(&mut self, now: i64) {
        if now > self.now {
            self.now = now;
        }
        proof {
            assert(self.model() =~~= with_time(old(self).model(), now as int));
            lemma_wf_with_time(old(self).model(), now as int);
        }
    }

    fn create_project(&mut self, name: String, description: Option<String>) -> (r: Result<
        Project,
        StorageError,
    >) {
        if name.as_str().is_empty() {
            return Err(StorageError::Storage);
        }
        if self.next_project_id == i64::MAX {
            return Err(StorageError::Storage);
        }
        let ghost m = self.model();
        let p = Project {
            id: self.next_project_id,
            name: name,
            description: description,
            created_at: self.now,
        };
        self.projects.push(p.clone());
        self.next_project_id = self.next_project_id + 1;
        proof {
            lemma_wf_created_project(m, p.name@, p.description.deep_view());
            assert(self.projects.deep_view() =~= m.projects.push(p@));
            assert(self.model() =~~= with_created_project(m, p.name@, p.description.deep_view()));
        }
        Ok(p)
    }

    fn get_all_projects(&self) -> (r: Result<Vec<ProjectJoin>, StorageError>) {
        let ghost m = self.model();
        let mut res: Vec<ProjectJoin> = Vec::new();
        let n = self.projects.len();
        let mut i: usize = 0;
        while i < n
            invariant
                n == self.projects.len(),
                m == self.model(),
                wf(m),
                i <= n,
                res.deep_view().len() == i as int,
                forall|k: int| 0 <= k < i ==> #[trigger] res.deep_view()[k] == listing(m)[k],
            decreases n - i,
        {
            let ghost pre = res.deep_view();
            let idx = n - 1 - i;
            let p = self.projects[idx].clone();
            let tags = self.collect_tags(p.id);
            let features = self.collect_features(p.id);
            let entry = ProjectJoin { project: p, tags: tags, features: features };
            proof {
                assert(m.projects.reverse()[i as int] == m.projects[idx as int]);
                assert(entry@ == listing(m)[i as int]);
            }
            res.push(entry);
            proof {
                assert(res.deep_view() =~= pre.push(entry@));
            }
            i = i + 1;
        }
        proof {
            assert(res.deep_view() =~= listing(m));
        }
        Ok(res)
    }

    fn delete_project(&mut self, id: i64) -> (r: Result<(), StorageError>) {
        if !self.project_exists(id) {
            return Err(StorageError::NotFound);
        }
        let ghost m = self.model();
        let ghost ppred = |p: ProjectV| p.id != id as int;
        let ghost lpred = |l: ProjectTagV| l.project_id != id as int;
        let ghost fpred = |f: FeatureV| f.project_id != id as int;

        let mut kept_projects: Vec<Project> = Vec::new();
        let pn = self.projects.len();
        let mut i: usize = 0;
        proof {
            reveal(Seq::filter);
            assert(kept_projects.deep_view() =~= m.projects.take(0).filter(ppred));
        }
        while i < pn
            invariant
                pn == self.projects.len(),
                m == self.model(),
                ppred == (|p: ProjectV| p.id != id as int),
                i <= pn,
                kept_projects.deep_view() == m.projects.take(i as int).filter(ppred),
            decreases pn - i,
        {
            let ghost pre = kept_projects.deep_view();
            if self.projects[i].id != id {
                kept_projects.push(self.projects[i].clone());
                proof {
                    assert(kept_projects.deep_view() =~= pre.push(m.projects[i as int]));
                }
            }
            proof {
                lemma_filter_take_succ(m.projects, ppred, i as int);
                assert(kept_projects.deep_view() =~= m.projects.take(i as int + 1).filter(ppred));
            }
            i = i + 1;
        }

        let mut kept_links: Vec<ProjectTag> = Vec::new();
        let ln = self.links.len();
        let mut j: usize = 0;
        proof {
            reveal(Seq::filter);
            assert(kept_links.deep_view() =~= m.links.take(0).filter(lpred));
        }
        while j < ln
            invariant
                ln == self.links.len(),
                m == self.model(),
                lpred == (|l: ProjectTagV| l.project_id != id as int),
                j <= ln,
                kept_links.deep_view() == m.links.take(j as int).filter(lpred),
            decreases ln - j,
        {
            let ghost pre = kept_links.deep_view();
            if self.links[j].project_id != id {
                kept_links.push(self.links[j].clone());
                proof {
                    assert(kept_links.deep_view() =~= pre.push(m.links[j as int]));
                }
            }
            proof {
                lemma_filter_take_succ(m.links, lpred, j as int);
                assert(kept_links.deep_view() =~= m.links.take(j as int + 1).filter(lpred));
            }
            j = j + 1;
        }

        let mut kept_features: Vec<Feature> = Vec::new();
        let fnn = self.features.len();
        let mut k: usize = 0;
        proof {
            reveal(Seq::filter);
            assert(kept_features.deep_view() =~= m.features.take(0).filter(fpred));
        }
        while k < fnn
            invariant
                fnn == self.features.len(),
                m == self.model(),
                fpred == (|f: FeatureV| f.project_id != id as int),
                k <= fnn,
                kept_features.deep_view() == m.features.take(k as int).filter(fpred),
            decreases fnn - k,
        {
            let ghost pre = kept_features.deep_view();
            if self.features[k].project_id != id {
                kept_features.push(self.features[k].clone());
                proof {
                    assert(kept_features.deep_view() =~= pre.push(m.features[k as int]));
                }
            }
            proof {
                lemma_filter_take_succ(m.features, fpred, k as int);
                assert(kept_features.deep_view() =~= m.features.take(k as int + 1).filter(fpred));
            }
            k = k + 1;
        }

        self.projects = kept_projects;
        self.links = kept_links;
        self.features = kept_features;
        proof {
            assert(m.projects.take(pn as int) =~= m.projects);
            assert(m.links.take(ln as int) =~= m.links);
            assert(m.features.take(fnn as int) =~= m.features);
            assert(self.model() =~~= with_deleted_project(m, id as int));
            lemma_wf_deleted_project(m, id as int);
        }
        Ok(())
    }

    fn create_tag(&mut self, name: String) -> (r: Result<Tag, StorageError>) {
        if name.as_str().is_empty() {
            return Err(StorageError::Storage);
        }
        if self.tag_name_exists(&name) {
            return Err(StorageError::Conflict);
        }
        if self.next_tag_id == i64::MAX {
            return Err(StorageError::Storage);
        }
        let ghost m = self.model();
        let t = Tag { id: self.next_tag_id, name: name, color: None };
        self.tags.push(t.clone());
        self.next_tag_id = self.next_tag_id + 1;
        proof {
            lemma_wf_created_tag(m, t.name@);
            assert(self.tags.deep_view() =~= m.tags.push(t@));
            assert(self.model() =~~= with_created_tag(m, t.name@));
        }
        Ok(t)
    }

    fn get_all_tags(&self) -> (r: Result<Vec<Tag>, StorageError>) {
        let v = self.tags.clone();
        proof {
            assert forall|k: int| 0 <= k < v.deep_view().len() implies #[trigger] v.deep_view()[k]
                == self.tags.deep_view()[k] by {
                assert(cloned::<Tag>(self.tags[k], v[k]));
            }
            assert(v.deep_view() =~= self.model().tags);
        }
        Ok(v)
    }

    fn get_project_tags(&self, project_id: i64) -> (r: Result<Vec<Tag>, StorageError>) {
        if !self.project_exists(project_id) {
            return Err(StorageError::NotFound);
        }
        Ok(self.collect_tags(project_id))
    }

    fn add_tag_to_project(&mut self, project_id: i64, tag_id: i64) -> (r: Result<
        (),
        StorageError,
    >) {
        if !self.project_exists(project_id) || !self.tag_exists(tag_id) {
            return Err(StorageError::NotFound);
        }
        if self.link_present(project_id, tag_id) {
            proof {
                assert(self.model() =~~= with_attached(
                    old(self).model(),
                    project_id as int,
                    tag_id as int,
                ));
            }
            return Ok(());
        }
        if self.next_link_id == i64::MAX {
            return Err(StorageError::Storage);
        }
        let ghost m = self.model();
        let l = ProjectTag { id: self.next_link_id, project_id: project_id, tag_id: tag_id };
        self.links.push(l);
        self.next_link_id = self.next_link_id + 1;
        proof {
            lemma_wf_attached(m, project_id as int, tag_id as int);
            assert(self.links.deep_view() =~= m.links.push(
                ProjectTagV {
                    id: m.next_link_id,
                    project_id: project_id as int,
                    tag_id: tag_id as int,
                },
            ));
            assert(self.model() =~~= with_attached(m, project_id as int, tag_id as int));
        }
        Ok(())
    }

    fn remove_tag_from_project(&mut self, project_id: i64, tag_id: i64) -> (r: Result<
        (),
        StorageError,
    >) {
        if !self.project_exists(project_id) || !self.tag_exists(tag_id) {
            return Err(StorageError::NotFound);
        }
        let ghost m = self.model();
        let ghost lpred = |l: ProjectTagV| !(l.project_id == project_id as int && l.tag_id == tag_id
            as int);
        let mut kept: Vec<ProjectTag> = Vec::new();
        let n = self.links.len();
        let mut i: usize = 0;
        proof {
            reveal(Seq::filter);
            assert(kept.deep_view() =~= m.links.take(0).filter(lpred));
        }
        while i < n
            invariant
                n == self.links.len(),
                m == self.model(),
                lpred == (|l: ProjectTagV| !(l.project_id == project_id as int && l.tag_id == tag_id
                    as int)),
                i <= n,
                kept.deep_view() == m.links.take(i as int).filter(lpred),
            decreases n - i,
        {
            let ghost pre = kept.deep_view();
            if !(self.links[i].project_id == project_id && self.links[i].tag_id == tag_id) {
                kept.push(self.links[i].clone());
                proof {
                    assert(kept.deep_view() =~= pre.push(m.links[i as int]));
                }
            }
            proof {
                lemma_filter_take_succ(m.links, lpred, i as int);
                assert(kept.deep_view() =~= m.links.take(i as int + 1).filter(lpred));
            }
            i = i + 1;
        }
        self.links = kept;
        proof {
            assert(m.links.take(n as int) =~= m.links);
            assert(self.model() =~~= with_detached(m, project_id as int, tag_id as int));
            lemma_wf_detached(m, project_id as int, tag_id as int);
        }
        Ok(())
    }

    fn add_feature(&mut self, project_id: i64, description: String) -> (r: Result<
        Feature,
        StorageError,
    >) {
        if !self.project_exists(project_id) {
            return Err(StorageError::NotFound);
        }
        if self.next_feature_id == i64::MAX {
            return Err(StorageError::Storage);
        }
        let ghost m = self.model();
        let f = Feature {
            id: self.next_feature_id,
            project_id: project_id,
            description: description,
            completed: false,
            created_at: self.now,
        };
        self.features.push(f.clone());
        self.next_feature_id = self.next_feature_id + 1;
        proof {
            lemma_wf_added_feature(m, project_id as int, f.description@);
            assert(self.features.deep_view() =~= m.features.push(f@));
            assert(self.model() =~~= with_added_feature(m, project_id as int, f.description@));
        }
        Ok(f)
    }

    fn get_project_features(&self, project_id: i64) -> (r: Result<Vec<Feature>, StorageError>) {
        if !self.project_exists(project_id) {
            return Err(StorageError::NotFound);
        }
        Ok(self.collect_features(project_id))
    }

    fn remove_feature(&mut self, feature_id: i64) -> (r: Result<(), StorageError>) {
        if !self.feature_exists(feature_id) {
            return Err(StorageError::NotFound);
        }
        let ghost m = self.model();
        let ghost fpred = |f: FeatureV| f.id != feature_id as int;
        let mut kept: Vec<Feature> = Vec::new();
        let n = self.features.len();
        let mut i: usize = 0;
        proof {
            reveal(Seq::filter);
            assert(kept.deep_view() =~= m.features.take(0).filter(fpred));
        }
        while i < n
            invariant
                n == self.features.len(),
                m == self.model(),
                fpred == (|f: FeatureV| f.id != feature_id as int),
                i <= n,
                kept.deep_view() == m.features.take(i as int).filter(fpred),
            decreases n - i,
        {
            let ghost pre = kept.deep_view();
            if self.features[i].id != feature_id {
                kept.push(self.features[i].clone());
                proof {
                    assert(kept.deep_view() =~= pre.push(m.features[i as int]));
                }
            }
            proof {
                lemma_filter_take_succ(m.features, fpred, i as int);
                assert(kept.deep_view() =~= m.features.take(i as int + 1).filter(fpred));
            }
            i = i + 1;
        }
        self.features = kept;
        proof {
            assert(m.features.take(n as int) =~= m.features);
            assert(self.model() =~~= with_removed_feature(m, feature_id as int));
            lemma_wf_removed_feature(m, feature_id as int);
        }
        Ok(())
    }
}

} // verus!
