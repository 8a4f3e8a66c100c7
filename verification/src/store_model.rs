//! The mathematical model of the project store: its state, the transition
//! that each storage operation performs, and the derived listing that the
//! read-model aggregate is built from.

use vstd::prelude::*;

use crate::entities::{FeatureV, ProjectJoinV, ProjectTagV, ProjectV, TagV};

verus! {

/// The abstract state of a project store.
///
/// Rows are kept in insertion order. Ids are assigned from the `next_*`
/// counters, so within each table they strictly increase with insertion;
/// `now` is the store's clock, which only moves forward, so creation times
/// are non-decreasing in insertion order.
#[verifier::ext_equal]
pub struct StoreModel {
    pub projects: Seq<ProjectV>,
    pub tags: Seq<TagV>,
    pub links: Seq<ProjectTagV>,
    pub features: Seq<FeatureV>,
    pub now: int,
    pub next_project_id: int,
    pub next_tag_id: int,
    pub next_link_id: int,
    pub next_feature_id: int,
}

pub open spec fn has_project(m: StoreModel, id: int) -> bool {
    exists|i: int| 0 <= i < m.projects.len() && (#[trigger] m.projects[i]).id == id
}

pub open spec fn has_tag(m: StoreModel, id: int) -> bool {
    exists|i: int| 0 <= i < m.tags.len() && (#[trigger] m.tags[i]).id == id
}

pub open spec fn has_feature(m: StoreModel, id: int) -> bool {
    exists|i: int| 0 <= i < m.features.len() && (#[trigger] m.features[i]).id == id
}

pub open spec fn tag_name_taken(m: StoreModel, name: Seq<char>) -> bool {
    exists|i: int| 0 <= i < m.tags.len() && (#[trigger] m.tags[i]).name == name
}

pub open spec fn link_exists(m: StoreModel, project_id: int, tag_id: int) -> bool {
    exists|i: int|
        0 <= i < m.links.len() && (#[trigger] m.links[i]).project_id == project_id
            && m.links[i].tag_id == tag_id
}

/// The tag with the given id; well defined whenever the ids in `tags` are
/// unique and the id is present.
pub open spec fn tag_with_id(tags: Seq<TagV>, id: int) -> TagV {
    tags[choose|i: int| 0 <= i < tags.len() && (#[trigger] tags[i]).id == id]
}

/// Well-formedness of the store state.
pub open spec fn wf(m: StoreModel) -> bool {
    &&& 1 <= m.next_project_id <= i64::MAX
    &&& 1 <= m.next_tag_id <= i64::MAX
    &&& 1 <= m.next_link_id <= i64::MAX
    &&& 1 <= m.next_feature_id <= i64::MAX
    &&& 0 <= m.now <= i64::MAX
    &&& forall|i: int|
        0 <= i < m.projects.len() ==> {
            &&& 1 <= (#[trigger] m.projects[i]).id < m.next_project_id
            &&& 0 <= m.projects[i].created_at <= m.now
            &&& m.projects[i].name.len() > 0
        }
    &&& forall|i: int, j: int|
        0 <= i < j < m.projects.len() ==> (#[trigger] m.projects[i]).id
            < (#[trigger] m.projects[j]).id && m.projects[i].created_at
            <= m.projects[j].created_at
    &&& forall|i: int|
        0 <= i < m.tags.len() ==> {
            &&& 1 <= (#[trigger] m.tags[i]).id < m.next_tag_id
            &&& m.tags[i].name.len() > 0
        }
    &&& forall|i: int, j: int|
        0 <= i < j < m.tags.len() ==> (#[trigger] m.tags[i]).id < (#[trigger] m.tags[j]).id
            && m.tags[i].name != m.tags[j].name
    &&& forall|i: int|
        0 <= i < m.links.len() ==> {
            &&& 1 <= (#[trigger] m.links[i]).id < m.next_link_id
            &&& has_project(m, m.links[i].project_id)
            &&& has_tag(m, m.links[i].tag_id)
        }
    &&& forall|i: int, j: int|
        0 <= i < j < m.links.len() ==> (#[trigger] m.links[i]).id < (#[trigger] m.links[j]).id
            && !(m.links[i].project_id == m.links[j].project_id && m.links[i].tag_id
            == m.links[j].tag_id)
    &&& forall|i: int|
        0 <= i < m.features.len() ==> {
            &&& 1 <= (#[trigger] m.features[i]).id < m.next_feature_id
            &&& 0 <= m.features[i].created_at <= m.now
            &&& has_project(m, m.features[i].project_id)
        }
    &&& forall|i: int, j: int|
        0 <= i < j < m.features.len() ==> (#[trigger] m.features[i]).id
            < (#[trigger] m.features[j]).id && m.features[i].created_at
            <= m.features[j].created_at
}

/// The empty store, as a freshly initialised engine presents it.
pub open spec fn empty_store() -> StoreModel {
    StoreModel {
        projects: Seq::empty(),
        tags: Seq::empty(),
        links: Seq::empty(),
        features: Seq::empty(),
        now: 0,
        next_project_id: 1,
        next_tag_id: 1,
        next_link_id: 1,
        next_feature_id: 1,
    }
}

/// Advancing the clock: time never moves backward.
pub open spec fn with_time(m: StoreModel, t: int) -> StoreModel {
    if t > m.now {
        StoreModel { now: t, ..m }
    } else {
        m
    }
}

/// The project that a successful create returns.
pub open spec fn new_project_of(m: StoreModel, name: Seq<char>, description: Option<Seq<char>>)
    -> ProjectV {
    ProjectV { id: m.next_project_id, name: name, description: description, created_at: m.now }
}

/// A create succeeds exactly when the name is non-empty and the id space is
/// not exhausted.
pub open spec fn can_create_project(m: StoreModel, name: Seq<char>) -> bool {
    name.len() > 0 && m.next_project_id < i64::MAX
}

pub open spec fn with_created_project(
    m: StoreModel,
    name: Seq<char>,
    description: Option<Seq<char>>,
) -> StoreModel {
    StoreModel {
        projects: m.projects.push(new_project_of(m, name, description)),
        next_project_id: m.next_project_id + 1,
        ..m
    }
}

/// Deleting a project cascades: its tag associations and its features are
/// removed with it; other rows keep their order.
pub open spec fn with_deleted_project(m: StoreModel, id: int) -> StoreModel {
    StoreModel {
        projects: m.projects.filter(|p: ProjectV| p.id != id),
        links: m.links.filter(|l: ProjectTagV| l.project_id != id),
        features: m.features.filter(|f: FeatureV| f.project_id != id),
        ..m
    }
}

/// The tag that a successful create returns.
pub open spec fn new_tag_of(m: StoreModel, name: Seq<char>) -> TagV {
    TagV { id: m.next_tag_id, name: name, color: None }
}

/// Creating a tag with a taken name is rejected as a conflict; this spec
/// covers only the storage-level side conditions.
pub open spec fn can_create_tag(m: StoreModel, name: Seq<char>) -> bool {
    name.len() > 0 && m.next_tag_id < i64::MAX && !tag_name_taken(m, name)
}

pub open spec fn with_created_tag(m: StoreModel, name: Seq<char>) -> StoreModel {
    StoreModel { tags: m.tags.push(new_tag_of(m, name)), next_tag_id: m.next_tag_id + 1, ..m }
}

/// Attaching is idempotent: an existing association is left alone.
pub open spec fn with_attached(m: StoreModel, project_id: int, tag_id: int) -> StoreModel {
    if link_exists(m, project_id, tag_id) {
        m
    } else {
        StoreModel {
            links: m.links.push(
                ProjectTagV { id: m.next_link_id, project_id: project_id, tag_id: tag_id },
            ),
            next_link_id: m.next_link_id + 1,
            ..m
        }
    }
}

pub open spec fn with_detached(m: StoreModel, project_id: int, tag_id: int) -> StoreModel {
    StoreModel {
        links: m.links.filter(
            |l: ProjectTagV| !(l.project_id == project_id && l.tag_id == tag_id),
        ),
        ..m
    }
}

/// The feature that a successful add returns: not yet completed, stamped
/// with the store's clock.
pub open spec fn new_feature_of(m: StoreModel, project_id: int, description: Seq<char>)
    -> FeatureV {
    FeatureV {
        id: m.next_feature_id,
        project_id: project_id,
        description: description,
        completed: false,
        created_at: m.now,
    }
}

pub open spec fn with_added_feature(m: StoreModel, project_id: int, description: Seq<char>)
    -> StoreModel {
    StoreModel {
        features: m.features.push(new_feature_of(m, project_id, description)),
        next_feature_id: m.next_feature_id + 1,
        ..m
    }
}

pub open spec fn with_removed_feature(m: StoreModel, feature_id: int) -> StoreModel {
    StoreModel { features: m.features.filter(|f: FeatureV| f.id != feature_id), ..m }
}

/// The tags attached to one project, in order of attachment.
pub open spec fn tags_of(m: StoreModel, project_id: int) -> Seq<TagV> {
    m.links.filter_map(
        |l: ProjectTagV|
            if l.project_id == project_id {
                Some(tag_with_id(m.tags, l.tag_id))
            } else {
                None
            },
    )
}

/// The features of one project, newest first.
pub open spec fn features_of(m: StoreModel, project_id: int) -> Seq<FeatureV> {
    m.features.reverse().filter_map(
        |f: FeatureV|
            if f.project_id == project_id {
                Some(f)
            } else {
                None
            },
    )
}

/// The full read-model listing: every project, ordered by creation time
/// descending (ties broken towards the later insertion), each with its tags
/// and its features.
pub open spec fn listing(m: StoreModel) -> Seq<ProjectJoinV> {
    m.projects.reverse().map_values(
        |p: ProjectV|
            ProjectJoinV { project: p, tags: tags_of(m, p.id), features: features_of(m, p.id) },
    )
}

/// Filtering a sequence preserves any pairwise relation between its
/// elements, because it keeps their relative order.
pub proof fn lemma_filter_pairwise<A>(s: Seq<A>, pred: spec_fn(A) -> bool, r: spec_fn(A, A) -> bool)
    requires
        forall|i: int, j: int| #![trigger s[i], s[j]] 0 <= i < j < s.len() ==> r(s[i], s[j]),
    ensures
        forall|i: int, j: int|
            #![trigger s.filter(pred)[i], s.filter(pred)[j]]
            0 <= i < j < s.filter(pred).len() ==> r(s.filter(pred)[i], s.filter(pred)[j]),
    decreases s.len(),
{
    broadcast use vstd::seq_lib::group_filter_ensures;
    broadcast use Seq::lemma_filter_contains_rev;

    reveal(Seq::filter);
    if s.len() != 0 {
        let rest = s.drop_last();
        lemma_filter_pairwise(rest, pred, r);
        let f = s.filter(pred);
        let fr = rest.filter(pred);
        assert forall|i: int, j: int| 0 <= i < j < f.len() implies r(f[i], f[j]) by {
            if pred(s.last()) {
                assert(f == fr.push(s.last()));
                if j < fr.len() {
                    assert(f[i] == fr[i] && f[j] == fr[j]);
                } else {
                    assert(f[i] == fr[i]);
                    assert(fr.contains(fr[i]));
                    assert(rest.contains(fr[i]));
                    let k = choose|k: int| 0 <= k < rest.len() && rest[k] == fr[i];
                    assert(s[k] == fr[i] && s[s.len() - 1] == s.last());
                }
            } else {
                assert(f == fr);
                assert(f[i] == fr[i] && f[j] == fr[j]);
            }
        }
    }
}

/// Advancing the clock preserves well-formedness.
pub proof fn lemma_wf_with_time(m: StoreModel, t: int)
    requires
        wf(m),
        t <= i64::MAX,
    ensures
        wf(with_time(m, t)),
        with_time(m, t).now >= t,
        with_time(m, t).now >= m.now,
{
}

/// Creating a project appends one well-formed row and keeps every other
/// table untouched.
pub proof fn lemma_wf_created_project(m: StoreModel, name: Seq<char>, description: Option<Seq<char>>)
    requires
        wf(m),
        can_create_project(m, name),
    ensures
        wf(with_created_project(m, name, description)),
        has_project(with_created_project(m, name, description), m.next_project_id),
        forall|x: int|
            #[trigger] has_project(with_created_project(m, name, description), x) <==> (
            has_project(m, x) || x == m.next_project_id),
{
    let m2 = with_created_project(m, name, description);
    let n = m.projects.len() as int;
    assert(m2.projects[n] == new_project_of(m, name, description));
    assert forall|x: int| has_project(m, x) implies #[trigger] has_project(m2, x) by {
        let i = choose|i: int| 0 <= i < m.projects.len() && (#[trigger] m.projects[i]).id == x;
        assert(m2.projects[i].id == x);
    }
    assert forall|x: int| #[trigger] has_project(m2, x) && x != m.next_project_id implies
        has_project(m, x) by {
        let i = choose|i: int| 0 <= i < m2.projects.len() && (#[trigger] m2.projects[i]).id == x;
        assert(m.projects[i].id == x);
    }
    assert forall|i: int| 0 <= i < m2.links.len() implies has_project(
        m2,
        (#[trigger] m2.links[i]).project_id,
    ) by {
        assert(has_project(m, m.links[i].project_id));
    }
    assert forall|i: int| 0 <= i < m2.features.len() implies has_project(
        m2,
        (#[trigger] m2.features[i]).project_id,
    ) by {
        assert(has_project(m, m.features[i].project_id));
    }
}

/// Deleting a project removes exactly that project, cascades over its links
/// and features, and preserves well-formedness.
pub proof fn lemma_wf_deleted_project(m: StoreModel, id: int)
    requires
        wf(m),
    ensures
        wf(with_deleted_project(m, id)),
        !has_project(with_deleted_project(m, id), id),
        forall|x: int|
            #[trigger] has_project(with_deleted_project(m, id), x) <==> (has_project(m, x) && x
                != id),
        forall|x: int| #[trigger] has_tag(with_deleted_project(m, id), x) <==> has_tag(m, x),
{
    broadcast use vstd::seq_lib::group_filter_ensures;
    broadcast use Seq::lemma_filter_contains_rev;

    let m2 = with_deleted_project(m, id);
    let ppred = |p: ProjectV| p.id != id;
    let lpred = |l: ProjectTagV| l.project_id != id;
    let fpred = |f: FeatureV| f.project_id != id;
    assert forall|x: int| #[trigger] has_project(m2, x) implies has_project(m, x) && x != id by {
        let i = choose|i: int| 0 <= i < m2.projects.len() && (#[trigger] m2.projects[i]).id == x;
        assert(ppred(m2.projects[i]));
        assert(m2.projects.contains(m2.projects[i]));
        assert(m.projects.contains(m2.projects[i]));
        let k = choose|k: int| 0 <= k < m.projects.len() && m.projects[k] == m2.projects[i];
        assert(m.projects[k].id == x);
    }
    assert forall|x: int| has_project(m, x) && x != id implies #[trigger] has_project(m2, x) by {
        let i = choose|i: int| 0 <= i < m.projects.len() && (#[trigger] m.projects[i]).id == x;
        assert(ppred(m.projects[i]));
        assert(m2.projects.contains(m.projects[i]));
        let k = choose|k: int| 0 <= k < m2.projects.len() && m2.projects[k] == m.projects[i];
        assert(m2.projects[k].id == x);
    }
    lemma_filter_pairwise(
        m.projects,
        ppred,
        |a: ProjectV, b: ProjectV| a.id < b.id && a.created_at <= b.created_at,
    );
    lemma_filter_pairwise(
        m.links,
        lpred,
        |a: ProjectTagV, b: ProjectTagV|
            a.id < b.id && !(a.project_id == b.project_id && a.tag_id == b.tag_id),
    );
    lemma_filter_pairwise(
        m.features,
        fpred,
        |a: FeatureV, b: FeatureV| a.id < b.id && a.created_at <= b.created_at,
    );
    assert forall|i: int| 0 <= i < m2.projects.len() implies {
        &&& 1 <= (#[trigger] m2.projects[i]).id < m2.next_project_id
        &&& 0 <= m2.projects[i].created_at <= m2.now
        &&& m2.projects[i].name.len() > 0
    } by {
        assert(m2.projects.contains(m2.projects[i]));
        assert(m.projects.contains(m2.projects[i]));
    }
    assert forall|i: int| 0 <= i < m2.links.len() implies {
        &&& 1 <= (#[trigger] m2.links[i]).id < m2.next_link_id
        &&& has_project(m2, m2.links[i].project_id)
        &&& has_tag(m2, m2.links[i].tag_id)
    } by {
        assert(lpred(m2.links[i]));
        assert(m2.links.contains(m2.links[i]));
        assert(m.links.contains(m2.links[i]));
        let k = choose|k: int| 0 <= k < m.links.len() && m.links[k] == m2.links[i];
        assert(has_project(m, m.links[k].project_id));
        assert(m.links[k].project_id != id);
    }
    assert forall|i: int| 0 <= i < m2.features.len() implies {
        &&& 1 <= (#[trigger] m2.features[i]).id < m2.next_feature_id
        &&& 0 <= m2.features[i].created_at <= m2.now
        &&& has_project(m2, m2.features[i].project_id)
    } by {
        assert(fpred(m2.features[i]));
        assert(m2.features.contains(m2.features[i]));
        assert(m.features.contains(m2.features[i]));
        let k = choose|k: int| 0 <= k < m.features.len() && m.features[k] == m2.features[i];
        assert(has_project(m, m.features[k].project_id));
        assert(m.features[k].project_id != id);
    }
}

/// Creating a tag appends one row with a fresh id and a fresh name.
pub proof fn lemma_wf_created_tag(m: StoreModel, name: Seq<char>)
    requires
        wf(m),
        can_create_tag(m, name),
    ensures
        wf(with_created_tag(m, name)),
        has_tag(with_created_tag(m, name), m.next_tag_id),
        tag_name_taken(with_created_tag(m, name), name),
        forall|x: int|
            #[trigger] has_tag(with_created_tag(m, name), x) <==> (has_tag(m, x) || x
                == m.next_tag_id),
{
    let m2 = with_created_tag(m, name);
    let n = m.tags.len() as int;
    assert(m2.tags[n] == new_tag_of(m, name));
    assert forall|x: int| has_tag(m, x) implies #[trigger] has_tag(m2, x) by {
        let i = choose|i: int| 0 <= i < m.tags.len() && (#[trigger] m.tags[i]).id == x;
        assert(m2.tags[i].id == x);
    }
    assert forall|x: int| #[trigger] has_tag(m2, x) && x != m.next_tag_id implies has_tag(m, x) by {
        let i = choose|i: int| 0 <= i < m2.tags.len() && (#[trigger] m2.tags[i]).id == x;
        assert(m.tags[i].id == x);
    }
    assert forall|i: int, j: int| 0 <= i < j < m2.tags.len() implies (#[trigger] m2.tags[i]).id
        < (#[trigger] m2.tags[j]).id && m2.tags[i].name != m2.tags[j].name by {
        if j == n {
            assert(!(exists|k: int|
                0 <= k < m.tags.len() && (#[trigger] m.tags[k]).name == name));
            assert(m2.tags[i] == m.tags[i]);
        }
    }
    assert forall|i: int| 0 <= i < m2.links.len() implies has_tag(
        m2,
        (#[trigger] m2.links[i]).tag_id,
    ) by {
        assert(has_tag(m, m.links[i].tag_id));
    }
}

/// Attaching a tag preserves well-formedness and establishes the link;
/// attaching an already-attached pair leaves the store unchanged.
pub proof fn lemma_wf_attached(m: StoreModel, project_id: int, tag_id: int)
    requires
        wf(m),
        has_project(m, project_id),
        has_tag(m, tag_id),
        link_exists(m, project_id, tag_id) || m.next_link_id < i64::MAX,
    ensures
        wf(with_attached(m, project_id, tag_id)),
        link_exists(with_attached(m, project_id, tag_id), project_id, tag_id),
{
    let m2 = with_attached(m, project_id, tag_id);
    if !link_exists(m, project_id, tag_id) {
        let n = m.links.len() as int;
        assert(m2.links[n].project_id == project_id && m2.links[n].tag_id == tag_id);
        assert forall|i: int| 0 <= i < m2.links.len() implies {
            &&& 1 <= (#[trigger] m2.links[i]).id < m2.next_link_id
            &&& has_project(m2, m2.links[i].project_id)
            &&& has_tag(m2, m2.links[i].tag_id)
        } by {
            if i < n {
                assert(m2.links[i] == m.links[i]);
            }
        }
        assert forall|i: int, j: int| 0 <= i < j < m2.links.len() implies (
        #[trigger] m2.links[i]).id < (#[trigger] m2.links[j]).id && !(m2.links[i].project_id
            == m2.links[j].project_id && m2.links[i].tag_id == m2.links[j].tag_id) by {
            if j == n {
                assert(m2.links[i] == m.links[i]);
                assert(!(exists|k: int|
                    0 <= k < m.links.len() && (#[trigger] m.links[k]).project_id == project_id
                        && m.links[k].tag_id == tag_id));
            }
        }
    }
}

/// Detaching removes every link for the pair and preserves well-formedness.
pub proof fn lemma_wf_detached(m: StoreModel, project_id: int, tag_id: int)
    requires
        wf(m),
    ensures
        wf(with_detached(m, project_id, tag_id)),
        !link_exists(with_detached(m, project_id, tag_id), project_id, tag_id),
{
    broadcast use vstd::seq_lib::group_filter_ensures;
    broadcast use Seq::lemma_filter_contains_rev;

    let m2 = with_detached(m, project_id, tag_id);
    let lpred = |l: ProjectTagV| !(l.project_id == project_id && l.tag_id == tag_id);
    lemma_filter_pairwise(
        m.links,
        lpred,
        |a: ProjectTagV, b: ProjectTagV|
            a.id < b.id && !(a.project_id == b.project_id && a.tag_id == b.tag_id),
    );
    assert forall|i: int| 0 <= i < m2.links.len() implies {
        &&& 1 <= (#[trigger] m2.links[i]).id < m2.next_link_id
        &&& has_project(m2, m2.links[i].project_id)
        &&& has_tag(m2, m2.links[i].tag_id)
    } by {
        assert(m2.links.contains(m2.links[i]));
        assert(m.links.contains(m2.links[i]));
        let k = choose|k: int| 0 <= k < m.links.len() && m.links[k] == m2.links[i];
        assert(has_project(m, m.links[k].project_id));
        assert(has_tag(m, m.links[k].tag_id));
    }
    assert forall|i: int| 0 <= i < m2.links.len() implies !((#[trigger] m2.links[i]).project_id
        == project_id && m2.links[i].tag_id == tag_id) by {
        assert(lpred(m2.links[i]));
    }
}

/// Adding a feature appends one fresh, uncompleted row stamped with the
/// store's clock.
pub proof fn lemma_wf_added_feature(m: StoreModel, project_id: int, description: Seq<char>)
    requires
        wf(m),
        has_project(m, project_id),
        m.next_feature_id < i64::MAX,
    ensures
        wf(with_added_feature(m, project_id, description)),
        has_feature(with_added_feature(m, project_id, description), m.next_feature_id),
{
    let m2 = with_added_feature(m, project_id, description);
    let n = m.features.len() as int;
    assert(m2.features[n] == new_feature_of(m, project_id, description));
    assert forall|i: int| 0 <= i < m2.features.len() implies {
        &&& 1 <= (#[trigger] m2.features[i]).id < m2.next_feature_id
        &&& 0 <= m2.features[i].created_at <= m2.now
        &&& has_project(m2, m2.features[i].project_id)
    } by {
        if i < n {
            assert(m2.features[i] == m.features[i]);
        }
    }
    assert forall|i: int, j: int| 0 <= i < j < m2.features.len() implies (
    #[trigger] m2.features[i]).id < (#[trigger] m2.features[j]).id && m2.features[i].created_at
        <= m2.features[j].created_at by {
        if j == n {
            assert(m2.features[i] == m.features[i]);
        }
    }
}

/// Removing a feature removes exactly the rows with that id and preserves
/// well-formedness.
pub proof fn lemma_wf_removed_feature(m: StoreModel, feature_id: int)
    requires
        wf(m),
    ensures
        wf(with_removed_feature(m, feature_id)),
        !has_feature(with_removed_feature(m, feature_id), feature_id),
{
    broadcast use vstd::seq_lib::group_filter_ensures;
    broadcast use Seq::lemma_filter_contains_rev;

    let m2 = with_removed_feature(m, feature_id);
    let fpred = |f: FeatureV| f.id != feature_id;
    lemma_filter_pairwise(
        m.features,
        fpred,
        |a: FeatureV, b: FeatureV| a.id < b.id && a.created_at <= b.created_at,
    );
    assert forall|i: int| 0 <= i < m2.features.len() implies {
        &&& 1 <= (#[trigger] m2.features[i]).id < m2.next_feature_id
        &&& 0 <= m2.features[i].created_at <= m2.now
        &&& has_project(m2, m2.features[i].project_id)
    } by {
        assert(m2.features.contains(m2.features[i]));
        assert(m.features.contains(m2.features[i]));
        let k = choose|k: int| 0 <= k < m.features.len() && m.features[k] == m2.features[i];
        assert(has_project(m, m.features[k].project_id));
    }
    assert forall|i: int| 0 <= i < m2.features.len() implies (#[trigger] m2.features[i]).id
        != feature_id by {
        assert(fpred(m2.features[i]));
    }
}

/// Appending one element extends a filter by that element exactly when the
/// predicate holds of it.
pub proof fn lemma_filter_take_succ<A>(s: Seq<A>, pred: spec_fn(A) -> bool, i: int)
    requires
        0 <= i < s.len(),
    ensures
        s.take(i + 1).filter(pred) == s.take(i).filter(pred) + (if pred(s[i]) {
            seq![s[i]]
        } else {
            Seq::<A>::empty()
        }),
{
    reveal(Seq::filter);
    assert(s.take(i + 1).drop_last() =~= s.take(i));
    assert(s.take(i + 1).last() == s[i]);
    if pred(s[i]) {
        assert(s.take(i + 1).filter(pred) =~= s.take(i).filter(pred) + seq![s[i]]);
    } else {
        assert(s.take(i + 1).filter(pred) =~= s.take(i).filter(pred) + Seq::<A>::empty());
    }
}

} // verus!
