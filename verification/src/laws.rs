//! Laws of the store model: what listings show after creates, the
//! idempotence of attaching, the delete cascade, and that a created project
//! is listed. Each is stated over the model transitions that the storage
//! interface's contracts are written in, so it holds of every verified
//! store.

use vstd::prelude::*;

use crate::entities::{FeatureV, ProjectTagV, TagV};
use crate::store_model::{
    has_project, has_tag, lemma_wf_attached, lemma_wf_created_project, lemma_wf_deleted_project,
    link_exists, listing, new_project_of, tag_with_id, tags_of, wf, with_attached,
    with_created_project, with_deleted_project, StoreModel,
};

verus! {

/// Filtering keeps a sequence whole when the predicate holds everywhere.
proof fn lemma_filter_all_true<A>(s: Seq<A>, p: spec_fn(A) -> bool)
    requires
        forall|i: int| 0 <= i < s.len() ==> p(#[trigger] s[i]),
    ensures
        s.filter(p) == s,
    decreases s.len(),
{
    reveal(Seq::filter);
    if s.len() != 0 {
        lemma_filter_all_true(s.drop_last(), p);
        assert(s.filter(p) =~= s);
    }
}

/// A filter-map that maps everything away yields the empty sequence.
proof fn lemma_filter_map_all_none<A, B>(s: Seq<A>, f: spec_fn(A) -> Option<B>)
    requires
        forall|i: int| 0 <= i < s.len() ==> f(#[trigger] s[i]) is None,
    ensures
        s.filter_map(f) == Seq::<B>::empty(),
    decreases s.len(),
{
    reveal(Seq::filter_map);
    if s.len() != 0 {
        lemma_filter_map_all_none(s.drop_last(), f);
        assert(s.filter_map(f) =~= Seq::<B>::empty());
    }
}

/// When link pairs are unique and the pair occurs, filtering for the pair
/// yields exactly one row.
proof fn lemma_filter_unique_pair(links: Seq<ProjectTagV>, project_id: int, tag_id: int)
    requires
        forall|i: int, j: int|
            0 <= i < j < links.len() ==> !((#[trigger] links[i]).project_id
                == (#[trigger] links[j]).project_id && links[i].tag_id == links[j].tag_id),
        exists|i: int|
            0 <= i < links.len() && (#[trigger] links[i]).project_id == project_id
                && links[i].tag_id == tag_id,
    ensures
        links.filter(
            |l: ProjectTagV| l.project_id == project_id && l.tag_id == tag_id,
        ).len() == 1,
    decreases links.len(),
{
    reveal(Seq::filter);
    let p = |l: ProjectTagV| l.project_id == project_id && l.tag_id == tag_id;
    let w = choose|i: int|
        0 <= i < links.len() && (#[trigger] links[i]).project_id == project_id && links[i].tag_id
            == tag_id;
    let rest = links.drop_last();
    if w == links.len() - 1 {
        // the matching row is the last one, and it is the only one
        assert forall|i: int| 0 <= i < rest.len() implies !p(#[trigger] rest[i]) by {
            assert(rest[i] == links[i]);
        }
        lemma_filter_all_false(rest, p);
    } else {
        assert(rest[w] == links[w]);
        assert(!p(links[links.len() - 1]));
        lemma_filter_unique_pair(rest, project_id, tag_id);
    }
}

/// Filtering removes a sequence entirely when the predicate holds nowhere.
proof fn lemma_filter_all_false<A>(s: Seq<A>, p: spec_fn(A) -> bool)
    requires
        forall|i: int| 0 <= i < s.len() ==> !p(#[trigger] s[i]),
    ensures
        s.filter(p) == Seq::<A>::empty(),
    decreases s.len(),
{
    reveal(Seq::filter);
    if s.len() != 0 {
        lemma_filter_all_false(s.drop_last(), p);
        assert(s.filter(p) =~= Seq::<A>::empty());
    }
}

/// Counting matches in the tag list derived from the links equals counting
/// the links themselves, provided looking a link's tag up yields a tag with
/// that very id.
proof fn lemma_tag_occurrence_count(
    links: Seq<ProjectTagV>,
    tags: Seq<TagV>,
    project_id: int,
    tag_id: int,
)
    requires
        forall|i: int|
            0 <= i < links.len() ==> tag_with_id(tags, (#[trigger] links[i]).tag_id).id
                == links[i].tag_id,
    ensures
        links.filter_map(
            |l: ProjectTagV|
                if l.project_id == project_id {
                    Some(tag_with_id(tags, l.tag_id))
                } else {
                    None
                },
        ).filter(|t: TagV| t.id == tag_id).len() == links.filter(
            |l: ProjectTagV| l.project_id == project_id && l.tag_id == tag_id,
        ).len(),
    decreases links.len(),
{
    reveal(Seq::filter);
    reveal(Seq::filter_map);
    let f = |l: ProjectTagV|
        if l.project_id == project_id {
            Some(tag_with_id(tags, l.tag_id))
        } else {
            None
        };
    let tp = |t: TagV| t.id == tag_id;
    let lp = |l: ProjectTagV| l.project_id == project_id && l.tag_id == tag_id;
    if links.len() != 0 {
        let rest = links.drop_last();
        assert forall|i: int| 0 <= i < rest.len() implies tag_with_id(
            tags,
            (#[trigger] rest[i]).tag_id,
        ).id == rest[i].tag_id by {
            assert(rest[i] == links[i]);
        }
        lemma_tag_occurrence_count(rest, tags, project_id, tag_id);
        let last = links.last();
        if f(last) is Some {
            assert(links.filter_map(f) == rest.filter_map(f).push(f(last)->0));
            assert(links.filter_map(f).drop_last() == rest.filter_map(f));
        }
    }
}

/// After any number of creates on a store whose link and feature tables are
/// empty, the listing holds exactly the stored projects, newest first, each
/// with no tags and no features. Together with the create transition — which
/// appends one project and touches no other table — this covers every
/// sequence of creates from the empty store.
pub proof fn lemma_listing_of_fresh_projects(m: StoreModel)
    requires
        wf(m),
        m.links == Seq::<ProjectTagV>::empty(),
        m.features == Seq::<FeatureV>::empty(),
    ensures
        listing(m).len() == m.projects.len(),
        forall|i: int|
            0 <= i < listing(m).len() ==> (#[trigger] listing(m)[i]).project == m.projects[
                m.projects.len() - 1 - i
            ] && listing(m)[i].tags == Seq::<TagV>::empty() && listing(m)[i].features == Seq::<
                FeatureV,
            >::empty(),
        forall|i: int, j: int|
            0 <= i < j < listing(m).len() ==> (#[trigger] listing(m)[i]).project.created_at
                >= (#[trigger] listing(m)[j]).project.created_at,
{
    reveal(Seq::filter_map);
    assert(m.features.reverse() =~= Seq::<FeatureV>::empty());
    assert forall|i: int| 0 <= i < listing(m).len() implies (#[trigger] listing(m)[i]).project
        == m.projects[m.projects.len() - 1 - i] && listing(m)[i].tags == Seq::<TagV>::empty()
        && listing(m)[i].features == Seq::<FeatureV>::empty() by {
        assert(m.projects.reverse()[i] == m.projects[m.projects.len() - 1 - i]);
        assert(tags_of(m, m.projects.reverse()[i].id) == Seq::<TagV>::empty());
        assert(crate::store_model::features_of(m, m.projects.reverse()[i].id) == Seq::<
            FeatureV,
        >::empty());
    }
}

/// The create transition appends exactly one project and leaves the tag,
/// link and feature tables untouched: the induction step behind
/// `lemma_listing_of_fresh_projects`.
pub proof fn lemma_create_project_appends(m: StoreModel, name: Seq<char>, desc: Option<Seq<char>>)
    ensures
        with_created_project(m, name, desc).projects == m.projects.push(
            new_project_of(m, name, desc),
        ),
        with_created_project(m, name, desc).tags == m.tags,
        with_created_project(m, name, desc).links == m.links,
        with_created_project(m, name, desc).features == m.features,
{
}

/// Attaching a tag twice is the same as attaching it once.
pub proof fn lemma_attach_idempotent(m: StoreModel, project_id: int, tag_id: int)
    requires
        wf(m),
        has_project(m, project_id),
        has_tag(m, tag_id),
        link_exists(m, project_id, tag_id) || m.next_link_id < i64::MAX,
    ensures
        with_attached(with_attached(m, project_id, tag_id), project_id, tag_id) == with_attached(
            m,
            project_id,
            tag_id,
        ),
{
    lemma_wf_attached(m, project_id, tag_id);
}

/// After attaching, the project's tag list holds the tag exactly once —
/// however often the pair was attached before.
pub proof fn lemma_attach_exactly_once(m: StoreModel, project_id: int, tag_id: int)
    requires
        wf(m),
        has_project(m, project_id),
        has_tag(m, tag_id),
        link_exists(m, project_id, tag_id) || m.next_link_id < i64::MAX,
    ensures
        tags_of(with_attached(m, project_id, tag_id), project_id).filter(
            |t: TagV| t.id == tag_id,
        ).len() == 1,
{
    lemma_wf_attached(m, project_id, tag_id);
    let m2 = with_attached(m, project_id, tag_id);
    assert forall|i: int| 0 <= i < m2.links.len() implies tag_with_id(
        m2.tags,
        (#[trigger] m2.links[i]).tag_id,
    ).id == m2.links[i].tag_id by {
        assert(has_tag(m2, m2.links[i].tag_id));
        let c = choose|c: int|
            0 <= c < m2.tags.len() && (#[trigger] m2.tags[c]).id == m2.links[i].tag_id;
        assert(tag_with_id(m2.tags, m2.links[i].tag_id) == m2.tags[choose|k: int|
            0 <= k < m2.tags.len() && (#[trigger] m2.tags[k]).id == m2.links[i].tag_id]);
    }
    lemma_tag_occurrence_count(m2.links, m2.tags, project_id, tag_id);
    lemma_filter_unique_pair(m2.links, project_id, tag_id);
}

/// Deleting a project removes it from the listing, cascades over every link
/// and feature that referenced it, and deleting it again changes nothing.
pub proof fn lemma_delete_cascades(m: StoreModel, id: int)
    requires
        wf(m),
    ensures
        !has_project(with_deleted_project(m, id), id),
        forall|i: int|
            0 <= i < listing(with_deleted_project(m, id)).len() ==> (#[trigger] listing(
                with_deleted_project(m, id),
            )[i]).project.id != id,
        forall|i: int|
            0 <= i < with_deleted_project(m, id).links.len() ==> (#[trigger] with_deleted_project(
                m,
                id,
            ).links[i]).project_id != id,
        forall|i: int|
            0 <= i < with_deleted_project(m, id).features.len() ==> (
            #[trigger] with_deleted_project(m, id).features[i]).project_id != id,
        with_deleted_project(with_deleted_project(m, id), id) == with_deleted_project(m, id),
{
    broadcast use vstd::seq_lib::group_filter_ensures;

    lemma_wf_deleted_project(m, id);
    let m2 = with_deleted_project(m, id);
    assert forall|i: int| 0 <= i < listing(m2).len() implies (#[trigger] listing(m2)[i]).project.id
        != id by {
        assert(listing(m2)[i].project == m2.projects.reverse()[i]);
        assert(m2.projects.reverse()[i] == m2.projects[m2.projects.len() - 1 - i]);
    }
    lemma_filter_all_true(m2.projects, |p: crate::entities::ProjectV| p.id != id);
    lemma_filter_all_true(m2.links, |l: ProjectTagV| l.project_id != id);
    lemma_filter_all_true(m2.features, |f: FeatureV| f.project_id != id);
    assert(with_deleted_project(m2, id) =~~= m2);
}

/// A successful create returns a record with a store-assigned positive id,
/// the given name and description, and the store clock as its creation
/// time; the listing taken afterwards shows it first, with no tags and no
/// features.
pub proof fn lemma_created_project_listed(m: StoreModel, name: Seq<char>, desc: Option<Seq<char>>)
    requires
        wf(m),
        crate::store_model::can_create_project(m, name),
    ensures
        new_project_of(m, name, desc).id >= 1,
        new_project_of(m, name, desc).name == name,
        new_project_of(m, name, desc).description == desc,
        new_project_of(m, name, desc).created_at == m.now,
        listing(with_created_project(m, name, desc)).len() == m.projects.len() + 1,
        listing(with_created_project(m, name, desc))[0].project == new_project_of(m, name, desc),
        listing(with_created_project(m, name, desc))[0].tags == Seq::<TagV>::empty(),
        listing(with_created_project(m, name, desc))[0].features == Seq::<FeatureV>::empty(),
{
    lemma_wf_created_project(m, name, desc);
    let m2 = with_created_project(m, name, desc);
    let p = new_project_of(m, name, desc);
    assert(m2.projects.reverse()[0] == m2.projects[m2.projects.len() - 1]);
    assert(m2.projects[m2.projects.len() - 1] == p);
    assert forall|i: int| 0 <= i < m2.links.len() implies ((|l: ProjectTagV|
        if l.project_id == p.id {
            Some(tag_with_id(m2.tags, l.tag_id))
        } else {
            None
        })(#[trigger] m2.links[i])) is None by {
        assert(has_project(m, m.links[i].project_id));
        let w = choose|w: int|
            0 <= w < m.projects.len() && (#[trigger] m.projects[w]).id == m.links[i].project_id;
        assert(m.projects[w].id < m.next_project_id);
    }
    lemma_filter_map_all_none(
        m2.links,
        |l: ProjectTagV|
            if l.project_id == p.id {
                Some(tag_with_id(m2.tags, l.tag_id))
            } else {
                None
            },
    );
    assert forall|i: int| 0 <= i < m2.features.reverse().len() implies ((|f: FeatureV|
        if f.project_id == p.id {
            Some(f)
        } else {
            None
        })(#[trigger] m2.features.reverse()[i])) is None by {
        let k = m2.features.len() - 1 - i;
        assert(m2.features.reverse()[i] == m2.features[k]);
        assert(has_project(m, m.features[k].project_id));
        let w = choose|w: int|
            0 <= w < m.projects.len() && (#[trigger] m.projects[w]).id == m.features[k].project_id;
        assert(m.projects[w].id < m.next_project_id);
    }
    lemma_filter_map_all_none(
        m2.features.reverse(),
        |f: FeatureV|
            if f.project_id == p.id {
                Some(f)
            } else {
                None
            },
    );
}

} // verus!
