//! Behaviour of the in-memory storage engine against the storage interface.

use cosmi_kit::database::ProjectDatabase;
use cosmi_kit::memory::MemStore;
use cosmi_kit::StorageError;

#[test]
fn created_projects_are_listed_newest_first_with_empty_relations() {
    let mut s = MemStore::new();
    s.set_time(100);
    let a = s.create_project("Alpha".to_string(), None).unwrap();
    s.set_time(200);
    let b = s.create_project("Beta".to_string(), Some("second".to_string())).unwrap();
    s.set_time(300);
    let c = s.create_project("Gamma".to_string(), None).unwrap();

    let listing = s.get_all_projects().unwrap();
    assert_eq!(listing.len(), 3);
    assert_eq!(listing[0].project.id, c.id);
    assert_eq!(listing[0].project.name, "Gamma");
    assert_eq!(listing[1].project.id, b.id);
    assert_eq!(listing[2].project.id, a.id);
    assert!(listing[0].project.created_at >= listing[1].project.created_at);
    assert!(listing[1].project.created_at >= listing[2].project.created_at);
    for entry in &listing {
        assert!(entry.tags.is_empty());
        assert!(entry.features.is_empty());
    }
}

#[test]
fn create_project_returns_the_stored_record() {
    let mut s = MemStore::new();
    s.set_time(1234);
    let p = s.create_project("Alpha".to_string(), None).unwrap();
    assert!(p.id > 0);
    assert_eq!(p.name, "Alpha");
    assert!(p.description.is_none());
    assert!(p.created_at >= 1234);

    let listing = s.get_all_projects().unwrap();
    assert!(listing.iter().any(|e| e.project.id == p.id && e.project.name == "Alpha"));
}

#[test]
fn create_project_rejects_an_empty_name() {
    let mut s = MemStore::new();
    let r = s.create_project(String::new(), None);
    assert!(matches!(r, Err(StorageError::Storage)));
    assert_eq!(s.get_all_projects().unwrap().len(), 0);
}

#[test]
fn attach_is_idempotent_and_the_tag_is_listed_once() {
    let mut s = MemStore::new();
    let p = s.create_project("Alpha".to_string(), None).unwrap();
    let t = s.create_tag("urgent".to_string()).unwrap();

    s.add_tag_to_project(p.id, t.id).unwrap();
    s.add_tag_to_project(p.id, t.id).unwrap();

    let listing = s.get_all_projects().unwrap();
    let entry = listing.iter().find(|e| e.project.id == p.id).unwrap();
    let occurrences = entry.tags.iter().filter(|x| x.id == t.id).count();
    assert_eq!(occurrences, 1);

    let tags = s.get_project_tags(p.id).unwrap();
    assert_eq!(tags.len(), 1);
    assert_eq!(tags[0].name, "urgent");
}

#[test]
fn attach_with_an_unknown_id_is_not_found() {
    let mut s = MemStore::new();
    let p = s.create_project("Alpha".to_string(), None).unwrap();
    assert!(matches!(s.add_tag_to_project(p.id, 77), Err(StorageError::NotFound)));
    assert!(matches!(s.add_tag_to_project(77, 1), Err(StorageError::NotFound)));
}

#[test]
fn detach_removes_the_association_only() {
    let mut s = MemStore::new();
    let p = s.create_project("Alpha".to_string(), None).unwrap();
    let t = s.create_tag("urgent".to_string()).unwrap();
    s.add_tag_to_project(p.id, t.id).unwrap();
    s.remove_tag_from_project(p.id, t.id).unwrap();

    assert_eq!(s.get_project_tags(p.id).unwrap().len(), 0);
    // the tag itself survives
    assert_eq!(s.get_all_tags().unwrap().len(), 1);
    // detaching an unattached pair still succeeds
    s.remove_tag_from_project(p.id, t.id).unwrap();
    // an invalid id does not
    assert!(matches!(s.remove_tag_from_project(p.id, 99), Err(StorageError::NotFound)));
}

#[test]
fn delete_project_cascades_and_repeats_report_not_found() {
    let mut s = MemStore::new();
    let p = s.create_project("Alpha".to_string(), None).unwrap();
    let q = s.create_project("Beta".to_string(), None).unwrap();
    let t = s.create_tag("urgent".to_string()).unwrap();
    s.add_tag_to_project(p.id, t.id).unwrap();
    s.add_feature(p.id, "first feature".to_string()).unwrap();
    s.add_feature(p.id, "second feature".to_string()).unwrap();

    s.delete_project(p.id).unwrap();

    let listing = s.get_all_projects().unwrap();
    assert_eq!(listing.len(), 1);
    assert_eq!(listing[0].project.id, q.id);
    // the tag itself survives the cascade; only the association went
    assert_eq!(s.get_all_tags().unwrap().len(), 1);
    // the project's features went with it
    assert!(matches!(s.get_project_features(p.id), Err(StorageError::NotFound)));
    // deleting again reports not-found and changes nothing
    assert!(matches!(s.delete_project(p.id), Err(StorageError::NotFound)));
    assert_eq!(s.get_all_projects().unwrap().len(), 1);
}

#[test]
fn duplicate_tag_names_are_a_conflict() {
    let mut s = MemStore::new();
    let t = s.create_tag("urgent".to_string()).unwrap();
    assert!(t.id > 0);
    assert!(t.color.is_none());
    assert!(matches!(s.create_tag("urgent".to_string()), Err(StorageError::Conflict)));
    assert!(matches!(s.create_tag(String::new()), Err(StorageError::Storage)));
    assert_eq!(s.get_all_tags().unwrap().len(), 1);
}

#[test]
fn features_list_newest_first_and_removal_is_exact() {
    let mut s = MemStore::new();
    let p = s.create_project("Alpha".to_string(), None).unwrap();
    s.set_time(10);
    let f1 = s.add_feature(p.id, "first".to_string()).unwrap();
    assert!(!f1.completed);
    assert_eq!(f1.created_at, 10);
    s.set_time(20);
    let f2 = s.add_feature(p.id, "second".to_string()).unwrap();

    let features = s.get_project_features(p.id).unwrap();
    assert_eq!(features.len(), 2);
    assert_eq!(features[0].id, f2.id);
    assert_eq!(features[0].description, "second");
    assert_eq!(features[1].id, f1.id);

    s.remove_feature(f1.id).unwrap();
    let features = s.get_project_features(p.id).unwrap();
    assert_eq!(features.len(), 1);
    assert_eq!(features[0].id, f2.id);
    assert!(matches!(s.remove_feature(f1.id), Err(StorageError::NotFound)));
}

#[test]
fn add_feature_to_an_unknown_project_is_not_found() {
    let mut s = MemStore::new();
    assert!(matches!(
        s.add_feature(5, "orphan".to_string()),
        Err(StorageError::NotFound)
    ));
    assert_eq!(s.get_all_projects().unwrap().len(), 0);
}

#[test]
fn the_store_clock_never_moves_backward() {
    let mut s = MemStore::new();
    s.set_time(100);
    s.set_time(50);
    let p = s.create_project("Alpha".to_string(), None).unwrap();
    assert_eq!(p.created_at, 100);
}

#[test]
fn equal_creation_times_still_list_newest_insertion_first() {
    let mut s = MemStore::new();
    s.set_time(500);
    let a = s.create_project("Alpha".to_string(), None).unwrap();
    let b = s.create_project("Beta".to_string(), None).unwrap();
    assert_eq!(a.created_at, b.created_at);
    let listing = s.get_all_projects().unwrap();
    assert_eq!(listing[0].project.id, b.id);
    assert_eq!(listing[1].project.id, a.id);
}

#[test]
fn tag_queries_for_an_unknown_project_are_not_found() {
    let s = MemStore::new();
    assert!(matches!(s.get_project_tags(3), Err(StorageError::NotFound)));
    assert!(matches!(s.get_project_features(3), Err(StorageError::NotFound)));
}
