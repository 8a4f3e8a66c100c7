//! The data-access service fails predictably before a storage handle is
//! installed, and delegates exactly afterwards.

use cosmi_kit::database::ProjectDatabase;
use cosmi_kit::memory::MemStore;
use cosmi_kit::service::AppData;
use cosmi_kit::StorageError;

#[test]
fn every_operation_before_initialisation_is_not_initialized() {
    let mut d: AppData<MemStore> = AppData::new();
    assert!(!d.has_database());
    assert!(matches!(d.load_projects(), Err(StorageError::NotInitialized)));
    assert!(matches!(
        d.create_project("Alpha".to_string(), None),
        Err(StorageError::NotInitialized)
    ));
    assert!(matches!(d.delete_project(1), Err(StorageError::NotInitialized)));
    assert!(matches!(
        d.create_tag("urgent".to_string()),
        Err(StorageError::NotInitialized)
    ));
    assert!(matches!(d.get_all_tags(), Err(StorageError::NotInitialized)));
    assert!(matches!(d.add_tag_to_project(1, 1), Err(StorageError::NotInitialized)));
    assert!(matches!(
        d.add_feature(1, "f".to_string()),
        Err(StorageError::NotInitialized)
    ));
    assert!(matches!(d.get_project_features(1), Err(StorageError::NotInitialized)));
}

#[test]
fn failed_early_operations_leave_no_partial_state() {
    let mut d: AppData<MemStore> = AppData::new();
    let _ = d.create_project("Alpha".to_string(), None);
    let _ = d.create_tag("urgent".to_string());
    let _ = d.add_feature(1, "f".to_string());
    // installing a fresh store afterwards shows nothing was queued or kept
    d.set_database(MemStore::new());
    assert!(d.has_database());
    assert_eq!(d.load_projects().unwrap().len(), 0);
    assert_eq!(d.get_all_tags().unwrap().len(), 0);
}

#[test]
fn operations_delegate_once_the_handle_is_installed() {
    let mut d: AppData<MemStore> = AppData::new();
    d.set_database(MemStore::new());
    d.set_time(42);
    let p = d.create_project("Alpha".to_string(), Some("desc".to_string())).unwrap();
    assert_eq!(p.name, "Alpha");
    assert_eq!(p.description.as_deref(), Some("desc"));
    assert_eq!(p.created_at, 42);
    let t = d.create_tag("urgent".to_string()).unwrap();
    d.add_tag_to_project(p.id, t.id).unwrap();
    let f = d.add_feature(p.id, "first".to_string()).unwrap();
    let listing = d.load_projects().unwrap();
    assert_eq!(listing.len(), 1);
    assert_eq!(listing[0].tags.len(), 1);
    assert_eq!(listing[0].features.len(), 1);
    assert_eq!(listing[0].features[0].id, f.id);
    d.delete_project(p.id).unwrap();
    assert_eq!(d.load_projects().unwrap().len(), 0);
}

#[test]
fn default_service_has_no_handle() {
    let d: AppData<MemStore> = AppData::default();
    assert!(!d.has_database());
}
