//! The new-project form, toasts, error display, and the store file name.

use cosmi_kit::database::db_file_name;
use cosmi_kit::entities::{display_error, DisplayError};
use cosmi_kit::new_project::{NewProjectMessage, NewProjectPage};
use cosmi_kit::toasts::Toasts;
use cosmi_kit::StorageError;

#[test]
fn the_form_collects_its_fields_and_cancel_clears_them() {
    let mut form = NewProjectPage::default();
    assert_eq!(form.title, "New Project");
    form.update(NewProjectMessage::UpdateName("Alpha".to_string()));
    form.update(NewProjectMessage::UpdateDescription("a project".to_string()));
    match form.submit_message() {
        NewProjectMessage::CreateProject(n, d) => {
            assert_eq!(n, "Alpha");
            assert_eq!(d.as_deref(), Some("a project"));
        }
        _ => panic!("the save button emits a create request"),
    }
    form.update(NewProjectMessage::Cancel);
    match form.submit_message() {
        NewProjectMessage::CreateProject(n, d) => {
            assert_eq!(n, "");
            assert!(d.is_none());
        }
        _ => panic!("the save button emits a create request"),
    }
}

#[test]
fn an_empty_description_is_omitted() {
    let mut form = NewProjectPage::default();
    form.update(NewProjectMessage::UpdateName("Alpha".to_string()));
    match form.submit_message() {
        NewProjectMessage::CreateProject(_, d) => assert!(d.is_none()),
        _ => panic!("the save button emits a create request"),
    }
}

#[test]
fn toast_identifiers_increase_and_dismissal_is_exact() {
    let mut toasts = Toasts::new();
    let a = toasts.push("first".to_string()).unwrap();
    let b = toasts.push("second".to_string()).unwrap();
    let c = toasts.push("third".to_string()).unwrap();
    assert!(a < b && b < c);
    assert_eq!(toasts.len(), 3);
    toasts.remove(b);
    assert_eq!(toasts.len(), 2);
    assert_eq!(toasts.get(0).text, "first");
    assert_eq!(toasts.get(1).text, "third");
    // dismissing an unknown identifier removes nothing
    toasts.remove(b);
    assert_eq!(toasts.len(), 2);
}

#[test]
fn display_errors_carry_operation_context_and_a_kind_tag() {
    let e: DisplayError = display_error("load projects", StorageError::NotInitialized);
    assert!(matches!(e.kind, StorageError::NotInitialized));
    assert_eq!(e.text, "load projects: database not initialized");
    let e = display_error("create tag", StorageError::Conflict);
    assert_eq!(e.text, "create tag: already exists");
    let e = display_error("delete project", StorageError::NotFound);
    assert_eq!(e.text, "delete project: not found");
    let e = display_error("create project", StorageError::Storage);
    assert_eq!(e.text, "create project: storage failure");
}

#[test]
fn the_store_file_name_encodes_the_schema_version() {
    assert_eq!(db_file_name(), "com.github.kitfoxboy.cosmi-kit-projects-v1.db");
}
