//! The dispatch loop: startup, initialisation, load gating, routing, and
//! the full create flow.

use cosmi_kit::config::Config;
use cosmi_kit::dispatch::{AppModel, Command, ContextPage, MenuAction, Message, Page};
use cosmi_kit::memory::MemStore;
use cosmi_kit::new_project::NewProjectMessage;
use cosmi_kit::pages::{LoadStatus, ProjectManagerPageMessage};
use cosmi_kit::StorageError;

fn fresh() -> AppModel<MemStore> {
    let (model, cmds) = AppModel::new(Config::default());
    assert_eq!(cmds.len(), 2);
    model
}

#[test]
fn startup_schedules_one_initialisation_and_no_loads() {
    let (model, cmds) = AppModel::<MemStore>::new(Config::default());
    assert_eq!(cmds.len(), 2);
    assert!(matches!(&cmds[0], Command::SetWindowTitle(t) if t == "Cosmi Kit - OC Generator"));
    assert!(matches!(cmds[1], Command::InitStorage));
    assert!(matches!(model.active_page(), Page::OCGenerator));
    assert!(!model.app_data.has_database());
}

#[test]
fn initialisation_success_loads_the_active_page() {
    let mut model = fresh();
    let cmds = model.update(Message::DatabaseInitialized(Ok(MemStore::new())));
    // the active page is the character generator: it needs its settings data
    assert_eq!(cmds.len(), 1);
    assert!(matches!(cmds[0], Command::FetchCharacters));
    assert!(model.app_data.has_database());
}

#[test]
fn initialisation_failure_leaves_the_handle_absent() {
    let mut model = fresh();
    let cmds = model.update(Message::DatabaseInitialized(Err("disk on fire".to_string())));
    assert!(cmds.is_empty());
    assert!(!model.app_data.has_database());
    // a load request is not issued while the handle is missing
    let cmds = model.update(Message::ProjectManagerPage(ProjectManagerPageMessage::LoadData));
    assert!(cmds.is_empty());
    // a write command still completes, as a not-initialized error message
    let msg = model
        .run_storage(Command::CreateProject("Alpha".to_string(), None), 5)
        .unwrap();
    match msg {
        Message::ProjectManagerPage(ProjectManagerPageMessage::ProjectCreated(Err(e))) => {
            assert!(matches!(e.kind, StorageError::NotInitialized));
            assert_eq!(e.text, "create project: database not initialized");
        }
        _ => panic!("completion routed to the wrong page"),
    }
}

#[test]
fn page_switch_after_initialisation_schedules_exactly_one_load() {
    let mut model = fresh();
    let _ = model.update(Message::DatabaseInitialized(Ok(MemStore::new())));
    let cmds = model.switch_page(Page::ProjectManager);
    assert_eq!(cmds.len(), 2);
    assert!(matches!(&cmds[0], Command::SetWindowTitle(t) if t == "Cosmi Kit - Project Manager"));
    assert!(matches!(cmds[1], Command::LoadProjects));
    // while that load is in flight, switching away and back schedules none
    let _ = model.switch_page(Page::DiceRoller);
    let cmds = model.switch_page(Page::ProjectManager);
    assert_eq!(cmds.len(), 1);
    assert!(matches!(cmds[0], Command::SetWindowTitle(_)));
}

#[test]
fn a_page_not_requiring_data_schedules_nothing() {
    let mut model = fresh();
    let _ = model.update(Message::DatabaseInitialized(Ok(MemStore::new())));
    let cmds = model.switch_page(Page::DiceRoller);
    assert_eq!(cmds.len(), 1);
    assert!(matches!(&cmds[0], Command::SetWindowTitle(t) if t == "Cosmi Kit - Dice Roller"));
}

#[test]
fn late_results_route_to_their_own_page_only() {
    let mut model = fresh();
    let _ = model.update(Message::DatabaseInitialized(Ok(MemStore::new())));
    // a project-manager load is in flight...
    let cmds = model.switch_page(Page::ProjectManager);
    assert!(matches!(cmds[1], Command::LoadProjects));
    let load_completion = model.run_storage(Command::LoadProjects, 7).unwrap();
    // ...while the user switches back to the generator
    let _ = model.switch_page(Page::OCGenerator);
    let oc_before = model.oc_generator_page.saved_characters.len();
    let _ = model.update(load_completion);
    // the result landed in the project-manager page, not the active one
    assert!(matches!(model.project_manager_page.load_status, LoadStatus::Loaded));
    assert_eq!(model.oc_generator_page.saved_characters.len(), oc_before);
    assert!(!model.oc_generator_page.is_loaded);
}

#[test]
fn the_create_flow_reloads_and_toasts() {
    let mut model = fresh();
    let _ = model.update(Message::DatabaseInitialized(Ok(MemStore::new())));
    let _ = model.switch_page(Page::ProjectManager);
    let msg = model.run_storage(Command::LoadProjects, 1).unwrap();
    let _ = model.update(msg);
    assert_eq!(model.project_manager_page.projects.len(), 0);

    // the new-project form submits a create request
    let cmds = model.update(Message::NewProjectPage(NewProjectMessage::CreateProject(
        "Alpha".to_string(),
        None,
    )));
    assert_eq!(cmds.len(), 1);
    assert!(matches!(&cmds[0], Command::CreateProject(n, None) if n == "Alpha"));
    assert!(matches!(model.project_manager_page.load_status, LoadStatus::Loading));

    // the task completes; its completion triggers a toast and a reload
    let completion = model.run_storage(
        Command::CreateProject("Alpha".to_string(), None),
        2,
    )
    .unwrap();
    let cmds = model.update(completion);
    assert_eq!(cmds.len(), 1);
    assert!(matches!(cmds[0], Command::LoadProjects));
    assert_eq!(model.project_manager_page.toasts.len(), 1);
    assert_eq!(
        model.project_manager_page.toasts.get(0).text,
        "Project created: Alpha"
    );

    // the reload brings the stored project into the page
    let msg = model.run_storage(Command::LoadProjects, 3).unwrap();
    let _ = model.update(msg);
    assert_eq!(model.project_manager_page.projects.len(), 1);
    assert_eq!(model.project_manager_page.projects[0].project.name, "Alpha");

    // dismissing the toast by its identifier removes exactly that entry
    let id = model.project_manager_page.toasts.get(0).id;
    let _ = model.update(Message::ProjectManagerPage(ProjectManagerPageMessage::CloseToast(id)));
    assert_eq!(model.project_manager_page.toasts.len(), 0);
}

#[test]
fn the_delete_flow_removes_and_reloads() {
    let mut model = fresh();
    let _ = model.update(Message::DatabaseInitialized(Ok(MemStore::new())));
    let _ = model.switch_page(Page::ProjectManager);
    let completion = model.run_storage(
        Command::CreateProject("Alpha".to_string(), None),
        2,
    )
    .unwrap();
    let _ = model.update(completion);
    let msg = model.run_storage(Command::LoadProjects, 3).unwrap();
    let _ = model.update(msg);
    let id = model.project_manager_page.projects[0].project.id;

    let cmds = model.update(Message::ProjectManagerPage(ProjectManagerPageMessage::DeleteProject(
        id,
    )));
    assert!(matches!(cmds[0], Command::DeleteProject(i) if i == id));
    let completion = model.run_storage(Command::DeleteProject(id), 4).unwrap();
    let cmds = model.update(completion);
    assert!(matches!(cmds[0], Command::LoadProjects));
    let msg = model.run_storage(Command::LoadProjects, 5).unwrap();
    let _ = model.update(msg);
    assert_eq!(model.project_manager_page.projects.len(), 0);

    // deleting it again surfaces not-found as an error toast
    let completion = model.run_storage(Command::DeleteProject(id), 6).unwrap();
    let _ = model.update(completion);
    let last = model.project_manager_page.toasts.len() - 1;
    assert_eq!(
        model.project_manager_page.toasts.get(last).text,
        "Error: delete project: not found"
    );
}

#[test]
fn context_drawer_toggles() {
    let mut model = fresh();
    assert!(!model.show_context);
    let _ = model.update(Message::ToggleContextPage(ContextPage::About));
    assert!(model.show_context);
    let _ = model.update(Message::ToggleContextPage(ContextPage::NewProject));
    assert!(model.show_context);
    assert!(matches!(model.context_page, ContextPage::NewProject));
    let _ = model.update(Message::ToggleContextPage(ContextPage::NewProject));
    assert!(!model.show_context);
}

#[test]
fn urls_and_config_updates() {
    let mut model = fresh();
    let cmds = model.update(Message::OpenRepositoryUrl);
    assert!(matches!(&cmds[0], Command::OpenUrl(u) if u == "https://github.com/kitfoxboy/cosmi-kit"));
    let cmds = model.update(Message::LaunchUrl("https://example.org".to_string()));
    assert!(matches!(&cmds[0], Command::OpenUrl(u) if u == "https://example.org"));
    let mut cfg = Config::default();
    cfg.demo = "hello".to_string();
    let cmds = model.update(Message::UpdateConfig(cfg));
    assert!(cmds.is_empty());
    assert_eq!(model.config.demo, "hello");
    let cmds = model.update(Message::SubscriptionChannel);
    assert!(cmds.is_empty());
}

#[test]
fn menu_actions_toggle_the_about_page() {
    let action = MenuAction::About;
    let msg: Message<MemStore> = action.message();
    assert!(matches!(msg, Message::ToggleContextPage(ContextPage::About)));
}

#[test]
fn the_create_project_button_opens_the_form_drawer() {
    let mut model = fresh();
    let cmds = model.update(Message::ProjectManagerPage(
        ProjectManagerPageMessage::ToggleCreateProject,
    ));
    assert!(cmds.is_empty());
    assert!(model.show_context);
    assert!(matches!(model.context_page, ContextPage::NewProject));
    let _ = model.update(Message::ProjectManagerPage(
        ProjectManagerPageMessage::ToggleCreateProject,
    ));
    assert!(!model.show_context);
}
