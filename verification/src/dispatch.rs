//! The message dispatch loop: the single-threaded state machine that applies
//! user actions and task completions to application state, and says which
//! asynchronous work to schedule. Work is described by [`Command`] values;
//! the surrounding shell performs them and feeds each completion back in as
//! one message. Storage commands are carried out by [`AppModel::run_storage`]
//! against the data-access service.

use vstd::prelude::*;

use crate::config::{Config, SavedOC};
use crate::database::ProjectDatabase;
use crate::entities::{display_error, kind_label, StorageError};
use crate::new_project::NewProjectMessage;
use crate::oc_generator::{valid_generated, OcEffect, OcGeneratorPage};
use crate::pages::{LoadStatus, OCPageMessage, ProjectManagerPageMessage};
use crate::project_manager::{toast_push_effect, ProjectManagerPage};
use crate::service::AppData;
use crate::store_model::{
    can_create_project, has_project, listing, new_project_of, wf, with_created_project,
    with_deleted_project, with_time,
};

verus! {

/// The pages the application can display.
#[derive(Clone, Copy, Debug, PartialEq, Eq, Structural)]
pub enum Page {
    OCGenerator,
    ProjectManager,
    DiceRoller,
}

/// The page shown in the context drawer.
#[derive(Clone, Copy, Debug, PartialEq, Eq, Structural)]
pub enum ContextPage {
    About,
    NewProject,
}

impl Default for ContextPage {
    /// The drawer opens on the about page unless asked otherwise.
    fn default() -> (r: Self)
        ensures
            r == ContextPage::About,
    {
        ContextPage::About
    }
}

/// Actions the menu bar can trigger.
#[derive(Clone, Copy, Debug, PartialEq, Eq, Structural)]
pub enum MenuAction {
    About,
}

impl MenuAction {
    /// The message a menu action feeds into the loop.
    pub fn message<D: ProjectDatabase>(&self) -> (m: Message<D>)
        ensures
            m == Message::<D>::ToggleContextPage(ContextPage::About),
    {
        Message::ToggleContextPage(ContextPage::About)
    }
}

/// Messages the loop applies: user actions and completions of scheduled
/// work. Every completion carries the identity of the page it belongs to,
/// so it routes correctly however the active page has changed meanwhile.
pub enum Message<D: ProjectDatabase> {
    OcGeneratorPage(OCPageMessage),
    ProjectManagerPage(ProjectManagerPageMessage),
    NewProjectPage(NewProjectMessage),
    DatabaseInitialized(Result<D, String>),
    OpenRepositoryUrl,
    SubscriptionChannel,
    ToggleContextPage(ContextPage),
    UpdateConfig(Config),
    LaunchUrl(String),
}

/// Asynchronous work the loop schedules. The shell performs each command
/// off the loop's thread and enqueues at most one completion message.
pub enum Command {
    /// Initialise the storage engine; completes as `DatabaseInitialized`.
    InitStorage,
    /// Show this window title.
    SetWindowTitle(String),
    /// Load the read-model aggregate; completes as `DataLoaded`.
    LoadProjects,
    /// Store a new project; completes as `ProjectCreated`.
    CreateProject(String, Option<String>),
    /// Delete a project; completes as `ProjectDeleted`.
    DeleteProject(i64),
    /// Read the saved characters from the settings store; completes as
    /// `CharactersLoaded`.
    FetchCharacters,
    /// Replace the saved-character list in the settings store.
    PersistCharacters(Vec<SavedOC>),
    /// Open a URL with the system handler.
    OpenUrl(String),
}

/// Where the project repository lives.
pub fn repository_url() -> (s: &'static str)
    ensures
        s@ == "https://github.com/kitfoxboy/cosmi-kit"@,
{
    "https://github.com/kitfoxboy/cosmi-kit"
}

/// The title shown for each page.
pub open spec fn page_title(p: Page) -> Seq<char> {
    match p {
        Page::OCGenerator => "OC Generator"@,
        Page::ProjectManager => "Project Manager"@,
        Page::DiceRoller => "Dice Roller"@,
    }
}

/// The window title: the application name and the active page.
pub open spec fn window_title_of(p: Page) -> Seq<char> {
    "Cosmi Kit - "@ + page_title(p)
}

/// The application model: all state the loop owns, processed one message at
/// a time on a single logical thread.
pub struct AppModel<D: ProjectDatabase> {
    pub active_page: Page,
    pub context_page: ContextPage,
    pub show_context: bool,
    pub config: Config,
    pub app_data: AppData<D>,
    pub oc_generator_page: OcGeneratorPage,
    pub project_manager_page: ProjectManagerPage,
}

impl<D: ProjectDatabase> AppModel<D> {
    /// The model is valid when its service and its pages are.
    pub open spec fn wf(&self) -> bool {
        &&& self.app_data.inv()
        &&& self.project_manager_page.wf()
    }

    /// The active page declares a settings-store load requirement that has
    /// not been satisfied yet.
    pub open spec fn oc_load_due(&self) -> bool {
        self.active_page == Page::OCGenerator && !self.oc_generator_page.is_loaded
    }

    /// The active page declares a storage load requirement that may be
    /// issued: the storage handle is ready — no load is ever issued before
    /// that — and no load for it is already in flight.
    pub open spec fn pm_load_due(&self) -> bool {
        &&& self.active_page == Page::ProjectManager
        &&& self.app_data.has_db()
        &&& self.project_manager_page.load_status != LoadStatus::Loading
    }

    /// A fresh model. Exactly one initialisation command is scheduled and
    /// no page data is loaded yet: loads wait for the storage handle.
    pub fn new(config: Config) -> (r: (Self, Vec<Command>))
        ensures
            r.0.wf(),
            r.0.active_page == Page::OCGenerator,
            r.0.context_page == ContextPage::About,
            !r.0.show_context,
            !r.0.app_data.has_db(),
            r.0.config == config,
            r.0.oc_generator_page.oc_text is None,
            !r.0.oc_generator_page.is_loaded,
            r.0.project_manager_page.load_status == LoadStatus::NotLoaded,
            r.1@.len() == 2,
            r.1@[0] matches Command::SetWindowTitle(t) && t@ == window_title_of(Page::OCGenerator),
            r.1@[1] == Command::InitStorage,
    {
        let model = AppModel {
            active_page: Page::OCGenerator,
            context_page: ContextPage::About,
            show_context: false,
            config: config,
            app_data: AppData::new(),
            oc_generator_page: OcGeneratorPage::default(),
            project_manager_page: ProjectManagerPage::default(),
        };
        let mut cmds: Vec<Command> = Vec::new();
        cmds.push(Command::SetWindowTitle(model.window_title()));
        cmds.push(Command::InitStorage);
        (model, cmds)
    }

    /// The title for the current state.
    pub fn window_title(&self) -> (t: String)
        ensures
            t@ == window_title_of(self.active_page),
    {
        let name: &str = match self.active_page {
            Page::OCGenerator => "OC Generator",
            Page::ProjectManager => "Project Manager",
            Page::DiceRoller => "Dice Roller",
        };
        let t = String::from_str("Cosmi Kit - ").concat(name);
        proof {
            assert(t@ =~= window_title_of(self.active_page));
        }
        t
    }

    /// The page currently shown.
    pub fn active_page(&self) -> (p: Page)
        ensures
            p == self.active_page,
    {
        self.active_page
    }

    /// Schedule the data load the active page asks for, if any: at most one
    /// command, only when the page's data is not there and not in flight,
    /// and never against storage before the handle is installed.
    fn load_page_data(&mut self) -> (cmds: Vec<Command>)
        requires
            old(self).wf(),
        ensures
            final(self).wf(),
            final(self).active_page == old(self).active_page,
            final(self).context_page == old(self).context_page,
            final(self).show_context == old(self).show_context,
            final(self).config == old(self).config,
            final(self).app_data == old(self).app_data,
            final(self).oc_generator_page == old(self).oc_generator_page,
            final(self).project_manager_page.projects == old(self).project_manager_page.projects,
            final(self).project_manager_page.toasts == old(self).project_manager_page.toasts,
            final(self).project_manager_page.error_message == old(self).project_manager_page.error_message,
            final(self).project_manager_page.new_project_form == old(self).project_manager_page.new_project_form,
            old(self).oc_load_due() ==> cmds@ == seq![Command::FetchCharacters]
                && final(self).project_manager_page == old(self).project_manager_page,
            old(self).pm_load_due() ==> cmds@ == seq![Command::LoadProjects]
                && final(self).project_manager_page.load_status == LoadStatus::Loading,
            !old(self).oc_load_due() && !old(self).pm_load_due() ==> cmds@ == Seq::<
                Command,
            >::empty() && *final(self) == *old(self),
    {
        let mut cmds: Vec<Command> = Vec::new();
        match self.active_page {
            Page::OCGenerator => {
                if !self.oc_generator_page.is_loaded {
                    cmds.push(Command::FetchCharacters);
                }
            },
            Page::ProjectManager => {
                if self.app_data.has_database() && !matches!(
                    self.project_manager_page.load_status,
                    LoadStatus::Loading,
                ) {
                    let _ = self.project_manager_page.update(ProjectManagerPageMessage::LoadData);
                    cmds.push(Command::LoadProjects);
                }
            },
            Page::DiceRoller => (),
        }
        proof {
            if old(self).oc_load_due() {
                assert(cmds@ =~= seq![Command::FetchCharacters]);
            }
            if old(self).pm_load_due() {
                assert(cmds@ =~= seq![Command::LoadProjects]);
            }
            if !old(self).oc_load_due() && !old(self).pm_load_due() {
                assert(cmds@ =~= Seq::<Command>::empty());
            }
        }
        cmds
    }

    /// Switch the active page. A title update is always scheduled; a data
    /// load is scheduled exactly when the new page asks for one.
    pub fn switch_page(&mut self, page: Page) -> (cmds: Vec<Command>)
        requires
            old(self).wf(),
        ensures
            final(self).wf(),
            final(self).active_page == page,
            final(self).context_page == old(self).context_page,
            final(self).show_context == old(self).show_context,
            final(self).config == old(self).config,
            final(self).app_data == old(self).app_data,
            final(self).oc_generator_page == old(self).oc_generator_page,
            final(self).project_manager_page.projects == old(self).project_manager_page.projects,
            final(self).project_manager_page.toasts == old(self).project_manager_page.toasts,
            final(self).project_manager_page.error_message == old(self).project_manager_page.error_message,
            final(self).project_manager_page.new_project_form == old(self).project_manager_page.new_project_form,
            cmds@.len() >= 1,
            cmds@[0] matches Command::SetWindowTitle(t) && t@ == window_title_of(page),
            final(self).oc_load_due_after(page, old(self)) ==> cmds@.len() == 2 && cmds@[1]
                == Command::FetchCharacters && final(self).project_manager_page == old(self).project_manager_page,
            final(self).pm_load_due_after(page, old(self)) ==> cmds@.len() == 2 && cmds@[1]
                == Command::LoadProjects && final(self).project_manager_page.load_status
                == LoadStatus::Loading,
            !final(self).oc_load_due_after(page, old(self)) && !final(self).pm_load_due_after(
                page,
                old(self),
            ) ==> cmds@.len() == 1 && final(self).project_manager_page == old(self).project_manager_page,
    {
        self.active_page = page;
        let title = self.window_title();
        let mut cmds: Vec<Command> = Vec::new();
        cmds.push(Command::SetWindowTitle(title));
        let mut loads = self.load_page_data();
        let ghost loads_view = loads@;
        cmds.append(&mut loads);
        proof {
            assert(cmds@ =~= seq![cmds@[0]] + loads_view);
        }
        cmds
    }

    /// Whether, after switching to `page`, the settings-store load is due.
    pub open spec fn oc_load_due_after(&self, page: Page, pre: &Self) -> bool {
        page == Page::OCGenerator && !pre.oc_generator_page.is_loaded
    }

    /// Whether, after switching to `page`, the storage load is due.
    pub open spec fn pm_load_due_after(&self, page: Page, pre: &Self) -> bool {
        &&& page == Page::ProjectManager
        &&& pre.app_data.has_db()
        &&& pre.project_manager_page.load_status != LoadStatus::Loading
    }

    /// Handle a project-manager message: route it into that page's state,
    /// schedule the storage work it asks for, and, after a mutating write
    /// that succeeded, schedule the reload that keeps the read model
    /// consistent with the store. Every other part of the model is left
    /// alone.
    fn handle_project_manager_message(&mut self, message: ProjectManagerPageMessage) -> (cmds: Vec<
        Command,
    >)
        requires
            old(self).wf(),
        ensures
            final(self).wf(),
            final(self).active_page == old(self).active_page,
            final(self).context_page == old(self).context_page,
            final(self).show_context == old(self).show_context,
            final(self).config == old(self).config,
            final(self).app_data == old(self).app_data,
            final(self).oc_generator_page == old(self).oc_generator_page,
            final(self).project_manager_page.new_project_form == old(self).project_manager_page.new_project_form,
            match message {
                ProjectManagerPageMessage::LoadData => {
                    &&& old(self).app_data.has_db() && old(self).project_manager_page.load_status
                        != LoadStatus::Loading ==> final(self).project_manager_page.load_status
                        == LoadStatus::Loading && cmds@ == seq![Command::LoadProjects]
                    &&& !(old(self).app_data.has_db() && old(self).project_manager_page.load_status != LoadStatus::Loading) ==> final(self).project_manager_page == old(self).project_manager_page && cmds@ == Seq::<
                        Command,
                    >::empty()
                    &&& final(self).project_manager_page.projects == old(self).project_manager_page.projects
                    &&& final(self).project_manager_page.toasts == old(self).project_manager_page.toasts
                },
                ProjectManagerPageMessage::DataLoaded(r) => {
                    &&& cmds@ == Seq::<Command>::empty()
                    &&& final(self).project_manager_page.toasts == old(self).project_manager_page.toasts
                    &&& match r {
                        Ok(list) => {
                            &&& final(self).project_manager_page.load_status == LoadStatus::Loaded
                            &&& final(self).project_manager_page.projects.deep_view()
                                == list.deep_view()
                            &&& final(self).project_manager_page.error_message is None
                        },
                        Err(e) => {
                            &&& final(self).project_manager_page.load_status == LoadStatus::Failed
                            &&& final(self).project_manager_page.projects == old(self).project_manager_page.projects
                            &&& final(self).project_manager_page.error_message matches Some(t)
                                && t@ == e.text@
                        },
                    }
                },
                ProjectManagerPageMessage::ToggleCreateProject => *final(self) == *old(self)
                    && cmds@ == Seq::<Command>::empty(),
                ProjectManagerPageMessage::CreateProject(name, desc) => {
                    &&& final(self).project_manager_page.load_status == LoadStatus::Loading
                    &&& final(self).project_manager_page.projects == old(self).project_manager_page.projects
                    &&& final(self).project_manager_page.toasts == old(self).project_manager_page.toasts
                    &&& cmds@.len() == 1
                    &&& cmds@[0] matches Command::CreateProject(n, d) && n@ == name@
                        && d.deep_view() == desc.deep_view()
                },
                ProjectManagerPageMessage::DeleteProject(id) => {
                    &&& final(self).project_manager_page.load_status == LoadStatus::Loading
                    &&& final(self).project_manager_page.projects == old(self).project_manager_page.projects
                    &&& final(self).project_manager_page.toasts == old(self).project_manager_page.toasts
                    &&& cmds@ == seq![Command::DeleteProject(id)]
                },
                ProjectManagerPageMessage::ProjectCreated(r) => {
                    &&& final(self).project_manager_page.projects == old(self).project_manager_page.projects
                    &&& match r {
                        Ok(p) => {
                            &&& toast_push_effect(
                                old(self).project_manager_page.toasts.entries_view(),
                                old(self).project_manager_page.toasts.next_id_spec(),
                                final(self).project_manager_page.toasts.entries_view(),
                                final(self).project_manager_page.toasts.next_id_spec(),
                                "Project created: "@ + p.name@,
                            )
                            &&& old(self).app_data.has_db() ==> final(self).project_manager_page.load_status == LoadStatus::Loading && cmds@
                                == seq![Command::LoadProjects]
                            &&& !old(self).app_data.has_db() ==> final(self).project_manager_page.load_status == LoadStatus::NotLoaded && cmds@
                                == Seq::<Command>::empty()
                        },
                        Err(e) => {
                            &&& toast_push_effect(
                                old(self).project_manager_page.toasts.entries_view(),
                                old(self).project_manager_page.toasts.next_id_spec(),
                                final(self).project_manager_page.toasts.entries_view(),
                                final(self).project_manager_page.toasts.next_id_spec(),
                                "Error: "@ + e.text@,
                            )
                            &&& final(self).project_manager_page.load_status
                                == LoadStatus::NotLoaded
                            &&& cmds@ == Seq::<Command>::empty()
                        },
                    }
                },
                ProjectManagerPageMessage::ProjectDeleted(r) => {
                    &&& final(self).project_manager_page.projects == old(self).project_manager_page.projects
                    &&& match r {
                        Ok(id) => {
                            &&& toast_push_effect(
                                old(self).project_manager_page.toasts.entries_view(),
                                old(self).project_manager_page.toasts.next_id_spec(),
                                final(self).project_manager_page.toasts.entries_view(),
                                final(self).project_manager_page.toasts.next_id_spec(),
                                "Project deleted"@,
                            )
                            &&& old(self).app_data.has_db() ==> final(self).project_manager_page.load_status == LoadStatus::Loading && cmds@
                                == seq![Command::LoadProjects]
                            &&& !old(self).app_data.has_db() ==> final(self).project_manager_page.load_status == LoadStatus::NotLoaded && cmds@
                                == Seq::<Command>::empty()
                        },
                        Err(e) => {
                            &&& toast_push_effect(
                                old(self).project_manager_page.toasts.entries_view(),
                                old(self).project_manager_page.toasts.next_id_spec(),
                                final(self).project_manager_page.toasts.entries_view(),
                                final(self).project_manager_page.toasts.next_id_spec(),
                                "Error: "@ + e.text@,
                            )
                            &&& final(self).project_manager_page.load_status
                                == LoadStatus::NotLoaded
                            &&& cmds@ == Seq::<Command>::empty()
                        },
                    }
                },
                ProjectManagerPageMessage::CloseToast(id) => {
                    &&& cmds@ == Seq::<Command>::empty()
                    &&& final(self).project_manager_page.projects == old(self).project_manager_page.projects
                    &&& final(self).project_manager_page.load_status == old(self).project_manager_page.load_status
                    &&& final(self).project_manager_page.toasts.entries_view() == old(self).project_manager_page.toasts.entries_view().filter(
                        (|t: crate::toasts::ToastV| t.id != id as int),
                    )
                },
            },
    {
        let mut cmds: Vec<Command> = Vec::new();
        match message {
            ProjectManagerPageMessage::LoadData => {
                if self.app_data.has_database() && !matches!(
                    self.project_manager_page.load_status,
                    LoadStatus::Loading,
                ) {
                    let _ = self.project_manager_page.update(ProjectManagerPageMessage::LoadData);
                    cmds.push(Command::LoadProjects);
                    proof {
                        assert(cmds@ =~= seq![Command::LoadProjects]);
                    }
                } else {
                    proof {
                        assert(cmds@ =~= Seq::<Command>::empty());
                    }
                }
            },
            ProjectManagerPageMessage::DataLoaded(r) => {
                let _ = self.project_manager_page.update(
                    ProjectManagerPageMessage::DataLoaded(r),
                );
                proof {
                    assert(cmds@ =~= Seq::<Command>::empty());
                }
            },
            ProjectManagerPageMessage::ToggleCreateProject => {
                proof {
                    assert(cmds@ =~= Seq::<Command>::empty());
                }
            },
            ProjectManagerPageMessage::CreateProject(name, desc) => {
                let cmd_name = name.clone();
                let cmd_desc = crate::entities::clone_opt_string(&desc);
                let _ = self.project_manager_page.update(
                    ProjectManagerPageMessage::CreateProject(name, desc),
                );
                cmds.push(Command::CreateProject(cmd_name, cmd_desc));
                proof {
                    assert(cmds@.len() == 1);
                }
            },
            ProjectManagerPageMessage::DeleteProject(id) => {
                let _ = self.project_manager_page.update(
                    ProjectManagerPageMessage::DeleteProject(id),
                );
                cmds.push(Command::DeleteProject(id));
                proof {
                    assert(cmds@ =~= seq![Command::DeleteProject(id)]);
                }
            },
            ProjectManagerPageMessage::ProjectCreated(r) => {
                let follow = self.project_manager_page.update(
                    ProjectManagerPageMessage::ProjectCreated(r),
                );
                match follow {
                    Some(fm) => {
                        if self.app_data.has_database() {
                            let _ = self.project_manager_page.update(fm);
                            cmds.push(Command::LoadProjects);
                            proof {
                                assert(cmds@ =~= seq![Command::LoadProjects]);
                            }
                        } else {
                            proof {
                                assert(cmds@ =~= Seq::<Command>::empty());
                            }
                        }
                    },
                    None => {
                        proof {
                            assert(cmds@ =~= Seq::<Command>::empty());
                        }
                    },
                }
            },
            ProjectManagerPageMessage::ProjectDeleted(r) => {
                let follow = self.project_manager_page.update(
                    ProjectManagerPageMessage::ProjectDeleted(r),
                );
                match follow {
                    Some(fm) => {
                        if self.app_data.has_database() {
                            let _ = self.project_manager_page.update(fm);
                            cmds.push(Command::LoadProjects);
                            proof {
                                assert(cmds@ =~= seq![Command::LoadProjects]);
                            }
                        } else {
                            proof {
                                assert(cmds@ =~= Seq::<Command>::empty());
                            }
                        }
                    },
                    None => {
                        proof {
                            assert(cmds@ =~= Seq::<Command>::empty());
                        }
                    },
                }
            },
            ProjectManagerPageMessage::CloseToast(id) => {
                let _ = self.project_manager_page.update(
                    ProjectManagerPageMessage::CloseToast(id),
                );
                proof {
                    assert(cmds@ =~= Seq::<Command>::empty());
                }
            },
        }
        cmds
    }

    /// Apply one message to the model and say which asynchronous work to
    /// schedule. Messages are applied one at a time, in arrival order; a
    /// result message is routed to the page it names, never to whichever
    /// page happens to be active, so two pages never see each other's data.
    /// No storage load is scheduled before the storage handle is installed,
    /// and none while one is already in flight.
    pub fn update(&mut self, message: Message<D>) -> (cmds: Vec<Command>)
        requires
            old(self).wf(),
            message matches Message::DatabaseInitialized(Ok(db)) ==> wf(db.model()),
        ensures
            final(self).wf(),
            match message {
                Message::OcGeneratorPage(m) => {
                    &&& final(self).project_manager_page == old(self).project_manager_page
                    &&& final(self).app_data == old(self).app_data
                    &&& final(self).active_page == old(self).active_page
                    &&& final(self).context_page == old(self).context_page
                    &&& final(self).show_context == old(self).show_context
                    &&& final(self).config == old(self).config
                    &&& match m {
                        OCPageMessage::LoadData => {
                            &&& final(self).oc_generator_page == old(self).oc_generator_page
                            &&& old(self).oc_generator_page.is_loaded ==> cmds@ == Seq::<
                                Command,
                            >::empty()
                            &&& !old(self).oc_generator_page.is_loaded ==> cmds@ == seq![
                                Command::FetchCharacters,
                            ]
                        },
                        OCPageMessage::GenerateButtonClicked => {
                            &&& cmds@ == Seq::<Command>::empty()
                            &&& final(self).oc_generator_page.saved_characters == old(self).oc_generator_page.saved_characters
                            &&& final(self).oc_generator_page.oc_text matches Some(t)
                                && valid_generated(t@)
                        },
                        OCPageMessage::SaveButtonClicked => match old(self).oc_generator_page.oc_text {
                            Some(t) => {
                                &&& final(self).oc_generator_page.saved_characters.deep_view().len()
                                    == old(self).oc_generator_page.saved_characters.deep_view().len() + 1
                                &&& final(self).oc_generator_page.saved_characters.deep_view().drop_last() == old(self).oc_generator_page.saved_characters.deep_view()
                                &&& final(self).oc_generator_page.saved_characters.deep_view().last().text == t@
                                &&& cmds@.len() == 1
                                &&& cmds@[0] matches Command::PersistCharacters(l) && l.deep_view()
                                    == final(self).oc_generator_page.saved_characters.deep_view()
                            },
                            None => final(self).oc_generator_page == old(self).oc_generator_page
                                && cmds@ == Seq::<Command>::empty(),
                        },
                        OCPageMessage::DeleteCharacter(i) => {
                            if i < old(self).oc_generator_page.saved_characters.deep_view().len() {
                                &&& final(self).oc_generator_page.saved_characters.deep_view()
                                    == old(self).oc_generator_page.saved_characters.deep_view().remove(i as int)
                                &&& cmds@.len() == 1
                                &&& cmds@[0] matches Command::PersistCharacters(l) && l.deep_view()
                                    == final(self).oc_generator_page.saved_characters.deep_view()
                            } else {
                                final(self).oc_generator_page == old(self).oc_generator_page
                                    && cmds@ == Seq::<Command>::empty()
                            }
                        },
                        OCPageMessage::CharactersLoaded(cfg) => {
                            &&& final(self).oc_generator_page.saved_characters.deep_view()
                                == cfg.characters.deep_view()
                            &&& final(self).oc_generator_page.is_loaded
                            &&& cmds@ == Seq::<Command>::empty()
                        },
                    }
                },
                Message::ProjectManagerPage(m) => {
                    &&& final(self).oc_generator_page == old(self).oc_generator_page
                    &&& final(self).app_data == old(self).app_data
                    &&& final(self).active_page == old(self).active_page
                    &&& final(self).config == old(self).config
                    &&& !(m matches ProjectManagerPageMessage::ToggleCreateProject) ==> final(self).context_page == old(self).context_page && final(self).show_context == old(self).show_context
                    &&& m matches ProjectManagerPageMessage::LoadData ==> {
                        &&& old(self).app_data.has_db() && old(self).project_manager_page.load_status != LoadStatus::Loading ==> final(self).project_manager_page.load_status == LoadStatus::Loading && cmds@ == seq![
                            Command::LoadProjects,
                        ]
                        &&& !(old(self).app_data.has_db() && old(self).project_manager_page.load_status != LoadStatus::Loading) ==> final(self).project_manager_page == old(self).project_manager_page && cmds@ == Seq::<
                            Command,
                        >::empty()
                    }
                    &&& m matches ProjectManagerPageMessage::DataLoaded(r) ==> cmds@ == Seq::<
                        Command,
                    >::empty() && (r matches Ok(list) ==> final(self).project_manager_page.projects.deep_view() == list.deep_view() && final(self).project_manager_page.load_status == LoadStatus::Loaded) && (r matches Err(e) ==> final(self).project_manager_page.load_status == LoadStatus::Failed && final(self).project_manager_page.projects == old(self).project_manager_page.projects && (final(self).project_manager_page.error_message matches Some(t) && t@ == e.text@))
                    &&& m matches ProjectManagerPageMessage::CreateProject(name, desc) ==> {
                        &&& final(self).project_manager_page.load_status == LoadStatus::Loading
                        &&& cmds@.len() == 1
                        &&& cmds@[0] matches Command::CreateProject(n, d) && n@ == name@
                            && d.deep_view() == desc.deep_view()
                    }
                    &&& m matches ProjectManagerPageMessage::DeleteProject(id) ==> {
                        &&& final(self).project_manager_page.load_status == LoadStatus::Loading
                        &&& cmds@ == seq![Command::DeleteProject(id)]
                    }
                    &&& m matches ProjectManagerPageMessage::ToggleCreateProject ==> {
                        &&& final(self).project_manager_page == old(self).project_manager_page
                        &&& cmds@ == Seq::<Command>::empty()
                        &&& old(self).context_page == ContextPage::NewProject ==> final(self).context_page == ContextPage::NewProject && final(self).show_context
                            == !old(self).show_context
                        &&& old(self).context_page != ContextPage::NewProject ==> final(self).context_page == ContextPage::NewProject && final(self).show_context
                    }
                    &&& m matches ProjectManagerPageMessage::ProjectCreated(r) ==> (r matches Ok(p)
                        ==> toast_push_effect(
                        old(self).project_manager_page.toasts.entries_view(),
                        old(self).project_manager_page.toasts.next_id_spec(),
                        final(self).project_manager_page.toasts.entries_view(),
                        final(self).project_manager_page.toasts.next_id_spec(),
                        "Project created: "@ + p.name@,
                    ) && (old(self).app_data.has_db() ==> cmds@ == seq![Command::LoadProjects]
                        && final(self).project_manager_page.load_status == LoadStatus::Loading))
                    &&& m matches ProjectManagerPageMessage::ProjectDeleted(r) ==> (r matches Ok(
                        id,
                    ) ==> toast_push_effect(
                        old(self).project_manager_page.toasts.entries_view(),
                        old(self).project_manager_page.toasts.next_id_spec(),
                        final(self).project_manager_page.toasts.entries_view(),
                        final(self).project_manager_page.toasts.next_id_spec(),
                        "Project deleted"@,
                    ) && (old(self).app_data.has_db() ==> cmds@ == seq![Command::LoadProjects]
                        && final(self).project_manager_page.load_status == LoadStatus::Loading))
                    &&& m matches ProjectManagerPageMessage::CloseToast(id) ==> final(self).project_manager_page.toasts.entries_view() == old(self).project_manager_page.toasts.entries_view().filter(
                        (|t: crate::toasts::ToastV| t.id != id as int),
                    ) && cmds@ == Seq::<Command>::empty()
                },
                Message::NewProjectPage(m) => {
                    &&& final(self).oc_generator_page == old(self).oc_generator_page
                    &&& final(self).app_data == old(self).app_data
                    &&& final(self).active_page == old(self).active_page
                    &&& final(self).config == old(self).config
                    &&& match m {
                        NewProjectMessage::UpdateName(n) => {
                            &&& final(self).project_manager_page.new_project_form.name_view() == n@
                            &&& final(self).project_manager_page.new_project_form.description_view() == old(self).project_manager_page.new_project_form.description_view()
                            &&& final(self).show_context == old(self).show_context
                            &&& cmds@ == Seq::<Command>::empty()
                        },
                        NewProjectMessage::UpdateDescription(d) => {
                            &&& final(self).project_manager_page.new_project_form.description_view() == d@
                            &&& final(self).project_manager_page.new_project_form.name_view()
                                == old(self).project_manager_page.new_project_form.name_view()
                            &&& final(self).show_context == old(self).show_context
                            &&& cmds@ == Seq::<Command>::empty()
                        },
                        NewProjectMessage::Cancel => {
                            &&& final(self).project_manager_page.new_project_form.name_view()
                                == Seq::<char>::empty()
                            &&& final(self).project_manager_page.new_project_form.description_view() == Seq::<
                                char,
                            >::empty()
                            &&& !final(self).show_context
                            &&& cmds@ == Seq::<Command>::empty()
                        },
                        NewProjectMessage::CreateProject(name, desc) => {
                            &&& final(self).project_manager_page.load_status == LoadStatus::Loading
                            &&& !final(self).show_context
                            &&& cmds@.len() == 1
                            &&& cmds@[0] matches Command::CreateProject(n, d) && n@ == name@
                                && d.deep_view() == desc.deep_view()
                        },
                    }
                },
                Message::DatabaseInitialized(r) => match r {
                    Ok(db) => {
                        &&& final(self).app_data.has_db()
                        &&& final(self).app_data.db_model() == db.model()
                        &&& final(self).oc_generator_page == old(self).oc_generator_page
                        &&& final(self).active_page == old(self).active_page
                        &&& final(self).config == old(self).config
                        &&& old(self).oc_load_due() ==> cmds@ == seq![Command::FetchCharacters]
                            && final(self).project_manager_page == old(self).project_manager_page
                        &&& old(self).active_page == Page::ProjectManager && old(self).project_manager_page.load_status != LoadStatus::Loading ==> cmds@
                            == seq![Command::LoadProjects] && final(self).project_manager_page.load_status == LoadStatus::Loading
                        &&& !old(self).oc_load_due() && !(old(self).active_page
                            == Page::ProjectManager && old(self).project_manager_page.load_status
                            != LoadStatus::Loading) ==> cmds@ == Seq::<Command>::empty() && final(self).project_manager_page == old(self).project_manager_page
                    },
                    Err(_) => *final(self) == *old(self) && cmds@ == Seq::<Command>::empty(),
                },
                Message::OpenRepositoryUrl => {
                    &&& *final(self) == *old(self)
                    &&& cmds@.len() == 1
                    &&& cmds@[0] matches Command::OpenUrl(u) && u@
                        == "https://github.com/kitfoxboy/cosmi-kit"@
                },
                Message::SubscriptionChannel => *final(self) == *old(self) && cmds@ == Seq::<
                    Command,
                >::empty(),
                Message::ToggleContextPage(cp) => {
                    &&& final(self).active_page == old(self).active_page
                    &&& final(self).config == old(self).config
                    &&& final(self).app_data == old(self).app_data
                    &&& final(self).oc_generator_page == old(self).oc_generator_page
                    &&& final(self).project_manager_page == old(self).project_manager_page
                    &&& cp == old(self).context_page ==> final(self).context_page == old(self).context_page && final(self).show_context == !old(self).show_context
                    &&& cp != old(self).context_page ==> final(self).context_page == cp && final(self).show_context
                    &&& cmds@ == Seq::<Command>::empty()
                },
                Message::UpdateConfig(c) => {
                    &&& final(self).config == c
                    &&& final(self).active_page == old(self).active_page
                    &&& final(self).context_page == old(self).context_page
                    &&& final(self).show_context == old(self).show_context
                    &&& final(self).app_data == old(self).app_data
                    &&& final(self).oc_generator_page == old(self).oc_generator_page
                    &&& final(self).project_manager_page == old(self).project_manager_page
                    &&& cmds@ == Seq::<Command>::empty()
                },
                Message::LaunchUrl(url) => {
                    &&& *final(self) == *old(self)
                    &&& cmds@.len() == 1
                    &&& cmds@[0] matches Command::OpenUrl(u) && u@ == url@
                },
            },
    {
        match message {
            Message::OcGeneratorPage(m) => {
                let eff = self.oc_generator_page.update(m);
                let mut cmds: Vec<Command> = Vec::new();
                match eff {
                    OcEffect::Nothing => {
                        proof {
                            assert(cmds@ =~= Seq::<Command>::empty());
                        }
                    },
                    OcEffect::Fetch => {
                        cmds.push(Command::FetchCharacters);
                        proof {
                            assert(cmds@ =~= seq![Command::FetchCharacters]);
                        }
                    },
                    OcEffect::Persist(l) => {
                        cmds.push(Command::PersistCharacters(l));
                        proof {
                            assert(cmds@.len() == 1);
                        }
                    },
                }
                cmds
            },
            Message::ProjectManagerPage(m) => match m {
                ProjectManagerPageMessage::ToggleCreateProject => {
                    if matches!(self.context_page, ContextPage::NewProject) {
                        self.show_context = !self.show_context;
                    } else {
                        self.context_page = ContextPage::NewProject;
                        self.show_context = true;
                    }
                    Vec::new()
                },
                other => self.handle_project_manager_message(other),
            },
            Message::NewProjectPage(m) => {
                let mut cmds: Vec<Command> = Vec::new();
                match m {
                    NewProjectMessage::UpdateName(n) => {
                        self.project_manager_page.new_project_form.update(
                            NewProjectMessage::UpdateName(n),
                        );
                    },
                    NewProjectMessage::UpdateDescription(d) => {
                        self.project_manager_page.new_project_form.update(
                            NewProjectMessage::UpdateDescription(d),
                        );
                    },
                    NewProjectMessage::Cancel => {
                        self.project_manager_page.new_project_form.update(
                            NewProjectMessage::Cancel,
                        );
                        self.show_context = false;
                    },
                    NewProjectMessage::CreateProject(name, desc) => {
                        self.show_context = false;
                        let mut inner = self.handle_project_manager_message(
                            ProjectManagerPageMessage::CreateProject(name, desc),
                        );
                        cmds.append(&mut inner);
                    },
                }
                cmds
            },
            Message::DatabaseInitialized(r) => {
                match r {
                    Ok(db) => {
                        self.app_data.set_database(db);
                        self.load_page_data()
                    },
                    Err(_) => Vec::new(),
                }
            },
            Message::OpenRepositoryUrl => {
                let mut cmds: Vec<Command> = Vec::new();
                cmds.push(Command::OpenUrl(String::from_str(repository_url())));
                cmds
            },
            Message::SubscriptionChannel => Vec::new(),
            Message::ToggleContextPage(cp) => {
                if self.context_page == cp {
                    self.show_context = !self.show_context;
                } else {
                    self.context_page = cp;
                    self.show_context = true;
                }
                Vec::new()
            },
            Message::UpdateConfig(c) => {
                self.config = c;
                Vec::new()
            },
            Message::LaunchUrl(url) => {
                let mut cmds: Vec<Command> = Vec::new();
                cmds.push(Command::OpenUrl(url));
                cmds
            },
        }
    }

    /// Carry out one storage command against the data-access service: the
    /// body of the asynchronous task the loop scheduled. The store's clock
    /// is first advanced to `now`. The completion message, already converted
    /// to display form and carrying the identity of the page it belongs to,
    /// is returned for the caller to feed back into `update`; commands that
    /// are not storage work return nothing and are the shell's to perform.
    /// No page state is touched here.
    pub fn run_storage(&mut self, cmd: Command, now: i64) -> (m: Option<Message<D>>)
        requires
            old(self).wf(),
        ensures
            final(self).wf(),
            final(self).active_page == old(self).active_page,
            final(self).context_page == old(self).context_page,
            final(self).show_context == old(self).show_context,
            final(self).config == old(self).config,
            final(self).oc_generator_page == old(self).oc_generator_page,
            final(self).project_manager_page == old(self).project_manager_page,
            final(self).app_data.has_db() == old(self).app_data.has_db(),
            match cmd {
                Command::LoadProjects => {
                    &&& !old(self).app_data.has_db() ==> *final(self) == *old(self) && (m matches
                        Some(msg) && msg matches Message::ProjectManagerPage(
                        ProjectManagerPageMessage::DataLoaded(Err(e)),
                    ) && e.kind == StorageError::NotInitialized && e.text@ == "load projects"@
                        + ": "@ + kind_label(StorageError::NotInitialized))
                    &&& old(self).app_data.has_db() ==> final(self).app_data.db_model()
                        == with_time(old(self).app_data.db_model(), now as int) && (m matches Some(
                        msg,
                    ) && msg matches Message::ProjectManagerPage(
                        ProjectManagerPageMessage::DataLoaded(Ok(list)),
                    ) && list.deep_view() == listing(
                        with_time(old(self).app_data.db_model(), now as int),
                    ))
                },
                Command::CreateProject(name, desc) => {
                    &&& !old(self).app_data.has_db() ==> *final(self) == *old(self) && (m matches
                        Some(msg) && msg matches Message::ProjectManagerPage(
                        ProjectManagerPageMessage::ProjectCreated(Err(e)),
                    ) && e.kind == StorageError::NotInitialized)
                    &&& old(self).app_data.has_db() && can_create_project(
                        with_time(old(self).app_data.db_model(), now as int),
                        name@,
                    ) ==> final(self).app_data.db_model() == with_created_project(
                        with_time(old(self).app_data.db_model(), now as int),
                        name@,
                        desc.deep_view(),
                    ) && (m matches Some(msg) && msg matches Message::ProjectManagerPage(
                        ProjectManagerPageMessage::ProjectCreated(Ok(p)),
                    ) && p@ == new_project_of(
                        with_time(old(self).app_data.db_model(), now as int),
                        name@,
                        desc.deep_view(),
                    ))
                    &&& old(self).app_data.has_db() && !can_create_project(
                        with_time(old(self).app_data.db_model(), now as int),
                        name@,
                    ) ==> final(self).app_data.db_model() == with_time(
                        old(self).app_data.db_model(),
                        now as int,
                    ) && (m matches Some(msg) && msg matches Message::ProjectManagerPage(
                        ProjectManagerPageMessage::ProjectCreated(Err(e)),
                    ) && e.kind == StorageError::Storage)
                },
                Command::DeleteProject(id) => {
                    &&& !old(self).app_data.has_db() ==> *final(self) == *old(self) && (m matches
                        Some(msg) && msg matches Message::ProjectManagerPage(
                        ProjectManagerPageMessage::ProjectDeleted(Err(e)),
                    ) && e.kind == StorageError::NotInitialized)
                    &&& old(self).app_data.has_db() && has_project(
                        with_time(old(self).app_data.db_model(), now as int),
                        id as int,
                    ) ==> final(self).app_data.db_model() == with_deleted_project(
                        with_time(old(self).app_data.db_model(), now as int),
                        id as int,
                    ) && m == Some(
                        Message::<D>::ProjectManagerPage(
                            ProjectManagerPageMessage::ProjectDeleted(Ok(id)),
                        ),
                    )
                    &&& old(self).app_data.has_db() && !has_project(
                        with_time(old(self).app_data.db_model(), now as int),
                        id as int,
                    ) ==> final(self).app_data.db_model() == with_time(
                        old(self).app_data.db_model(),
                        now as int,
                    ) && (m matches Some(msg) && msg matches Message::ProjectManagerPage(
                        ProjectManagerPageMessage::ProjectDeleted(Err(e)),
                    ) && e.kind == StorageError::NotFound)
                },
                _ => *final(self) == *old(self) && m is None,
            },
    {
        match cmd {
            Command::LoadProjects => {
                self.app_data.set_time(now);
                let r = self.app_data.load_projects();
                match r {
                    Ok(list) => Some(
                        Message::ProjectManagerPage(
                            ProjectManagerPageMessage::DataLoaded(Ok(list)),
                        ),
                    ),
                    Err(e) => Some(
                        Message::ProjectManagerPage(
                            ProjectManagerPageMessage::DataLoaded(
                                Err(display_error("load projects", e)),
                            ),
                        ),
                    ),
                }
            },
            Command::CreateProject(name, desc) => {
                self.app_data.set_time(now);
                let r = self.app_data.create_project(name, desc);
                match r {
                    Ok(p) => Some(
                        Message::ProjectManagerPage(
                            ProjectManagerPageMessage::ProjectCreated(Ok(p)),
                        ),
                    ),
                    Err(e) => Some(
                        Message::ProjectManagerPage(
                            ProjectManagerPageMessage::ProjectCreated(
                                Err(display_error("create project", e)),
                            ),
                        ),
                    ),
                }
            },
            Command::DeleteProject(id) => {
                self.app_data.set_time(now);
                let r = self.app_data.delete_project(id);
                match r {
                    Ok(_) => Some(
                        Message::ProjectManagerPage(
                            ProjectManagerPageMessage::ProjectDeleted(Ok(id)),
                        ),
                    ),
                    Err(e) => Some(
                        Message::ProjectManagerPage(
                            ProjectManagerPageMessage::ProjectDeleted(
                                Err(display_error("delete project", e)),
                            ),
                        ),
                    ),
                }
            },
            Command::InitStorage => None,
            Command::SetWindowTitle(_) => None,
            Command::FetchCharacters => None,
            Command::PersistCharacters(_) => None,
            Command::OpenUrl(_) => None,
        }
    }
}

} // verus!
