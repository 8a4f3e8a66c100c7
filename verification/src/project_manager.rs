//! The project-manager page: the last-fetched read model, the load status
//! the loop consults before issuing loads, the new-project form, toasts and
//! the last error text. All storage work is initiated and completed by the
//! dispatch loop; this page only applies messages to its state.

use vstd::prelude::*;

use crate::entities::{ProjectJoin, ProjectJoinV};
use crate::new_project::NewProjectPage;
use crate::pages::{LoadStatus, ProjectManagerPageMessage};
use crate::toasts::{ToastV, Toasts};

verus! {

/// The effect one `Toasts::push` has: an entry is appended under the next
/// identifier, unless the identifier space is exhausted.
pub open spec fn toast_push_effect(
    pre_entries: Seq<ToastV>,
    pre_next: int,
    post_entries: Seq<ToastV>,
    post_next: int,
    text: Seq<char>,
) -> bool {
    if pre_next < u64::MAX {
        post_entries == pre_entries.push(ToastV { id: pre_next, text: text }) && post_next
            == pre_next + 1
    } else {
        post_entries == pre_entries && post_next == pre_next
    }
}

/// Local state of the project-manager page.
pub struct ProjectManagerPage {
    pub projects: Vec<ProjectJoin>,
    pub new_project_form: NewProjectPage,
    pub load_status: LoadStatus,
    pub toasts: Toasts,
    pub error_message: Option<String>,
}

impl ProjectManagerPage {
    /// The page is valid when its toast collection is.
    pub open spec fn wf(&self) -> bool {
        self.toasts.wf()
    }
}

impl Default for ProjectManagerPage {
    /// A page with nothing loaded yet.
    fn default() -> (r: Self)
        ensures
            r.wf(),
            r.projects.deep_view() == Seq::<ProjectJoinV>::empty(),
            r.load_status == LoadStatus::NotLoaded,
            r.toasts.entries_view() == Seq::<ToastV>::empty(),
            r.error_message is None,
            r.new_project_form.name_view() == Seq::<char>::empty(),
            r.new_project_form.description_view() == Seq::<char>::empty(),
    {
        let r = ProjectManagerPage {
            projects: Vec::new(),
            new_project_form: NewProjectPage::default(),
            load_status: LoadStatus::NotLoaded,
            toasts: Toasts::new(),
            error_message: None,
        };
        proof {
            assert(r.projects.deep_view() =~= Seq::<ProjectJoinV>::empty());
        }
        r
    }
}

impl ProjectManagerPage {
    /// Apply one message to the page. Only the loop's synchronous routing
    /// calls this; completions of mutating writes that succeeded answer with
    /// a follow-up load request so the read model catches up with the store.
    pub fn update(&mut self, message: ProjectManagerPageMessage) -> (follow: Option<
        ProjectManagerPageMessage,
    >)
        requires
            old(self).wf(),
        ensures
            final(self).wf(),
            final(self).new_project_form == old(self).new_project_form,
            match message {
                ProjectManagerPageMessage::LoadData => {
                    &&& final(self).load_status == LoadStatus::Loading
                    &&& final(self).projects == old(self).projects
                    &&& final(self).toasts == old(self).toasts
                    &&& final(self).error_message == old(self).error_message
                    &&& follow is None
                },
                ProjectManagerPageMessage::DataLoaded(r) => {
                    &&& match r {
                        Ok(list) => {
                            &&& final(self).load_status == LoadStatus::Loaded
                            &&& final(self).projects.deep_view() == list.deep_view()
                            &&& final(self).error_message is None
                        },
                        Err(e) => {
                            &&& final(self).load_status == LoadStatus::Failed
                            &&& final(self).projects == old(self).projects
                            &&& final(self).error_message matches Some(t) && t@ == e.text@
                        },
                    }
                    &&& final(self).toasts == old(self).toasts
                    &&& follow is None
                },
                ProjectManagerPageMessage::ToggleCreateProject => *final(self) == *old(self)
                    && follow is None,
                ProjectManagerPageMessage::CreateProject(_, _) => {
                    &&& final(self).load_status == LoadStatus::Loading
                    &&& final(self).projects == old(self).projects
                    &&& final(self).toasts == old(self).toasts
                    &&& final(self).error_message == old(self).error_message
                    &&& follow is None
                },
                ProjectManagerPageMessage::DeleteProject(_) => {
                    &&& final(self).load_status == LoadStatus::Loading
                    &&& final(self).projects == old(self).projects
                    &&& final(self).toasts == old(self).toasts
                    &&& final(self).error_message == old(self).error_message
                    &&& follow is None
                },
                ProjectManagerPageMessage::ProjectCreated(r) => {
                    &&& final(self).projects == old(self).projects
                    &&& final(self).error_message == old(self).error_message
                    &&& match r {
                        Ok(p) => {
                            &&& final(self).load_status == LoadStatus::NotLoaded
                            &&& toast_push_effect(
                                old(self).toasts.entries_view(),
                                old(self).toasts.next_id_spec(),
                                final(self).toasts.entries_view(),
                                final(self).toasts.next_id_spec(),
                                "Project created: "@ + p.name@,
                            )
                            &&& follow == Some(ProjectManagerPageMessage::LoadData)
                        },
                        Err(e) => {
                            &&& final(self).load_status == LoadStatus::NotLoaded
                            &&& toast_push_effect(
                                old(self).toasts.entries_view(),
                                old(self).toasts.next_id_spec(),
                                final(self).toasts.entries_view(),
                                final(self).toasts.next_id_spec(),
                                "Error: "@ + e.text@,
                            )
                            &&& follow is None
                        },
                    }
                },
                ProjectManagerPageMessage::ProjectDeleted(r) => {
                    &&& final(self).projects == old(self).projects
                    &&& final(self).error_message == old(self).error_message
                    &&& match r {
                        Ok(id) => {
                            &&& final(self).load_status == LoadStatus::NotLoaded
                            &&& toast_push_effect(
                                old(self).toasts.entries_view(),
                                old(self).toasts.next_id_spec(),
                                final(self).toasts.entries_view(),
                                final(self).toasts.next_id_spec(),
                                "Project deleted"@,
                            )
                            &&& follow == Some(ProjectManagerPageMessage::LoadData)
                        },
                        Err(e) => {
                            &&& final(self).load_status == LoadStatus::NotLoaded
                            &&& toast_push_effect(
                                old(self).toasts.entries_view(),
                                old(self).toasts.next_id_spec(),
                                final(self).toasts.entries_view(),
                                final(self).toasts.next_id_spec(),
                                "Error: "@ + e.text@,
                            )
                            &&& follow is None
                        },
                    }
                },
                ProjectManagerPageMessage::CloseToast(id) => {
                    &&& final(self).projects == old(self).projects
                    &&& final(self).load_status == old(self).load_status
                    &&& final(self).error_message == old(self).error_message
                    &&& final(self).toasts.entries_view() == old(self).toasts.entries_view().filter(
                        |t: ToastV| t.id != id as int,
                    )
                    &&& final(self).toasts.next_id_spec() == old(self).toasts.next_id_spec()
                    &&& follow is None
                },
            },
    {
        match message {
            ProjectManagerPageMessage::LoadData => {
                self.load_status = LoadStatus::Loading;
                None
            },
            ProjectManagerPageMessage::DataLoaded(r) => {
                match r {
                    Ok(list) => {
                        self.load_status = LoadStatus::Loaded;
                        self.projects = list;
                        self.error_message = None;
                    },
                    Err(e) => {
                        self.load_status = LoadStatus::Failed;
                        self.error_message = Some(e.text);
                    },
                }
                None
            },
            ProjectManagerPageMessage::ToggleCreateProject => None,
            ProjectManagerPageMessage::CreateProject(_, _) => {
                self.load_status = LoadStatus::Loading;
                None
            },
            ProjectManagerPageMessage::DeleteProject(_) => {
                self.load_status = LoadStatus::Loading;
                None
            },
            ProjectManagerPageMessage::ProjectCreated(r) => {
                self.load_status = LoadStatus::NotLoaded;
                match r {
                    Ok(p) => {
                        let text = String::from_str("Project created: ").concat(p.name.as_str());
                        proof {
                            assert(text@ =~= "Project created: "@ + p.name@);
                        }
                        let _ = self.toasts.push(text);
                        Some(ProjectManagerPageMessage::LoadData)
                    },
                    Err(e) => {
                        let text = String::from_str("Error: ").concat(e.text.as_str());
                        proof {
                            assert(text@ =~= "Error: "@ + e.text@);
                        }
                        let _ = self.toasts.push(text);
                        None
                    },
                }
            },
            ProjectManagerPageMessage::ProjectDeleted(r) => {
                self.load_status = LoadStatus::NotLoaded;
                match r {
                    Ok(_) => {
                        let _ = self.toasts.push(String::from_str("Project deleted"));
                        Some(ProjectManagerPageMessage::LoadData)
                    },
                    Err(e) => {
                        let text = String::from_str("Error: ").concat(e.text.as_str());
                        proof {
                            assert(text@ =~= "Error: "@ + e.text@);
                        }
                        let _ = self.toasts.push(text);
                        None
                    },
                }
            },
            ProjectManagerPageMessage::CloseToast(id) => {
                self.toasts.remove(id);
                None
            },
        }
    }
}

} // verus!
