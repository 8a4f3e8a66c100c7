//! The new-project form: a context page holding the input fields from which
//! a create-project request is assembled.

use vstd::prelude::*;

verus! {

/// Messages the new-project form emits or consumes.
pub enum NewProjectMessage {
    UpdateName(String),
    UpdateDescription(String),
    CreateProject(String, Option<String>),
    Cancel,
}

/// Local state of the new-project form. It holds only field contents; the
/// create request itself is carried out by the dispatch loop.
pub struct NewProjectPage {
    pub title: String,
    pub name: String,
    pub description: String,
}

impl NewProjectPage {
    /// The name field's contents.
    pub open spec fn name_view(&self) -> Seq<char> {
        self.name@
    }

    /// The description field's contents.
    pub open spec fn description_view(&self) -> Seq<char> {
        self.description@
    }
}

impl Default for NewProjectPage {
    /// An empty form.
    fn default() -> (r: Self)
        ensures
            r.title@ == "New Project"@,
            r.name_view() == Seq::<char>::empty(),
            r.description_view() == Seq::<char>::empty(),
    {
        NewProjectPage {
            title: String::from_str("New Project"),
            name: String::new(),
            description: String::new(),
        }
    }
}

impl NewProjectPage {
    /// The create request the save button emits: the name as typed, and the
    /// description only when one was typed at all.
    pub fn submit_message(&self) -> (m: NewProjectMessage)
        ensures
            m matches NewProjectMessage::CreateProject(n, d) && n@ == self.name_view() && (match d {
                Some(dd) => self.description_view().len() > 0 && dd@ == self.description_view(),
                None => self.description_view().len() == 0,
            }),
    {
        let description = if self.description.as_str().is_empty() {
            None
        } else {
            Some(self.description.clone())
        };
        NewProjectMessage::CreateProject(self.name.clone(), description)
    }

    /// Apply one message to the form. Input messages update a field, cancel
    /// clears both fields, and the create request leaves the form alone.
    pub fn update(&mut self, message: NewProjectMessage)
        ensures
            final(self).title@ == old(self).title@,
            match message {
                NewProjectMessage::UpdateName(n) => final(self).name_view() == n@
                    && final(self).description_view() == old(self).description_view(),
                NewProjectMessage::UpdateDescription(d) => final(self).description_view() == d@
                    && final(self).name_view() == old(self).name_view(),
                NewProjectMessage::Cancel => final(self).name_view() == Seq::<char>::empty()
                    && final(self).description_view() == Seq::<char>::empty(),
                NewProjectMessage::CreateProject(_, _) => *final(self) == *old(self),
            },
    {
        match message {
            NewProjectMessage::UpdateName(n) => {
                self.name = n;
            },
            NewProjectMessage::UpdateDescription(d) => {
                self.description = d;
            },
            NewProjectMessage::Cancel => {
                self.name = String::new();
                self.description = String::new();
            },
            NewProjectMessage::CreateProject(_, _) => (),
        }
    }
}

} // verus!
