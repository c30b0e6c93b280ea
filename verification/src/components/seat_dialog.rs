//! The dialog that names a seat, either a new one or one being renamed.
use vstd::prelude::*;

verus! {

/// Whether the dialog adds a seat or renames one.
#[derive(Clone, Copy, Debug, PartialEq, Eq, Structural)]
pub enum ListDialogMode {
    New,
    Edit,
}

/// What the dialog is told: the name was entered.
pub enum ListDialogInput {
    HandleEntry,
}

/// What the dialog reports: the name for a new seat, or the new name.
pub enum ListDialogOutput {
    AddSeatToSidebar(String),
    RenameSeat(String),
}

/// What the dialog asks its surroundings to do.
pub enum ListDialogEffect {
    Output(ListDialogOutput),
    Close,
}

/// The seat naming dialog: the name it starts with, its mode and the label
/// of its button.
pub struct ListDialogComponent {
    pub name: String,
    pub mode: ListDialogMode,
    pub label: String,
}

impl ListDialogComponent {
    /// A dialog that renames a seat when given its current name, and adds
    /// a seat otherwise.
    pub fn init(init: Option<String>) -> (r: ListDialogComponent)
        ensures
            init matches Some(n) ==> r.mode == ListDialogMode::Edit && r.name@ == n@ && r.label@
                == "Rename"@,
            init is None ==> r.mode == ListDialogMode::New && r.name@ == Seq::<char>::empty()
                && r.label@ == "Add seat"@,
    {
        match init {
            Some(name) => ListDialogComponent {
                name,
                mode: ListDialogMode::Edit,
                label: "Rename".to_owned(),
            },
            None => ListDialogComponent {
                name: String::new(),
                mode: ListDialogMode::New,
                label: "Add seat".to_owned(),
            },
        }
    }

    /// The heading of the dialog.
    pub fn heading(&self) -> (r: &'static str)
        ensures
            self.mode == ListDialogMode::New ==> r@ == "You're about to add a seat."@,
            self.mode == ListDialogMode::Edit ==> r@ == "You're about to rename this seat."@,
    {
        match self.mode {
            ListDialogMode::New => "You're about to add a seat.",
            ListDialogMode::Edit => "You're about to rename this seat.",
        }
    }

    /// Answers the entered name (the text of the entry at that moment): it
    /// is reported as a new seat's name or as the new name, and the dialog
    /// closes.
    pub fn update(&self, msg: ListDialogInput, entry_text: String) -> (r: Vec<ListDialogEffect>)
        ensures
            r@.len() == 2,
            r@[1] is Close,
            self.mode == ListDialogMode::New ==> (r@[0] matches ListDialogEffect::Output(
                ListDialogOutput::AddSeatToSidebar(n),
            ) && n@ == entry_text@),
            self.mode == ListDialogMode::Edit ==> (r@[0] matches ListDialogEffect::Output(
                ListDialogOutput::RenameSeat(n),
            ) && n@ == entry_text@),
    {
        let mut effects: Vec<ListDialogEffect> = Vec::new();
        match msg {
            ListDialogInput::HandleEntry => {
                match self.mode {
                    ListDialogMode::New => {
                        effects.push(
                            ListDialogEffect::Output(ListDialogOutput::AddSeatToSidebar(entry_text)),
                        );
                    },
                    ListDialogMode::Edit => {
                        effects.push(
                            ListDialogEffect::Output(ListDialogOutput::RenameSeat(entry_text)),
                        );
                    },
                }
                effects.push(ListDialogEffect::Close);
            },
        }
        effects
    }
}

} // verus!
