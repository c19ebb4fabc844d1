use vstd::prelude::*;
use crate::job::{Mode, TransferJob};
use vstd::string::StringExecFns;

verus! {

/// The state a front end edits before it starts a transfer.
#[derive(Clone, Debug)]
pub struct Model {
    pub source_path: Option<String>,
    pub destination_path: Option<String>,
    pub group_by_creation_date: bool,
    pub copy: bool,
    pub date_format: String,
    pub recursive: bool,
}

/// The messages a front end dispatches to the model.
#[derive(Clone, Debug)]
pub enum Msg {
    SourcePathSelected(String),
    DestinationPathSelected(String),
    UpdateGroupByCreationDate(bool),
    UpdateDateFormat(String),
    UpdateRecursive(bool),
    UpdateCopy(bool),
    MoveFiles,
    OpenSourcePicker,
    OpenDestinationPicker,
    Quit,
}

/// What the front end has to do after the model handled a message.
#[derive(Clone, Copy, Debug, PartialEq, Eq, Structural)]
pub enum UpdateEffect {
    Nothing,
    OpenSourcePicker,
    OpenDestinationPicker,
    RunTransfer,
    Quit,
}

impl Default for Model {
    /// The initial model: nothing selected, grouping by `%Y-%m-%d`, recursive,
    /// copying rather than moving.
    fn default() -> (r: Model)
        ensures
            r.source_path is None,
            r.destination_path is None,
            r.group_by_creation_date == true,
            r.date_format@ == "%Y-%m-%d"@,
            r.recursive == true,
            r.copy == true,
    {
        Model {
            source_path: None,
            destination_path: None,
            group_by_creation_date: true,
            copy: true,
            date_format: String::from_str("%Y-%m-%d"),
            recursive: true,
        }
    }
}

impl Model {
    /// Handles one message: updates the edited state and says what the front
    /// end has to do next. Only `MoveFiles`, the pickers and `Quit` ask for
    /// anything beyond the state change.
    pub fn update(&mut self, msg: Msg) -> (e: UpdateEffect)
        ensures
            (match msg {
                Msg::SourcePathSelected(p) => *final(self) == (Model {
                    source_path: Some(p),
                    ..*old(self)
                }) && e is Nothing,
                Msg::DestinationPathSelected(p) => *final(self) == (Model {
                    destination_path: Some(p),
                    ..*old(self)
                }) && e is Nothing,
                Msg::UpdateGroupByCreationDate(b) => *final(self) == (Model {
                    group_by_creation_date: b,
                    ..*old(self)
                }) && e is Nothing,
                Msg::UpdateDateFormat(f) => *final(self) == (Model {
                    date_format: f,
                    ..*old(self)
                }) && e is Nothing,
                Msg::UpdateRecursive(b) => *final(self) == (Model {
                    recursive: b,
                    ..*old(self)
                }) && e is Nothing,
                Msg::UpdateCopy(b) => *final(self) == (Model { copy: b, ..*old(self) })
                    && e is Nothing,
                Msg::MoveFiles => *final(self) == *old(self) && e is RunTransfer,
                Msg::OpenSourcePicker => *final(self) == *old(self) && e is OpenSourcePicker,
                Msg::OpenDestinationPicker => *final(self) == *old(self)
                    && e is OpenDestinationPicker,
                Msg::Quit => *final(self) == *old(self) && e is Quit,
            }),
    {
        match msg {
            Msg::SourcePathSelected(p) => {
                self.source_path = Some(p);
                UpdateEffect::Nothing
            },
            Msg::DestinationPathSelected(p) => {
                self.destination_path = Some(p);
                UpdateEffect::Nothing
            },
            Msg::UpdateGroupByCreationDate(b) => {
                self.group_by_creation_date = b;
                UpdateEffect::Nothing
            },
            Msg::UpdateDateFormat(f) => {
                self.date_format = f;
                UpdateEffect::Nothing
            },
            Msg::UpdateRecursive(b) => {
                self.recursive = b;
                UpdateEffect::Nothing
            },
            Msg::UpdateCopy(b) => {
                self.copy = b;
                UpdateEffect::Nothing
            },
            Msg::MoveFiles => UpdateEffect::RunTransfer,
            Msg::OpenSourcePicker => UpdateEffect::OpenSourcePicker,
            Msg::OpenDestinationPicker => UpdateEffect::OpenDestinationPicker,
            Msg::Quit => UpdateEffect::Quit,
        }
    }

    /// Turns the edited state into an immutable job; `None` exactly while a
    /// root is still unselected.
    pub fn to_job(&self) -> (r: Option<TransferJob>)
        ensures
            (r is Some) == (self.source_path is Some && self.destination_path is Some),
            r matches Some(j) ==> ({
                &&& j.source_root@ == self.source_path.unwrap()@
                &&& j.destination_root@ == self.destination_path.unwrap()@
                &&& j.recursive == self.recursive
                &&& j.group_by_creation_date == self.group_by_creation_date
                &&& j.date_format@ == self.date_format@
                &&& j.mode == (if self.copy { Mode::Copy } else { Mode::Move })
            }),
    {
        match (&self.source_path, &self.destination_path) {
            (Some(s), Some(d)) => Some(TransferJob {
                source_root: s.clone(),
                destination_root: d.clone(),
                recursive: self.recursive,
                group_by_creation_date: self.group_by_creation_date,
                date_format: self.date_format.clone(),
                mode: if self.copy { Mode::Copy } else { Mode::Move },
            }),
            _ => None,
        }
    }
}

} // verus!
