use vstd::prelude::*;

verus! {

/// Whether the sources are duplicated or removed after a successful transfer.
#[derive(Clone, Copy, Debug, PartialEq, Eq, Structural)]
pub enum Mode {
    Copy,
    Move,
}

/// One request to transfer the files under `source_root` into
/// `destination_root` under a fixed policy. Immutable once created.
#[derive(Clone, Debug)]
pub struct TransferJob {
    pub source_root: String,
    pub destination_root: String,
    pub recursive: bool,
    pub group_by_creation_date: bool,
    pub date_format: String,
    pub mode: Mode,
}

/// A violated job precondition; it aborts the whole run before any file is
/// touched.
#[derive(Clone, Copy, Debug, PartialEq, Eq, Structural)]
pub enum JobError {
    SourceRootInvalid,
    InvalidDateFormat,
}

} // verus!
