//! What the file system answered to the calls that an operation asked for,
//! as plain values.

use vstd::prelude::*;
use crate::error::IoFault;
use crate::error::IoFaultView;

verus! {

/// How opening a file and reading all of it went.
#[derive(Clone, Debug, PartialEq, Eq)]
pub enum ReadOutcome {
    /// The file could not be opened.
    OpenFailed(IoFault),
    /// The file was opened, and reading it failed.
    ReadFailed(IoFault),
    /// The file was read to its end: its bytes.
    Loaded(Vec<u8>),
}

/// The mathematical value of a `ReadOutcome`.
pub enum ReadOutcomeView {
    OpenFailed(IoFaultView),
    ReadFailed(IoFaultView),
    Loaded(Seq<u8>),
}

impl View for ReadOutcome {
    type V = ReadOutcomeView;

    open spec fn view(&self) -> ReadOutcomeView {
        match self {
            ReadOutcome::OpenFailed(fault) => ReadOutcomeView::OpenFailed(fault@),
            ReadOutcome::ReadFailed(fault) => ReadOutcomeView::ReadFailed(fault@),
            ReadOutcome::Loaded(bytes) => ReadOutcomeView::Loaded(bytes@),
        }
    }
}

/// How creating (or truncating) a file and writing all of the bytes went.
#[derive(Clone, Debug, PartialEq, Eq)]
pub enum WriteOutcome {
    /// The file could not be created.
    CreateFailed(IoFault),
    /// The file was created, and writing the bytes failed.
    WriteFailed(IoFault),
    /// Every byte was written.
    Written,
}

/// The mathematical value of a `WriteOutcome`.
pub enum WriteOutcomeView {
    CreateFailed(IoFaultView),
    WriteFailed(IoFaultView),
    Written,
}

impl View for WriteOutcome {
    type V = WriteOutcomeView;

    open spec fn view(&self) -> WriteOutcomeView {
        match self {
            WriteOutcome::CreateFailed(fault) => WriteOutcomeView::CreateFailed(fault@),
            WriteOutcome::WriteFailed(fault) => WriteOutcomeView::WriteFailed(fault@),
            WriteOutcome::Written => WriteOutcomeView::Written,
        }
    }
}

/// What to write, and where, to store a value.
#[derive(Clone, Debug, PartialEq, Eq)]
pub struct WriteRequest {
    /// The file to create, or to truncate where it exists.
    pub path: String,
    /// The file's whole content.
    pub bytes: Vec<u8>,
}

/// The mathematical value of the answer to a call that returns nothing but
/// success or a fault: asking for a path's metadata, creating a directory,
/// deleting a file.
pub open spec fn spec_answer(answer: Result<(), IoFault>) -> Result<(), IoFaultView> {
    match answer {
        Ok(_) => Ok(()),
        Err(fault) => Err(fault@),
    }
}

} // verus!
