//! What can go wrong in a replication run, and where.

use vstd::prelude::*;
use crate::text::{decimal, decimal_of, Text};

verus! {

/// The point of a run at which a request is made.
#[derive(Debug, Clone, Copy, PartialEq, Eq, Structural)]
pub enum Stage {
    /// Asking both servers and both databases who they are.
    Identify,
    /// Loading the checkpoints of both ends.
    LoadCheckpoints,
    /// Reading the changes feed of the source.
    Changes,
    /// Asking the target which revisions it lacks.
    Diff,
    /// Fetching the missing revisions from the source.
    Fetch,
    /// Installing the revisions on the target.
    Install,
    /// Writing the new checkpoints to both ends.
    SaveCheckpoints,
}

/// Why a run was given up.
#[derive(Debug, PartialEq, Eq)]
pub enum Error {
    /// The text is no address that a request can be built on.
    Address(String),
    /// The request brought no answer; the text says why.
    Transport(String),
    /// The answer has a status that the operation does not expect.
    Upstream { status: u16, body: String },
    /// The body of the answer, which is not what the operation returns.
    Decode(String),
    /// The source handed out no document for a revision asked of it.
    Protocol { id: String, rev: String },
}

/// The model of an `Error`.
pub enum ErrorModel {
    Address(Text),
    Transport(Text),
    Upstream { status: u16, body: Text },
    Decode(Text),
    Protocol { id: Text, rev: Text },
}

impl DeepView for Error {
    type V = ErrorModel;

    open spec fn deep_view(&self) -> ErrorModel {
        match self {
            Error::Address(text) => ErrorModel::Address(text@),
            Error::Transport(text) => ErrorModel::Transport(text@),
            Error::Upstream { status, body } => ErrorModel::Upstream {
                status: *status,
                body: body@,
            },
            Error::Decode(body) => ErrorModel::Decode(body@),
            Error::Protocol { id, rev } => ErrorModel::Protocol { id: id@, rev: rev@ },
        }
    }
}

impl View for Error {
    type V = ErrorModel;

    open spec fn view(&self) -> ErrorModel {
        self.deep_view()
    }
}

/// An error and the stage at which it came.
#[derive(Debug, PartialEq, Eq)]
pub struct Failure {
    pub stage: Stage,
    pub error: Error,
}

/// The model of a `Failure`.
pub struct FailureModel {
    pub stage: Stage,
    pub error: ErrorModel,
}

impl DeepView for Failure {
    type V = FailureModel;

    open spec fn deep_view(&self) -> FailureModel {
        FailureModel { stage: self.stage, error: self.error@ }
    }
}

impl View for Failure {
    type V = FailureModel;

    open spec fn view(&self) -> FailureModel {
        self.deep_view()
    }
}

/// Whether a result is the one that a model of it describes.
pub open spec fn agrees<T: DeepView>(result: Result<T, Error>, model: Result<T::V, ErrorModel>) -> bool {
    match result {
        Ok(value) => model == Ok::<T::V, ErrorModel>(value.deep_view()),
        Err(error) => model == Err::<T::V, ErrorModel>(error@),
    }
}

/// The name of a stage in a diagnostic line.
pub open spec fn stage_name(stage: Stage) -> Text {
    match stage {
        Stage::Identify => "identify"@,
        Stage::LoadCheckpoints => "load checkpoints"@,
        Stage::Changes => "changes"@,
        Stage::Diff => "diff"@,
        Stage::Fetch => "fetch"@,
        Stage::Install => "install"@,
        Stage::SaveCheckpoints => "save checkpoints"@,
    }
}

/// What a diagnostic line says of an error.
pub open spec fn error_text(error: ErrorModel) -> Text {
    match error {
        ErrorModel::Address(text) => "not a usable address: "@ + text,
        ErrorModel::Transport(why) => "no answer: "@ + why,
        ErrorModel::Upstream { status, body } => "status "@ + decimal(status as nat) + ": "@ + body,
        ErrorModel::Decode(body) => "unreadable answer: "@ + body,
        ErrorModel::Protocol { id, rev } => "no document for revision "@ + rev + " of "@ + id,
    }
}

/// The diagnostic line of a failure: the stage, a colon, and the error.
pub open spec fn described(failure: FailureModel) -> Text {
    stage_name(failure.stage) + ": "@ + error_text(failure.error)
}

impl Stage {
    /// The name of the stage in a diagnostic line.
    pub fn name(&self) -> (name: &'static str)
        ensures
            name@ == stage_name(*self),
    {
        match self {
            Stage::Identify => "identify",
            Stage::LoadCheckpoints => "load checkpoints",
            Stage::Changes => "changes",
            Stage::Diff => "diff",
            Stage::Fetch => "fetch",
            Stage::Install => "install",
            Stage::SaveCheckpoints => "save checkpoints",
        }
    }
}

impl Error {
    /// What a diagnostic line says of the error.
    pub fn message(&self) -> (text: String)
        ensures
            text@ == error_text(self@),
    {
        match self {
            Error::Address(address) => {
                let mut text = String::from_str("not a usable address: ");
                text.append(address.as_str());
                text
            },
            Error::Transport(why) => {
                let mut text = String::from_str("no answer: ");
                text.append(why.as_str());
                text
            },
            Error::Upstream { status, body } => {
                let mut text = String::from_str("status ");
                text.append(decimal_of(*status).as_str());
                text.append(": ");
                text.append(body.as_str());
                text
            },
            Error::Decode(body) => {
                let mut text = String::from_str("unreadable answer: ");
                text.append(body.as_str());
                text
            },
            Error::Protocol { id, rev } => {
                let mut text = String::from_str("no document for revision ");
                text.append(rev.as_str());
                text.append(" of ");
                text.append(id.as_str());
                text
            },
        }
    }
}

impl Failure {
    /// The diagnostic line of the failure.
    pub fn describe(&self) -> (line: String)
        ensures
            line@ == described(self@),
    {
        let mut line = String::from_str(self.stage.name());
        line.append(": ");
        line.append(self.error.message().as_str());
        line
    }
}

} // verus!
