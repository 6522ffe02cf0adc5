//! The failures that the two managers report, and the text shown for each.

use vstd::prelude::*;
use vstd::string::StringExecFns;
use crate::text::concat;

verus! {

/// The step of a write at which the device failed.
#[derive(Debug, Clone, Copy, PartialEq, Eq)]
pub enum WriteStage {
    /// Handing the bytes to the device.
    Transmit,
    /// Waiting until the bytes have left the device's buffer.
    Flush,
}

/// A failure of an operation on the session registry.
#[derive(Debug, PartialEq, Eq)]
pub enum SerialError {
    /// `open` for a name that already has a session.
    DuplicateSession,
    /// `close` for a name that has no session.
    NotFound,
    /// `read` or `write` for a name that has no session.
    NotOpen,
    /// The device could not be opened; holds the system's message.
    OpenError(String),
    /// The devices could not be enumerated; holds the system's message.
    EnumerationError(String),
    /// Writing or flushing failed; holds the step and the system's message.
    WriteError(WriteStage, String),
    /// Reading failed for another reason than a timeout; holds the system's
    /// message.
    ReadError(String),
}

/// A [`SerialError`] with its texts as character sequences.
pub enum SerialErrorView {
    DuplicateSession,
    NotFound,
    NotOpen,
    OpenError(Seq<char>),
    EnumerationError(Seq<char>),
    WriteError(WriteStage, Seq<char>),
    ReadError(Seq<char>),
}

impl SerialErrorView {
    /// The text shown for this failure.
    pub open spec fn message(self) -> Seq<char> {
        match self {
            SerialErrorView::DuplicateSession => "Port is already open"@,
            SerialErrorView::NotFound => "Port not found or already closed"@,
            SerialErrorView::NotOpen => "Port not open"@,
            SerialErrorView::OpenError(reason) => "Failed to open port: "@ + reason,
            SerialErrorView::EnumerationError(reason) => reason,
            SerialErrorView::WriteError(WriteStage::Transmit, reason) => "Failed to write to port: "@
                + reason,
            SerialErrorView::WriteError(WriteStage::Flush, reason) => "Failed to flush port: "@
                + reason,
            SerialErrorView::ReadError(reason) => "Failed to read from port: "@ + reason,
        }
    }
}

impl View for SerialError {
    type V = SerialErrorView;

    open spec fn view(&self) -> SerialErrorView {
        match self {
            SerialError::DuplicateSession => SerialErrorView::DuplicateSession,
            SerialError::NotFound => SerialErrorView::NotFound,
            SerialError::NotOpen => SerialErrorView::NotOpen,
            SerialError::OpenError(reason) => SerialErrorView::OpenError(reason@),
            SerialError::EnumerationError(reason) => SerialErrorView::EnumerationError(reason@),
            SerialError::WriteError(stage, reason) => SerialErrorView::WriteError(*stage, reason@),
            SerialError::ReadError(reason) => SerialErrorView::ReadError(reason@),
        }
    }
}

impl SerialError {
    /// The text shown for this failure.
    pub fn message(&self) -> (text: String)
        ensures
            text@ == self@.message(),
    {
        match self {
            SerialError::DuplicateSession => String::from_str("Port is already open"),
            SerialError::NotFound => String::from_str("Port not found or already closed"),
            SerialError::NotOpen => String::from_str("Port not open"),
            SerialError::OpenError(reason) => concat("Failed to open port: ", reason.as_str()),
            SerialError::EnumerationError(reason) => reason.clone(),
            SerialError::WriteError(WriteStage::Transmit, reason) => concat(
                "Failed to write to port: ",
                reason.as_str(),
            ),
            SerialError::WriteError(WriteStage::Flush, reason) => concat(
                "Failed to flush port: ",
                reason.as_str(),
            ),
            SerialError::ReadError(reason) => concat("Failed to read from port: ", reason.as_str()),
        }
    }
}

/// The result of a registry operation that answers with a text.
pub open spec fn text_outcome(
    result: Result<String, SerialError>,
) -> Result<Seq<char>, SerialErrorView> {
    match result {
        Ok(text) => Ok(text@),
        Err(error) => Err(error@),
    }
}

/// A failure of an operation on the process supervisor.
#[derive(Debug, PartialEq, Eq)]
pub enum ServerError {
    /// The working directory could not be worked out; holds the resolver's
    /// message, which is shown unchanged.
    PathUnresolved(String),
    /// The working directory does not exist; holds the directory as shown to
    /// the user.
    PathNotFound(String),
    /// The process could not be launched; holds the system's message.
    SpawnError(String),
    /// The kill signal could not be delivered; holds the system's message.
    StopError(String),
}

/// A [`ServerError`] with its texts as character sequences.
pub enum ServerErrorView {
    PathUnresolved(Seq<char>),
    PathNotFound(Seq<char>),
    SpawnError(Seq<char>),
    StopError(Seq<char>),
}

impl ServerErrorView {
    /// The text shown for this failure.
    pub open spec fn message(self) -> Seq<char> {
        match self {
            ServerErrorView::PathUnresolved(reason) => reason,
            ServerErrorView::PathNotFound(location) => "Server directory not found at: "@ + location,
            ServerErrorView::SpawnError(reason) => "Failed to start server: "@ + reason
                + ". Make sure Node.js is installed."@,
            ServerErrorView::StopError(reason) => "Failed to stop server: "@ + reason,
        }
    }
}

impl View for ServerError {
    type V = ServerErrorView;

    open spec fn view(&self) -> ServerErrorView {
        match self {
            ServerError::PathUnresolved(reason) => ServerErrorView::PathUnresolved(reason@),
            ServerError::PathNotFound(location) => ServerErrorView::PathNotFound(location@),
            ServerError::SpawnError(reason) => ServerErrorView::SpawnError(reason@),
            ServerError::StopError(reason) => ServerErrorView::StopError(reason@),
        }
    }
}

impl ServerError {
    /// The text shown for this failure.
    pub fn message(&self) -> (text: String)
        ensures
            text@ == self@.message(),
    {
        match self {
            ServerError::PathUnresolved(reason) => reason.clone(),
            ServerError::PathNotFound(location) => concat(
                "Server directory not found at: ",
                location.as_str(),
            ),
            ServerError::SpawnError(reason) => {
                let mut text = concat("Failed to start server: ", reason.as_str());
                text.append(". Make sure Node.js is installed.");
                text
            },
            ServerError::StopError(reason) => concat("Failed to stop server: ", reason.as_str()),
        }
    }
}

} // verus!
