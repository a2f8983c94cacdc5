//! The failures that the control plane reports.

use crate::quantity::QuantityParseError;
use vstd::prelude::*;
use vstd::string::StringExecFns;

verus! {

/// Every way in which creating or running a droplet can fail.
#[derive(Debug, Clone, PartialEq, Eq)]
pub enum DropletError {
    /// The definition is malformed or of an unsupported kind.
    ConfigParseError,
    /// A resource quantity of the definition is no valid quantity text.
    QuantityParseError(QuantityParseError),
    /// The source bytes could not be read.
    SourceReadError,
    /// The engine rejected the source bytes or a compiled artifact.
    CompileError,
    /// The artifact cache could not be read or written.
    CacheIOError,
    /// No instance of the compiled artifact could be made.
    InstantiationError,
    /// The code exports no entry point of the expected name.
    HandlerNotFound,
    /// The code faulted while it ran; `cause` describes the fault.
    ExecutionTrap { cause: String },
    /// What the code wrote is no UTF-8 text.
    OutputDecodeError,
    /// No droplet is kept under the name.
    DropletNotFound,
    /// The durable store failed to read, write or flush.
    StorageError,
}

pub enum DropletErrorView {
    ConfigParseError,
    QuantityParseError(QuantityParseError),
    SourceReadError,
    CompileError,
    CacheIOError,
    InstantiationError,
    HandlerNotFound,
    ExecutionTrap { cause: Seq<char> },
    OutputDecodeError,
    DropletNotFound,
    StorageError,
}

impl View for DropletError {
    type V = DropletErrorView;

    open spec fn view(&self) -> DropletErrorView {
        match self {
            DropletError::ConfigParseError => DropletErrorView::ConfigParseError,
            DropletError::QuantityParseError(e) => DropletErrorView::QuantityParseError(*e),
            DropletError::SourceReadError => DropletErrorView::SourceReadError,
            DropletError::CompileError => DropletErrorView::CompileError,
            DropletError::CacheIOError => DropletErrorView::CacheIOError,
            DropletError::InstantiationError => DropletErrorView::InstantiationError,
            DropletError::HandlerNotFound => DropletErrorView::HandlerNotFound,
            DropletError::ExecutionTrap { cause } => DropletErrorView::ExecutionTrap {
                cause: cause@,
            },
            DropletError::OutputDecodeError => DropletErrorView::OutputDecodeError,
            DropletError::DropletNotFound => DropletErrorView::DropletNotFound,
            DropletError::StorageError => DropletErrorView::StorageError,
        }
    }
}

impl DropletErrorView {
    /// The status that the control surface answers with: 400 for a text
    /// that is no definition, 404 for an unknown name, 500 for the rest. A
    /// budget that is no quantity is among the rest: it shows when a droplet
    /// is run, and is no fault of the request to run it.
    pub open spec fn status(self) -> u16 {
        match self {
            DropletErrorView::ConfigParseError => 400,
            DropletErrorView::DropletNotFound => 404,
            _ => 500,
        }
    }
}

impl DropletErrorView {
    /// A fixed line that names the kind of failure.
    pub open spec fn message_text(self) -> Seq<char> {
        match self {
            DropletErrorView::ConfigParseError => "Malformed droplet definition."@,
            DropletErrorView::QuantityParseError(e) => e.message_text(),
            DropletErrorView::SourceReadError => "Failed to read the droplet source."@,
            DropletErrorView::CompileError => "Failed to compile the droplet."@,
            DropletErrorView::CacheIOError => "Failed to access the artifact cache."@,
            DropletErrorView::InstantiationError => "Failed to instantiate the droplet."@,
            DropletErrorView::HandlerNotFound => "The droplet exports no handler."@,
            DropletErrorView::ExecutionTrap { .. } => "The droplet trapped."@,
            DropletErrorView::OutputDecodeError => "The droplet output is not UTF-8."@,
            DropletErrorView::DropletNotFound => "Droplet does not exist."@,
            DropletErrorView::StorageError => "The droplet store failed."@,
        }
    }
}

impl DropletErrorView {
    /// The text shown for the failure: the line that names its kind, and for
    /// a trap the cause behind it.
    pub open spec fn description(self) -> Seq<char> {
        match self {
            DropletErrorView::ExecutionTrap { cause } => self.message_text() + " "@ + cause,
            _ => self.message_text(),
        }
    }
}

impl DropletError {
    /// The text shown for the failure.
    pub fn describe(&self) -> (text: String)
        ensures
            text@ == self@.description(),
    {
        let mut text = String::from_str(self.message());
        match self {
            DropletError::ExecutionTrap { cause } => {
                text.append(" ");
                text.append(cause.as_str());
            },
            _ => {},
        }
        text
    }

    /// The status that the control surface answers with.
    pub fn status(&self) -> (code: u16)
        ensures
            code == self@.status(),
    {
        match self {
            DropletError::ConfigParseError => 400,
            DropletError::DropletNotFound => 404,
            _ => 500,
        }
    }

    /// A fixed line that names the kind of failure.
    pub fn message(&self) -> (text: &'static str)
        ensures
            text@ == self@.message_text(),
    {
        match self {
            DropletError::ConfigParseError => "Malformed droplet definition.",
            DropletError::QuantityParseError(e) => e.message(),
            DropletError::SourceReadError => "Failed to read the droplet source.",
            DropletError::CompileError => "Failed to compile the droplet.",
            DropletError::CacheIOError => "Failed to access the artifact cache.",
            DropletError::InstantiationError => "Failed to instantiate the droplet.",
            DropletError::HandlerNotFound => "The droplet exports no handler.",
            DropletError::ExecutionTrap { .. } => "The droplet trapped.",
            DropletError::OutputDecodeError => "The droplet output is not UTF-8.",
            DropletError::DropletNotFound => "Droplet does not exist.",
            DropletError::StorageError => "The droplet store failed.",
        }
    }
}

} // verus!
