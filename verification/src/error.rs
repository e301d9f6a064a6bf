//! The failures that the backend layer reports, each naming the resource that
//! failed, and the text shown to the user for it.

use crate::text::{decimal_text, spec_decimal};
use vstd::prelude::*;

verus! {

/// The file operations that preparing the generator's directory performs.
#[derive(Clone, Copy, Debug, PartialEq, Eq, Structural)]
pub enum FileOperation {
    Remove,
    Link,
    Copy,
    Create,
    CreateDirectory,
}

/// Everything that can go wrong between the front-end and the generator.
#[derive(Clone, Debug, PartialEq, Eq)]
pub enum BackendError {
    /// No candidate location held the generator; `tried` lists them in probe order.
    PathNotFound { tried: Vec<String> },
    /// A directory named in the settings could not be created.
    DirectoryCreationFailed { directory: String, cause: String },
    /// The settings could not be read, parsed, defaulted or written.
    SettingsIoError { cause: String },
    /// A write named a field that is not one of the five legacy fields.
    UnknownField { name: String },
    /// Mirroring a file into the generator's directory failed.
    LinkOrCopyFailed { operation: FileOperation, file: String, cause: String },
    /// The generator could not be started.
    LaunchFailed { cause: String },
    /// The generator ran and exited with a failure status.
    ExecutionFailed { stderr: String },
    /// A produced file could not be copied to the output directory.
    OutputCopyFailed { file: String, cause: String },
    /// The invoice table is missing or predates the expected layout.
    SchemaIncompatible,
    /// No invoice has the requested id.
    NotFound { id: i32 },
}

/// The mathematical value of a [`BackendError`].
pub enum ErrorView {
    PathNotFound { tried: Seq<Seq<char>> },
    DirectoryCreationFailed { directory: Seq<char>, cause: Seq<char> },
    SettingsIoError { cause: Seq<char> },
    UnknownField { name: Seq<char> },
    LinkOrCopyFailed { operation: FileOperation, file: Seq<char>, cause: Seq<char> },
    LaunchFailed { cause: Seq<char> },
    ExecutionFailed { stderr: Seq<char> },
    OutputCopyFailed { file: Seq<char>, cause: Seq<char> },
    SchemaIncompatible,
    NotFound { id: i32 },
}

/// The views of a sequence of strings, in order.
pub open spec fn text_views(items: Seq<String>) -> Seq<Seq<char>> {
    Seq::new(items.len(), |i: int| items[i]@)
}

/// One line per item, each introduced by a line break and a dash.
pub open spec fn spec_bullets(items: Seq<Seq<char>>) -> Seq<char>
    decreases items.len(),
{
    if items.len() == 0 {
        Seq::empty()
    } else {
        spec_bullets(items.drop_last()) + "\n- "@ + items.last()
    }
}

/// The wording for each file operation.
pub open spec fn spec_operation_text(operation: FileOperation) -> Seq<char> {
    match operation {
        FileOperation::Remove => "remove"@,
        FileOperation::Link => "link"@,
        FileOperation::Copy => "copy"@,
        FileOperation::Create => "create"@,
        FileOperation::CreateDirectory => "create directory"@,
    }
}

impl View for BackendError {
    type V = ErrorView;

    open spec fn view(&self) -> ErrorView {
        match self {
            BackendError::PathNotFound { tried } => ErrorView::PathNotFound {
                tried: text_views(tried@),
            },
            BackendError::DirectoryCreationFailed { directory, cause } => {
                ErrorView::DirectoryCreationFailed { directory: directory@, cause: cause@ }
            },
            BackendError::SettingsIoError { cause } => ErrorView::SettingsIoError {
                cause: cause@,
            },
            BackendError::UnknownField { name } => ErrorView::UnknownField { name: name@ },
            BackendError::LinkOrCopyFailed { operation, file, cause } => {
                ErrorView::LinkOrCopyFailed { operation: *operation, file: file@, cause: cause@ }
            },
            BackendError::LaunchFailed { cause } => ErrorView::LaunchFailed { cause: cause@ },
            BackendError::ExecutionFailed { stderr } => ErrorView::ExecutionFailed {
                stderr: stderr@,
            },
            BackendError::OutputCopyFailed { file, cause } => ErrorView::OutputCopyFailed {
                file: file@,
                cause: cause@,
            },
            BackendError::SchemaIncompatible => ErrorView::SchemaIncompatible,
            BackendError::NotFound { id } => ErrorView::NotFound { id: *id },
        }
    }
}

impl ErrorView {
    /// The human-readable message of an error.
    pub open spec fn message(self) -> Seq<char> {
        match self {
            ErrorView::PathNotFound { tried } => {
                "Could not find the generator directory. Make sure the application is properly installed. Locations tried:"@
                    + spec_bullets(tried)
            },
            ErrorView::DirectoryCreationFailed { directory, cause } => {
                "Failed to create directory "@ + directory + ": "@ + cause
            },
            ErrorView::SettingsIoError { cause } => "Settings error: "@ + cause,
            ErrorView::UnknownField { name } => "Unknown config field: "@ + name,
            ErrorView::LinkOrCopyFailed { operation, file, cause } => {
                "Failed to "@ + spec_operation_text(operation) + " "@ + file + ": "@ + cause
            },
            ErrorView::LaunchFailed { cause } => "Failed to launch the generator: "@ + cause,
            ErrorView::ExecutionFailed { stderr } => stderr,
            ErrorView::OutputCopyFailed { file, cause } => {
                "Failed to copy "@ + file + " to output directory: "@ + cause
            },
            ErrorView::SchemaIncompatible => "Invoice table is missing or has an older layout"@,
            ErrorView::NotFound { id } => "Invoice "@ + spec_decimal(id as int) + " not found"@,
        }
    }
}

/// The wording for a file operation.
pub fn operation_text(operation: FileOperation) -> (text: &'static str)
    ensures
        text@ == spec_operation_text(operation),
{
    match operation {
        FileOperation::Remove => "remove",
        FileOperation::Link => "link",
        FileOperation::Copy => "copy",
        FileOperation::Create => "create",
        FileOperation::CreateDirectory => "create directory",
    }
}

/// Renders the items as dashed lines.
pub fn bullets(items: &Vec<String>) -> (text: String)
    ensures
        text@ == spec_bullets(text_views(items@)),
{
    let mut text = String::new();
    let mut i: usize = 0;
    while i < items.len()
        invariant
            i <= items.len(),
            text@ == spec_bullets(text_views(items@).take(i as int)),
        decreases items.len() - i,
    {
        text.append("\n- ");
        text.append(items[i].as_str());
        proof {
            let all = text_views(items@);
            assert(all.take(i + 1).drop_last() =~= all.take(i as int));
            assert(all.take(i + 1).last() == items[i as int]@);
        }
        i = i + 1;
    }
    assert(text_views(items@).take(i as int) =~= text_views(items@));
    text
}

impl BackendError {
    /// The message shown to the user: it names the failing resource.
    pub fn message(&self) -> (text: String)
        ensures
            text@ == self@.message(),
    {
        match self {
            BackendError::PathNotFound { tried } => {
                let mut text = String::from_str(
                    "Could not find the generator directory. Make sure the application is properly installed. Locations tried:",
                );
                let list = bullets(tried);
                text.append(list.as_str());
                text
            },
            BackendError::DirectoryCreationFailed { directory, cause } => {
                let mut text = String::from_str("Failed to create directory ");
                text.append(directory.as_str());
                text.append(": ");
                text.append(cause.as_str());
                text
            },
            BackendError::SettingsIoError { cause } => {
                let mut text = String::from_str("Settings error: ");
                text.append(cause.as_str());
                text
            },
            BackendError::UnknownField { name } => {
                let mut text = String::from_str("Unknown config field: ");
                text.append(name.as_str());
                text
            },
            BackendError::LinkOrCopyFailed { operation, file, cause } => {
                let mut text = String::from_str("Failed to ");
                text.append(operation_text(*operation));
                text.append(" ");
                text.append(file.as_str());
                text.append(": ");
                text.append(cause.as_str());
                text
            },
            BackendError::LaunchFailed { cause } => {
                let mut text = String::from_str("Failed to launch the generator: ");
                text.append(cause.as_str());
                text
            },
            BackendError::ExecutionFailed { stderr } => stderr.clone(),
            BackendError::OutputCopyFailed { file, cause } => {
                let mut text = String::from_str("Failed to copy ");
                text.append(file.as_str());
                text.append(" to output directory: ");
                text.append(cause.as_str());
                text
            },
            BackendError::SchemaIncompatible => String::from_str(
                "Invoice table is missing or has an older layout",
            ),
            BackendError::NotFound { id } => {
                let mut text = String::from_str("Invoice ");
                let number = decimal_text(*id);
                text.append(number.as_str());
                text.append(" not found");
                text
            },
        }
    }
}

} // verus!
