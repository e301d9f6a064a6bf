//! Preparing the generator's working directory before a run.
//!
//! Preparation is a short dialogue. The reconciler names one file operation at
//! a time; the caller performs it and answers whether it went well (for a
//! probe: whether the path exists); the reconciler names the next one, until
//! it says `Finish` or `Abort`. Nothing is remembered between preparations:
//! each one starts from the first action and so heals what an interrupted one
//! left behind.

use crate::error::{BackendError, ErrorView, FileOperation};
use crate::fields::ConfigField;
use crate::text::{join_path, spec_join};
use vstd::prelude::*;

verus! {

/// How the front-end and the generator share their data.
#[derive(Clone, Copy, Debug, PartialEq, Eq, Structural)]
pub enum Mode {
    /// Both use one database file; the generator's copy is a link to it.
    SharedDatabase,
    /// The five field files are mirrored into the generator's config directory.
    MirroredFiles,
}

/// What a failed operation was applied to.
#[derive(Clone, Copy, Debug, PartialEq, Eq, Structural)]
pub enum Target {
    GeneratorDatabase,
    ConfigDirectory,
    Field(ConfigField),
}

/// One step of a preparation.
#[derive(Clone, Copy, Debug, PartialEq, Eq, Structural)]
pub enum Action {
    /// Does a database file exist at the generator's location?
    ProbeGeneratorDatabase,
    /// Remove the stale database file at the generator's location.
    RemoveGeneratorDatabase,
    /// Link the generator's location to the canonical database.
    LinkDatabase,
    /// Does the link at the generator's location lead to a database?
    ProbeLinkedDatabase,
    /// Does the canonical database exist?
    ProbeCanonicalDatabase,
    /// Copy the canonical database to the generator's location.
    CopyDatabase,
    /// Create an empty database file at the generator's location. Through a
    /// link this creates the canonical database itself.
    CreatePlaceholder,
    /// Create the generator's config directory.
    CreateConfigDirectory,
    /// Does the front-end hold a file for this field?
    ProbeField(ConfigField),
    /// Copy the front-end's file for this field to the generator.
    CopyField(ConfigField),
    /// Create an empty file for this field at the generator.
    CreateEmptyField(ConfigField),
    /// The environment is ready.
    Finish,
    /// Preparation failed at `operation` on `target`.
    Abort { operation: FileOperation, target: Target },
}

/// The action that opens a preparation.
pub open spec fn spec_first_action(mode: Mode) -> Action {
    match mode {
        Mode::SharedDatabase => Action::ProbeGeneratorDatabase,
        Mode::MirroredFiles => Action::CreateConfigDirectory,
    }
}

/// What follows once a field's file is in place.
pub open spec fn spec_after_field(field: ConfigField) -> Action {
    match field.spec_next() {
        Some(following) => Action::ProbeField(following),
        None => Action::Finish,
    }
}

/// The action that follows `last`, given how `last` went.
pub open spec fn spec_next_action(last: Action, ok: bool) -> Action {
    match last {
        Action::ProbeGeneratorDatabase => if ok {
            Action::RemoveGeneratorDatabase
        } else {
            Action::LinkDatabase
        },
        Action::RemoveGeneratorDatabase => if ok {
            Action::LinkDatabase
        } else {
            Action::Abort { operation: FileOperation::Remove, target: Target::GeneratorDatabase }
        },
        Action::LinkDatabase => if ok {
            Action::ProbeLinkedDatabase
        } else {
            Action::ProbeCanonicalDatabase
        },
        Action::ProbeLinkedDatabase => if ok {
            Action::Finish
        } else {
            Action::CreatePlaceholder
        },
        Action::ProbeCanonicalDatabase => if ok {
            Action::CopyDatabase
        } else {
            Action::CreatePlaceholder
        },
        Action::CopyDatabase => if ok {
            Action::Finish
        } else {
            Action::Abort { operation: FileOperation::Copy, target: Target::GeneratorDatabase }
        },
        Action::CreatePlaceholder => if ok {
            Action::Finish
        } else {
            Action::Abort { operation: FileOperation::Create, target: Target::GeneratorDatabase }
        },
        Action::CreateConfigDirectory => if ok {
            Action::ProbeField(ConfigField::Sender)
        } else {
            Action::Abort {
                operation: FileOperation::CreateDirectory,
                target: Target::ConfigDirectory,
            }
        },
        Action::ProbeField(field) => if ok {
            Action::CopyField(field)
        } else {
            Action::CreateEmptyField(field)
        },
        Action::CopyField(field) => if ok {
            spec_after_field(field)
        } else {
            Action::Abort { operation: FileOperation::Copy, target: Target::Field(field) }
        },
        Action::CreateEmptyField(field) => if ok {
            spec_after_field(field)
        } else {
            Action::Abort { operation: FileOperation::Create, target: Target::Field(field) }
        },
        Action::Finish => Action::Finish,
        Action::Abort { operation, target } => Action::Abort { operation, target },
    }
}

/// A preparation has ended when it says `Finish` or `Abort`.
pub open spec fn spec_is_final(action: Action) -> bool {
    action is Finish || action is Abort
}

/// Opens a preparation.
pub fn first_action(mode: Mode) -> (action: Action)
    ensures
        action == spec_first_action(mode),
{
    match mode {
        Mode::SharedDatabase => Action::ProbeGeneratorDatabase,
        Mode::MirroredFiles => Action::CreateConfigDirectory,
    }
}

/// Whether the preparation has ended with this action.
pub fn is_final(action: Action) -> (ended: bool)
    ensures
        ended == spec_is_final(action),
{
    match action {
        Action::Finish => true,
        Action::Abort { .. } => true,
        _ => false,
    }
}

fn after_field(field: ConfigField) -> (action: Action)
    ensures
        action == spec_after_field(field),
{
    match field.next() {
        Some(following) => Action::ProbeField(following),
        None => Action::Finish,
    }
}

fn proceed(ok: bool, onward: Action, operation: FileOperation, target: Target) -> (action: Action)
    ensures
        action == if ok {
            onward
        } else {
            Action::Abort { operation, target }
        },
{
    if ok {
        onward
    } else {
        Action::Abort { operation, target }
    }
}

/// Names the action that follows `last`. `ok` tells how `last` went: for a
/// probe, whether the path exists; for an operation, whether it succeeded.
pub fn next_action(last: Action, ok: bool) -> (action: Action)
    ensures
        action == spec_next_action(last, ok),
{
    match last {
        Action::ProbeGeneratorDatabase => {
            if ok {
                Action::RemoveGeneratorDatabase
            } else {
                Action::LinkDatabase
            }
        },
        Action::RemoveGeneratorDatabase => proceed(
            ok,
            Action::LinkDatabase,
            FileOperation::Remove,
            Target::GeneratorDatabase,
        ),
        Action::LinkDatabase => {
            if ok {
                Action::ProbeLinkedDatabase
            } else {
                Action::ProbeCanonicalDatabase
            }
        },
        Action::ProbeLinkedDatabase => {
            if ok {
                Action::Finish
            } else {
                Action::CreatePlaceholder
            }
        },
        Action::ProbeCanonicalDatabase => {
            if ok {
                Action::CopyDatabase
            } else {
                Action::CreatePlaceholder
            }
        },
        Action::CopyDatabase => proceed(
            ok,
            Action::Finish,
            FileOperation::Copy,
            Target::GeneratorDatabase,
        ),
        Action::CreatePlaceholder => proceed(
            ok,
            Action::Finish,
            FileOperation::Create,
            Target::GeneratorDatabase,
        ),
        Action::CreateConfigDirectory => proceed(
            ok,
            Action::ProbeField(ConfigField::Sender),
            FileOperation::CreateDirectory,
            Target::ConfigDirectory,
        ),
        Action::ProbeField(field) => {
            if ok {
                Action::CopyField(field)
            } else {
                Action::CreateEmptyField(field)
            }
        },
        Action::CopyField(field) => proceed(
            ok,
            after_field(field),
            FileOperation::Copy,
            Target::Field(field),
        ),
        Action::CreateEmptyField(field) => proceed(
            ok,
            after_field(field),
            FileOperation::Create,
            Target::Field(field),
        ),
        Action::Finish => Action::Finish,
        Action::Abort { operation, target } => Action::Abort { operation, target },
    }
}

/// The paths that a preparation works on.
#[derive(Clone, Debug, PartialEq, Eq)]
pub struct Layout {
    /// The generator's root directory.
    pub backend: String,
    /// The database file that the front-end owns.
    pub canonical_database: String,
    /// The directory that holds the front-end's field files.
    pub user_config_dir: String,
}

/// Where the generator expects its database.
pub open spec fn spec_generator_database(backend: Seq<char>) -> Seq<char> {
    spec_join(backend, "invoices.db"@)
}

/// Where the generator expects its field files.
pub open spec fn spec_generator_config_dir(backend: Seq<char>) -> Seq<char> {
    spec_join(backend, "config"@)
}

impl Layout {
    /// The path in the generator's directory that stands for `target`.
    pub open spec fn spec_target_path(&self, target: Target) -> Seq<char> {
        match target {
            Target::GeneratorDatabase => spec_generator_database(self.backend@),
            Target::ConfigDirectory => spec_generator_config_dir(self.backend@),
            Target::Field(field) => spec_join(
                spec_generator_config_dir(self.backend@),
                field.spec_file_name(),
            ),
        }
    }

    /// The front-end's path that an action reads, if it reads one.
    pub open spec fn spec_source_path(&self, action: Action) -> Option<Seq<char>> {
        match action {
            Action::LinkDatabase => Some(self.canonical_database@),
            Action::ProbeCanonicalDatabase => Some(self.canonical_database@),
            Action::CopyDatabase => Some(self.canonical_database@),
            Action::ProbeField(field) => Some(
                spec_join(self.user_config_dir@, field.spec_file_name()),
            ),
            Action::CopyField(field) => Some(
                spec_join(self.user_config_dir@, field.spec_file_name()),
            ),
            _ => None,
        }
    }

    /// The path in the generator's directory that stands for `target`.
    pub fn target_path(&self, target: Target) -> (path: String)
        ensures
            path@ == self.spec_target_path(target),
    {
        match target {
            Target::GeneratorDatabase => join_path(self.backend.as_str(), "invoices.db"),
            Target::ConfigDirectory => join_path(self.backend.as_str(), "config"),
            Target::Field(field) => {
                let dir = join_path(self.backend.as_str(), "config");
                join_path(dir.as_str(), field.file_name())
            },
        }
    }

    /// The front-end's path that an action reads, if it reads one.
    pub fn source_path(&self, action: Action) -> (path: Option<String>)
        ensures
            path is Some <==> self.spec_source_path(action) is Some,
            path is Some ==> path.unwrap()@ == self.spec_source_path(action).unwrap(),
    {
        match action {
            Action::LinkDatabase => Some(self.canonical_database.clone()),
            Action::ProbeCanonicalDatabase => Some(self.canonical_database.clone()),
            Action::CopyDatabase => Some(self.canonical_database.clone()),
            Action::ProbeField(field) => Some(
                join_path(self.user_config_dir.as_str(), field.file_name()),
            ),
            Action::CopyField(field) => Some(
                join_path(self.user_config_dir.as_str(), field.file_name()),
            ),
            _ => None,
        }
    }

    /// The failure that an `Abort` stands for: it names the operation and the
    /// file it was applied to, and carries the cause that the caller saw.
    pub fn failure(&self, operation: FileOperation, target: Target, cause: &str) -> (error:
        BackendError)
        ensures
            error@ == (ErrorView::LinkOrCopyFailed {
                operation,
                file: self.spec_target_path(target),
                cause: cause@,
            }),
    {
        BackendError::LinkOrCopyFailed {
            operation,
            file: self.target_path(target),
            cause: String::from_str(cause),
        }
    }
}

/// The path in the generator's directory that an action works on, if any.
pub open spec fn spec_action_target(action: Action) -> Option<Target> {
    match action {
        Action::ProbeGeneratorDatabase => Some(Target::GeneratorDatabase),
        Action::RemoveGeneratorDatabase => Some(Target::GeneratorDatabase),
        Action::LinkDatabase => Some(Target::GeneratorDatabase),
        Action::ProbeLinkedDatabase => Some(Target::GeneratorDatabase),
        Action::CopyDatabase => Some(Target::GeneratorDatabase),
        Action::CreatePlaceholder => Some(Target::GeneratorDatabase),
        Action::CreateConfigDirectory => Some(Target::ConfigDirectory),
        Action::CopyField(field) => Some(Target::Field(field)),
        Action::CreateEmptyField(field) => Some(Target::Field(field)),
        _ => None,
    }
}

/// The path in the generator's directory that an action works on, if any.
pub fn action_target(action: Action) -> (target: Option<Target>)
    ensures
        target == spec_action_target(action),
{
    match action {
        Action::ProbeGeneratorDatabase => Some(Target::GeneratorDatabase),
        Action::RemoveGeneratorDatabase => Some(Target::GeneratorDatabase),
        Action::LinkDatabase => Some(Target::GeneratorDatabase),
        Action::ProbeLinkedDatabase => Some(Target::GeneratorDatabase),
        Action::CopyDatabase => Some(Target::GeneratorDatabase),
        Action::CreatePlaceholder => Some(Target::GeneratorDatabase),
        Action::CreateConfigDirectory => Some(Target::ConfigDirectory),
        Action::CopyField(field) => Some(Target::Field(field)),
        Action::CreateEmptyField(field) => Some(Target::Field(field)),
        _ => None,
    }
}

/// Brings the generator's database back after a run. Both sides use the same
/// file, so there is nothing to carry over and this always succeeds.
pub fn sync_ocaml_database(ocaml_backend: &str) -> (synced: Result<(), BackendError>)
    ensures
        synced is Ok,
{
    Ok(())
}

} // verus!
