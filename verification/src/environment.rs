//! What a preparation achieves, stated over an abstract picture of the files
//! involved.
//!
//! The picture holds only what preparation touches: the canonical database,
//! whatever lies at the generator's database location, and the field files on
//! both sides. Every operation is taken to succeed except linking, which the
//! platform may not support and which never replaces an existing name. Probes
//! and file creation follow links, as they do on disk.

use crate::fields::ConfigField;
use crate::reconcile::{spec_first_action, spec_is_final, spec_next_action, Action, Mode};
use vstd::prelude::*;

verus! {

/// What lies at the generator's database location.
pub enum Slot {
    /// Nothing.
    Absent,
    /// A link to the canonical database, which may or may not exist.
    Link,
    /// A file of its own with these bytes.
    Data(Seq<u8>),
}

/// The files that preparation reads and writes.
pub struct Environment {
    /// The canonical database's bytes, if it exists.
    pub canonical: Option<Seq<u8>>,
    /// What lies at the generator's database location.
    pub generator: Slot,
    /// Whether the generator's config directory exists.
    pub config_dir: bool,
    /// The front-end's field files that exist, with their bytes.
    pub user_fields: Map<ConfigField, Seq<u8>>,
    /// The generator's field files that exist, with their bytes.
    pub generator_fields: Map<ConfigField, Seq<u8>>,
}

impl Environment {
    /// What a reader of the generator's database location gets.
    pub open spec fn visible(self) -> Option<Seq<u8>> {
        match self.generator {
            Slot::Absent => None,
            Slot::Link => self.canonical,
            Slot::Data(bytes) => Some(bytes),
        }
    }

    /// What the generator's file for `field` should hold: the front-end's
    /// bytes, or nothing when the front-end has no such file.
    pub open spec fn mirrored(self, field: ConfigField) -> Seq<u8> {
        if self.user_fields.contains_key(field) {
            self.user_fields[field]
        } else {
            Seq::empty()
        }
    }

    /// The answer that the files give to an action.
    pub open spec fn answer(self, action: Action, links_supported: bool) -> bool {
        match action {
            Action::ProbeGeneratorDatabase => self.visible() is Some,
            Action::ProbeLinkedDatabase => self.visible() is Some,
            Action::LinkDatabase => links_supported && self.generator is Absent,
            Action::ProbeCanonicalDatabase => self.canonical is Some,
            Action::ProbeField(field) => self.user_fields.contains_key(field),
            _ => true,
        }
    }

    /// Whether the picture says what an action does here. It says nothing of
    /// a copy without a source, nor of a copy onto a link.
    pub open spec fn covers(self, action: Action) -> bool {
        match action {
            Action::CopyDatabase => self.canonical is Some && !(self.generator is Link),
            Action::CopyField(field) => self.user_fields.contains_key(field),
            _ => true,
        }
    }

    /// The files after an action that went as `ok` says.
    pub open spec fn after(self, action: Action, ok: bool) -> Environment {
        if !ok {
            self
        } else {
            match action {
                Action::RemoveGeneratorDatabase => Environment { generator: Slot::Absent, ..self },
                Action::LinkDatabase => Environment { generator: Slot::Link, ..self },
                Action::CopyDatabase => Environment {
                    generator: Slot::Data(self.canonical.unwrap()),
                    ..self
                },
                Action::CreatePlaceholder => match self.generator {
                    Slot::Link => Environment { canonical: Some(Seq::empty()), ..self },
                    _ => Environment { generator: Slot::Data(Seq::empty()), ..self },
                },
                Action::CreateConfigDirectory => Environment { config_dir: true, ..self },
                Action::CopyField(field) => Environment {
                    generator_fields: self.generator_fields.insert(field, self.user_fields[field]),
                    ..self
                },
                Action::CreateEmptyField(field) => Environment {
                    generator_fields: self.generator_fields.insert(field, Seq::empty()),
                    ..self
                },
                _ => self,
            }
        }
    }
}

/// Where a preparation stands: the action to perform next, the files as they
/// are, and whether the picture covered every action so far.
pub struct Progress {
    pub action: Action,
    pub files: Environment,
    pub covered: bool,
}

/// Performs the action that is due and names the next one.
pub open spec fn spec_step(progress: Progress, links_supported: bool) -> Progress {
    let ok = progress.files.answer(progress.action, links_supported);
    Progress {
        action: spec_next_action(progress.action, ok),
        files: progress.files.after(progress.action, ok),
        covered: progress.covered && progress.files.covers(progress.action),
    }
}

/// Carries a preparation on for at most `steps` actions.
pub open spec fn spec_run(progress: Progress, links_supported: bool, steps: nat) -> Progress
    decreases steps,
{
    if steps == 0 || spec_is_final(progress.action) {
        progress
    } else {
        spec_run(spec_step(progress, links_supported), links_supported, (steps - 1) as nat)
    }
}

/// A whole preparation from its first action. No preparation takes more than
/// eleven actions before it ends.
pub open spec fn spec_prepare(mode: Mode, files: Environment, links_supported: bool) -> Progress {
    spec_run(
        Progress { action: spec_first_action(mode), files, covered: true },
        links_supported,
        12,
    )
}

/// In database-sharing mode a preparation finishes, within the picture, and
/// leaves the field files alone.
pub proof fn lemma_shared_prepare_finishes(files: Environment, links_supported: bool)
    ensures
        spec_prepare(Mode::SharedDatabase, files, links_supported).action == Action::Finish,
        spec_prepare(Mode::SharedDatabase, files, links_supported).covered,
        spec_prepare(Mode::SharedDatabase, files, links_supported).files.user_fields
            == files.user_fields,
        spec_prepare(Mode::SharedDatabase, files, links_supported).files.generator_fields
            == files.generator_fields,
        spec_prepare(Mode::SharedDatabase, files, links_supported).files.config_dir
            == files.config_dir,
{
    reveal_with_fuel(spec_run, 7);
}

/// What opening a database gives: its bytes, or an empty database where none
/// exists yet, since opening creates it.
pub open spec fn spec_opened(database: Option<Seq<u8>>) -> Seq<u8> {
    match database {
        Some(bytes) => bytes,
        None => Seq::empty(),
    }
}

/// After a preparation in database-sharing mode, whoever opens the
/// generator's database location and whoever opens the canonical location
/// read the same bytes. A canonical database that existed beforehand is
/// unchanged, and is what the generator reads.
pub proof fn lemma_shared_database_is_canonical(files: Environment, links_supported: bool)
    ensures
        spec_opened(spec_prepare(Mode::SharedDatabase, files, links_supported).files.visible())
            == spec_opened(
            spec_prepare(Mode::SharedDatabase, files, links_supported).files.canonical,
        ),
        files.canonical is Some ==> spec_prepare(
            Mode::SharedDatabase,
            files,
            links_supported,
        ).files.visible() == files.canonical && spec_prepare(
            Mode::SharedDatabase,
            files,
            links_supported,
        ).files.canonical == files.canonical,
{
    reveal_with_fuel(spec_run, 7);
}

/// Two pictures are functionally identical when the same files are present
/// with the same content, whether the generator reaches its database through
/// a link or holds a copy.
pub open spec fn spec_same_content(a: Environment, b: Environment) -> bool {
    &&& a.canonical == b.canonical
    &&& a.visible() == b.visible()
    &&& a.config_dir == b.config_dir
    &&& a.user_fields == b.user_fields
    &&& a.generator_fields == b.generator_fields
}

/// After a preparation in database-sharing mode the generator always finds
/// a database at its location: where there was no canonical database, an
/// empty placeholder, which is the canonical database itself where the
/// platform has links.
pub proof fn lemma_shared_prepare_leaves_database(files: Environment, links_supported: bool)
    ensures
        spec_prepare(Mode::SharedDatabase, files, links_supported).files.visible() is Some,
        files.canonical is None ==> spec_prepare(
            Mode::SharedDatabase,
            files,
            links_supported,
        ).files.visible() == Some(Seq::<u8>::empty()),
        files.canonical is None && links_supported ==> spec_prepare(
            Mode::SharedDatabase,
            files,
            links_supported,
        ).files.canonical == Some(Seq::<u8>::empty()),
{
    reveal_with_fuel(spec_run, 7);
}

/// Preparing twice in database-sharing mode gives what preparing once gives.
pub proof fn lemma_shared_prepare_idempotent(files: Environment, links_supported: bool)
    ensures
        spec_same_content(
            spec_prepare(
                Mode::SharedDatabase,
                spec_prepare(Mode::SharedDatabase, files, links_supported).files,
                links_supported,
            ).files,
            spec_prepare(Mode::SharedDatabase, files, links_supported).files,
        ),
{
    let once = spec_prepare(Mode::SharedDatabase, files, links_supported).files;
    let twice = spec_prepare(Mode::SharedDatabase, once, links_supported).files;
    lemma_shared_prepare_finishes(once, links_supported);
    assert(twice.canonical == once.canonical && twice.visible() == once.visible()) by {
        reveal_with_fuel(spec_run, 7);
    }
}

/// The files once the generator's file for `field` is in place.
pub open spec fn spec_with_field(files: Environment, field: ConfigField) -> Environment {
    Environment {
        generator_fields: files.generator_fields.insert(field, files.mirrored(field)),
        ..files
    }
}

/// Mirroring one field takes two actions, a probe and a copy or a creation,
/// and puts the generator's file for that field in place.
proof fn lemma_mirror_one_field(
    progress: Progress,
    field: ConfigField,
    links_supported: bool,
    steps: nat,
)
    requires
        progress.action == Action::ProbeField(field),
        steps >= 2,
    ensures
        spec_run(progress, links_supported, steps) == spec_run(
            Progress {
                action: crate::reconcile::spec_after_field(field),
                files: spec_with_field(progress.files, field),
                covered: progress.covered,
            },
            links_supported,
            (steps - 2) as nat,
        ),
{
    reveal_with_fuel(spec_run, 3);
}

/// In file-mirroring mode a preparation finishes, within the picture; the
/// generator then holds a file for each of the five fields, with the
/// front-end's bytes where the front-end has the file and empty where it has
/// not. Nothing else changes.
pub proof fn lemma_mirrored_prepare(files: Environment, links_supported: bool)
    ensures
        spec_prepare(Mode::MirroredFiles, files, links_supported).action == Action::Finish,
        spec_prepare(Mode::MirroredFiles, files, links_supported).covered,
        spec_prepare(Mode::MirroredFiles, files, links_supported).files.config_dir,
        spec_prepare(Mode::MirroredFiles, files, links_supported).files.canonical
            == files.canonical,
        spec_prepare(Mode::MirroredFiles, files, links_supported).files.generator
            == files.generator,
        spec_prepare(Mode::MirroredFiles, files, links_supported).files.user_fields
            == files.user_fields,
        forall|field: ConfigField|
            #![trigger files.mirrored(field)]
            {
                let prepared = spec_prepare(Mode::MirroredFiles, files, links_supported).files;
                prepared.generator_fields.contains_key(field) && prepared.generator_fields[field]
                    == files.mirrored(field)
            },
{
    let start = Progress { action: Action::CreateConfigDirectory, files, covered: true };
    let files_ready = Environment { config_dir: true, ..files };
    let at_sender = Progress { action: Action::ProbeField(ConfigField::Sender), files: files_ready, covered: true };
    assert(spec_run(start, links_supported, 12) == spec_run(at_sender, links_supported, 11)) by {
        reveal_with_fuel(spec_run, 2);
    }
    let with_sender = spec_with_field(files_ready, ConfigField::Sender);
    let at_bank = Progress { action: Action::ProbeField(ConfigField::BankDetails), files: with_sender, covered: true };
    lemma_mirror_one_field(at_sender, ConfigField::Sender, links_supported, 11);
    let with_bank = spec_with_field(with_sender, ConfigField::BankDetails);
    let at_description = Progress { action: Action::ProbeField(ConfigField::Description), files: with_bank, covered: true };
    lemma_mirror_one_field(at_bank, ConfigField::BankDetails, links_supported, 9);
    let with_description = spec_with_field(with_bank, ConfigField::Description);
    let at_amount = Progress { action: Action::ProbeField(ConfigField::Amount), files: with_description, covered: true };
    lemma_mirror_one_field(at_description, ConfigField::Description, links_supported, 7);
    let with_amount = spec_with_field(with_description, ConfigField::Amount);
    let at_recipients = Progress { action: Action::ProbeField(ConfigField::Recipients), files: with_amount, covered: true };
    lemma_mirror_one_field(at_amount, ConfigField::Amount, links_supported, 5);
    let with_all = spec_with_field(with_amount, ConfigField::Recipients);
    let finished = Progress { action: Action::Finish, files: with_all, covered: true };
    lemma_mirror_one_field(at_recipients, ConfigField::Recipients, links_supported, 3);
    assert(spec_run(finished, links_supported, 1) == finished);
    assert(spec_prepare(Mode::MirroredFiles, files, links_supported) == finished);
    assert forall|field: ConfigField|
        #![trigger files.mirrored(field)]
        with_all.generator_fields.contains_key(field) && with_all.generator_fields[field] == files.mirrored(
            field,
        ) by {
        assert(with_amount.mirrored(field) == files.mirrored(field));
        assert(with_description.mirrored(field) == files.mirrored(field));
        assert(with_bank.mirrored(field) == files.mirrored(field));
        assert(with_sender.mirrored(field) == files.mirrored(field));
        assert(files_ready.mirrored(field) == files.mirrored(field));
    }
}

/// Preparing twice in file-mirroring mode gives what preparing once gives.
pub proof fn lemma_mirrored_prepare_idempotent(files: Environment, links_supported: bool)
    ensures
        spec_same_content(
            spec_prepare(
                Mode::MirroredFiles,
                spec_prepare(Mode::MirroredFiles, files, links_supported).files,
                links_supported,
            ).files,
            spec_prepare(Mode::MirroredFiles, files, links_supported).files,
        ),
{
    let once = spec_prepare(Mode::MirroredFiles, files, links_supported).files;
    let twice = spec_prepare(Mode::MirroredFiles, once, links_supported).files;
    lemma_mirrored_prepare(files, links_supported);
    lemma_mirrored_prepare(once, links_supported);
    assert forall|field: ConfigField|
        #![trigger once.generator_fields.dom().contains(field)]
        #![trigger twice.generator_fields.dom().contains(field)]
        #![trigger once.generator_fields[field]]
        #![trigger twice.generator_fields[field]]
        twice.generator_fields.dom().contains(field) && once.generator_fields.dom().contains(
            field,
        ) && twice.generator_fields[field] == once.generator_fields[field] by {
        assert(once.mirrored(field) == files.mirrored(field));
    }
    assert(twice.generator_fields =~= once.generator_fields);
}

} // verus!
