//! The five legacy configuration fields and their names.

use crate::error::{BackendError, ErrorView};
use crate::store::{get_config_setting, set_config_setting, spec_read, SettingsTable};
use crate::text::text_eq;
use vstd::prelude::*;

verus! {

/// One of the five named text fields that the generator reads.
#[derive(Clone, Copy, Debug, PartialEq, Eq, Hash, Structural)]
pub enum ConfigField {
    Sender,
    BankDetails,
    Description,
    Amount,
    Recipients,
}

impl ConfigField {
    /// The field's name, which is also its key in the settings table.
    pub open spec fn spec_name(self) -> Seq<char> {
        match self {
            ConfigField::Sender => "sender"@,
            ConfigField::BankDetails => "bankdetails"@,
            ConfigField::Description => "description"@,
            ConfigField::Amount => "amount"@,
            ConfigField::Recipients => "recipients"@,
        }
    }

    /// The name of the text file that holds the field on disk.
    pub open spec fn spec_file_name(self) -> Seq<char> {
        match self {
            ConfigField::Sender => "sender.txt"@,
            ConfigField::BankDetails => "bankdetails.txt"@,
            ConfigField::Description => "description.txt"@,
            ConfigField::Amount => "amount.txt"@,
            ConfigField::Recipients => "recipients.txt"@,
        }
    }

    /// The field that follows this one in the fixed order of the five.
    pub open spec fn spec_next(self) -> Option<ConfigField> {
        match self {
            ConfigField::Sender => Some(ConfigField::BankDetails),
            ConfigField::BankDetails => Some(ConfigField::Description),
            ConfigField::Description => Some(ConfigField::Amount),
            ConfigField::Amount => Some(ConfigField::Recipients),
            ConfigField::Recipients => None,
        }
    }

    /// The field's name.
    pub fn name(self) -> (text: &'static str)
        ensures
            text@ == self.spec_name(),
    {
        match self {
            ConfigField::Sender => "sender",
            ConfigField::BankDetails => "bankdetails",
            ConfigField::Description => "description",
            ConfigField::Amount => "amount",
            ConfigField::Recipients => "recipients",
        }
    }

    /// The name of the field's file.
    pub fn file_name(self) -> (text: &'static str)
        ensures
            text@ == self.spec_file_name(),
    {
        match self {
            ConfigField::Sender => "sender.txt",
            ConfigField::BankDetails => "bankdetails.txt",
            ConfigField::Description => "description.txt",
            ConfigField::Amount => "amount.txt",
            ConfigField::Recipients => "recipients.txt",
        }
    }

    /// The field after this one, or `None` after the last.
    pub fn next(self) -> (following: Option<ConfigField>)
        ensures
            following == self.spec_next(),
    {
        match self {
            ConfigField::Sender => Some(ConfigField::BankDetails),
            ConfigField::BankDetails => Some(ConfigField::Description),
            ConfigField::Description => Some(ConfigField::Amount),
            ConfigField::Amount => Some(ConfigField::Recipients),
            ConfigField::Recipients => None,
        }
    }
}

/// The values of the five fields, read together.
#[derive(Clone, Debug, PartialEq, Eq)]
pub struct InvoiceFiles {
    pub sender: String,
    pub bankdetails: String,
    pub description: String,
    pub amount: String,
    pub recipients: String,
}

/// The mathematical value of [`InvoiceFiles`].
pub struct InvoiceFilesView {
    pub sender: Seq<char>,
    pub bankdetails: Seq<char>,
    pub description: Seq<char>,
    pub amount: Seq<char>,
    pub recipients: Seq<char>,
}

impl View for InvoiceFiles {
    type V = InvoiceFilesView;

    open spec fn view(&self) -> InvoiceFilesView {
        InvoiceFilesView {
            sender: self.sender@,
            bankdetails: self.bankdetails@,
            description: self.description@,
            amount: self.amount@,
            recipients: self.recipients@,
        }
    }
}

/// The field that a name stands for, if it is one of the five.
pub open spec fn spec_field_named(name: Seq<char>) -> Option<ConfigField> {
    if name == ConfigField::Sender.spec_name() {
        Some(ConfigField::Sender)
    } else if name == ConfigField::BankDetails.spec_name() {
        Some(ConfigField::BankDetails)
    } else if name == ConfigField::Description.spec_name() {
        Some(ConfigField::Description)
    } else if name == ConfigField::Amount.spec_name() {
        Some(ConfigField::Amount)
    } else if name == ConfigField::Recipients.spec_name() {
        Some(ConfigField::Recipients)
    } else {
        None
    }
}

/// The field that a file name stands for, if it is one of the five.
pub open spec fn spec_field_of_file(file_name: Seq<char>) -> Option<ConfigField> {
    if file_name == ConfigField::Sender.spec_file_name() {
        Some(ConfigField::Sender)
    } else if file_name == ConfigField::BankDetails.spec_file_name() {
        Some(ConfigField::BankDetails)
    } else if file_name == ConfigField::Description.spec_file_name() {
        Some(ConfigField::Description)
    } else if file_name == ConfigField::Amount.spec_file_name() {
        Some(ConfigField::Amount)
    } else if file_name == ConfigField::Recipients.spec_file_name() {
        Some(ConfigField::Recipients)
    } else {
        None
    }
}

/// What reading a field gives: its text, or the empty text while it is unset.
pub open spec fn spec_read_field(table: Map<Seq<char>, Seq<char>>, field: ConfigField) -> Seq<
    char,
> {
    spec_read(table, field.spec_name())
}

/// The table after a field has been written.
pub open spec fn spec_write_field(
    table: Map<Seq<char>, Seq<char>>,
    field: ConfigField,
    text: Seq<char>,
) -> Map<Seq<char>, Seq<char>> {
    table.insert(field.spec_name(), text)
}

/// What reading all five fields gives.
pub open spec fn spec_read_all(table: Map<Seq<char>, Seq<char>>) -> InvoiceFilesView {
    InvoiceFilesView {
        sender: spec_read_field(table, ConfigField::Sender),
        bankdetails: spec_read_field(table, ConfigField::BankDetails),
        description: spec_read_field(table, ConfigField::Description),
        amount: spec_read_field(table, ConfigField::Amount),
        recipients: spec_read_field(table, ConfigField::Recipients),
    }
}

/// Finds the field with the given name.
pub fn field_named(name: &str) -> (field: Option<ConfigField>)
    ensures
        field == spec_field_named(name@),
{
    if text_eq(name, "sender") {
        Some(ConfigField::Sender)
    } else if text_eq(name, "bankdetails") {
        Some(ConfigField::BankDetails)
    } else if text_eq(name, "description") {
        Some(ConfigField::Description)
    } else if text_eq(name, "amount") {
        Some(ConfigField::Amount)
    } else if text_eq(name, "recipients") {
        Some(ConfigField::Recipients)
    } else {
        None
    }
}

/// Finds the field that is kept in the file with the given name.
pub fn field_of_file(file_name: &str) -> (field: Option<ConfigField>)
    ensures
        field == spec_field_of_file(file_name@),
{
    if text_eq(file_name, "sender.txt") {
        Some(ConfigField::Sender)
    } else if text_eq(file_name, "bankdetails.txt") {
        Some(ConfigField::BankDetails)
    } else if text_eq(file_name, "description.txt") {
        Some(ConfigField::Description)
    } else if text_eq(file_name, "amount.txt") {
        Some(ConfigField::Amount)
    } else if text_eq(file_name, "recipients.txt") {
        Some(ConfigField::Recipients)
    } else {
        None
    }
}

/// The failure reported for a name that is none of the five fields.
fn unknown_field(name: &str) -> (error: BackendError)
    ensures
        error@ == (ErrorView::UnknownField { name: name@ }),
{
    BackendError::UnknownField { name: String::from_str(name) }
}

/// Reads a field by name. An unset field and an unknown name both read as
/// the empty text; reading never fails.
pub fn read_field(table: &SettingsTable, name: &str) -> (text: String)
    requires
        table.wf(),
    ensures
        text@ == match spec_field_named(name@) {
            Some(field) => spec_read_field(table@, field),
            None => Seq::<char>::empty(),
        },
{
    match field_named(name) {
        Some(field) => get_config_setting(table, field.name()),
        None => String::new(),
    }
}

/// Writes a field by name. A name that is none of the five fields is
/// rejected with `UnknownField`, and the table stays as it was.
pub fn write_field(table: &mut SettingsTable, name: &str, text: &str) -> (written: Result<
    (),
    BackendError,
>)
    requires
        old(table).wf(),
    ensures
        final(table).wf(),
        written is Ok <==> spec_field_named(name@) is Some,
        written is Ok ==> final(table)@ == spec_write_field(
            old(table)@,
            spec_field_named(name@).unwrap(),
            text@,
        ),
        written is Err ==> final(table)@ == old(table)@ && written.unwrap_err()@ == (
        ErrorView::UnknownField { name: name@ }),
{
    match field_named(name) {
        Some(field) => {
            set_config_setting(table, field.name(), text);
            Ok(())
        },
        None => Err(unknown_field(name)),
    }
}

/// Reads the field that is kept under a legacy file name. An unset field and
/// an unknown file name both read as the empty text.
pub fn read_file(table: &SettingsTable, file_path: &str) -> (text: String)
    requires
        table.wf(),
    ensures
        text@ == match spec_field_of_file(file_path@) {
            Some(field) => spec_read_field(table@, field),
            None => Seq::<char>::empty(),
        },
{
    match field_of_file(file_path) {
        Some(field) => get_config_setting(table, field.name()),
        None => String::new(),
    }
}

/// Writes the field that is kept under a legacy file name. An unknown file
/// name is rejected with `UnknownField`, and the table stays as it was.
pub fn write_file(table: &mut SettingsTable, file_path: &str, content: &str) -> (written: Result<
    (),
    BackendError,
>)
    requires
        old(table).wf(),
    ensures
        final(table).wf(),
        written is Ok <==> spec_field_of_file(file_path@) is Some,
        written is Ok ==> final(table)@ == spec_write_field(
            old(table)@,
            spec_field_of_file(file_path@).unwrap(),
            content@,
        ),
        written is Err ==> final(table)@ == old(table)@ && written.unwrap_err()@ == (
        ErrorView::UnknownField { name: file_path@ }),
{
    match field_of_file(file_path) {
        Some(field) => {
            set_config_setting(table, field.name(), content);
            Ok(())
        },
        None => Err(unknown_field(file_path)),
    }
}

/// Reads all five fields at once.
pub fn read_all_files(table: &SettingsTable) -> (files: InvoiceFiles)
    requires
        table.wf(),
    ensures
        files@ == spec_read_all(table@),
{
    InvoiceFiles {
        sender: get_config_setting(table, "sender"),
        bankdetails: get_config_setting(table, "bankdetails"),
        description: get_config_setting(table, "description"),
        amount: get_config_setting(table, "amount"),
        recipients: get_config_setting(table, "recipients"),
    }
}

/// Writes the description and the amount together.
pub fn save_invoice_details(table: &mut SettingsTable, description: &str, amount: &str)
    requires
        old(table).wf(),
    ensures
        final(table).wf(),
        final(table)@ == spec_write_field(
            spec_write_field(old(table)@, ConfigField::Description, description@),
            ConfigField::Amount,
            amount@,
        ),
{
    set_config_setting(table, "description", description);
    set_config_setting(table, "amount", amount);
}

/// Different fields have different names.
pub proof fn lemma_names_distinct(a: ConfigField, b: ConfigField)
    requires
        a != b,
    ensures
        a.spec_name() != b.spec_name(),
        a.spec_file_name() != b.spec_file_name(),
{
    reveal_strlit("sender");
    reveal_strlit("bankdetails");
    reveal_strlit("description");
    reveal_strlit("amount");
    reveal_strlit("recipients");
    reveal_strlit("sender.txt");
    reveal_strlit("bankdetails.txt");
    reveal_strlit("description.txt");
    reveal_strlit("amount.txt");
    reveal_strlit("recipients.txt");
    assert("sender"@[0] == 's' && "sender.txt"@[0] == 's');
    assert("bankdetails"@[0] == 'b' && "bankdetails.txt"@[0] == 'b');
    assert("description"@[0] == 'd' && "description.txt"@[0] == 'd');
    assert("amount"@[0] == 'a' && "amount.txt"@[0] == 'a');
    assert("recipients"@[0] == 'r' && "recipients.txt"@[0] == 'r');
}

/// Each field is found again under its own name and its own file name.
pub proof fn lemma_field_names_round_trip(field: ConfigField)
    ensures
        spec_field_named(field.spec_name()) == Some(field),
        spec_field_of_file(field.spec_file_name()) == Some(field),
{
    if field != ConfigField::Sender {
        lemma_names_distinct(field, ConfigField::Sender);
    }
    if field != ConfigField::BankDetails {
        lemma_names_distinct(field, ConfigField::BankDetails);
    }
    if field != ConfigField::Description {
        lemma_names_distinct(field, ConfigField::Description);
    }
    if field != ConfigField::Amount {
        lemma_names_distinct(field, ConfigField::Amount);
    }
    if field != ConfigField::Recipients {
        lemma_names_distinct(field, ConfigField::Recipients);
    }
}

/// A field reads back what was last written to it, and writing one field
/// leaves what every other field reads untouched.
pub proof fn lemma_write_then_read(
    table: Map<Seq<char>, Seq<char>>,
    written: ConfigField,
    text: Seq<char>,
    read: ConfigField,
)
    ensures
        spec_read_field(spec_write_field(table, written, text), read) == if read == written {
            text
        } else {
            spec_read_field(table, read)
        },
{
    if read != written {
        lemma_names_distinct(read, written);
    }
}

/// Writing all five fields and reading all five gives exactly the texts
/// written, each under its own field.
pub proof fn lemma_write_all_then_read_all(
    table: Map<Seq<char>, Seq<char>>,
    texts: InvoiceFilesView,
)
    ensures
        spec_read_all(
            spec_write_field(
                spec_write_field(
                    spec_write_field(
                        spec_write_field(
                            spec_write_field(table, ConfigField::Sender, texts.sender),
                            ConfigField::BankDetails,
                            texts.bankdetails,
                        ),
                        ConfigField::Description,
                        texts.description,
                    ),
                    ConfigField::Amount,
                    texts.amount,
                ),
                ConfigField::Recipients,
                texts.recipients,
            ),
        ) == texts,
{
    lemma_names_distinct(ConfigField::Sender, ConfigField::BankDetails);
    lemma_names_distinct(ConfigField::Sender, ConfigField::Description);
    lemma_names_distinct(ConfigField::Sender, ConfigField::Amount);
    lemma_names_distinct(ConfigField::Sender, ConfigField::Recipients);
    lemma_names_distinct(ConfigField::BankDetails, ConfigField::Description);
    lemma_names_distinct(ConfigField::BankDetails, ConfigField::Amount);
    lemma_names_distinct(ConfigField::BankDetails, ConfigField::Recipients);
    lemma_names_distinct(ConfigField::Description, ConfigField::Amount);
    lemma_names_distinct(ConfigField::Description, ConfigField::Recipients);
    lemma_names_distinct(ConfigField::Amount, ConfigField::Recipients);
}

/// Before anything is written, every field reads as the empty text.
pub proof fn lemma_unset_field_reads_empty(field: ConfigField)
    ensures
        spec_read_field(Map::empty(), field) == Seq::<char>::empty(),
{
}

} // verus!
