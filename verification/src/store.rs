//! The key/value settings table, held as a snapshot.
//!
//! The caller loads the table's rows, lets the functions here read and change
//! the snapshot, and writes it back. A key occurs at most once.

use crate::text::text_eq;
use vstd::prelude::*;

verus! {

/// A snapshot of the settings table. Its value is the map from key to value.
#[derive(Clone, Debug)]
pub struct SettingsTable {
    keys: Vec<String>,
    values: Vec<String>,
}

impl SettingsTable {
    /// A table holds every key at most once.
    pub closed spec fn wf(self) -> bool {
        &&& self.keys@.len() == self.values@.len()
        &&& forall|i: int, j: int|
            0 <= i < j < self.keys@.len() ==> self.keys@[i]@ != self.keys@[j]@
    }

    /// The position at which a key is held.
    spec fn position(self, key: Seq<char>) -> int {
        choose|i: int| 0 <= i < self.keys@.len() && self.keys@[i]@ == key
    }

    /// A table without rows.
    pub fn new() -> (table: SettingsTable)
        ensures
            table.wf(),
            table@ == Map::<Seq<char>, Seq<char>>::empty(),
            table.spec_keys() == Seq::<Seq<char>>::empty(),
    {
        let table = SettingsTable { keys: Vec::new(), values: Vec::new() };
        assert(table@ =~= Map::<Seq<char>, Seq<char>>::empty());
        assert(table.spec_keys() =~= Seq::<Seq<char>>::empty());
        table
    }

    /// The keys of the rows, in the order in which they were first written.
    pub closed spec fn spec_keys(self) -> Seq<Seq<char>> {
        Seq::new(self.keys@.len(), |i: int| self.keys@[i]@)
    }

    /// The keys of a table differ from one another, and they are exactly the
    /// keys under which the table holds a value.
    pub proof fn lemma_keys(self)
        requires
            self.wf(),
        ensures
            self.spec_keys().no_duplicates(),
            self.spec_keys().to_set() == self@.dom(),
            self@.dom().finite(),
            self@.dom().len() == self.spec_keys().len(),
    {
        let keys = self.spec_keys();
        assert forall|k: Seq<char>| keys.to_set().contains(k) <==> self@.dom().contains(k) by {
            if keys.to_set().contains(k) {
                let i = choose|i: int| 0 <= i < keys.len() && keys[i] == k;
                assert(self.keys@[i]@ == k);
            }
            if self@.dom().contains(k) {
                let i = choose|i: int| 0 <= i < self.keys@.len() && self.keys@[i]@ == k;
                assert(keys[i] == k);
            }
        }
        assert(keys.to_set() =~= self@.dom());
        keys.unique_seq_to_set();
    }

    /// The number of rows.
    pub fn len(&self) -> (count: usize)
        requires
            self.wf(),
        ensures
            count == self.spec_keys().len(),
            count == self@.dom().len(),
    {
        proof {
            self.lemma_keys();
        }
        self.keys.len()
    }

    /// The key and the value of the row at `index`, in the order in which the
    /// rows were first written.
    pub fn row(&self, index: usize) -> (pair: (String, String))
        requires
            self.wf(),
            index < self.spec_keys().len(),
        ensures
            pair.0@ == self.spec_keys()[index as int],
            self@.contains_key(pair.0@),
            self@[pair.0@] == pair.1@,
    {
        let key = self.keys[index].clone();
        let value = self.values[index].clone();
        proof {
            let p = self.position(key@);
            assert(0 <= p < self.keys@.len() && self.keys@[p]@ == key@);
            assert(p == index);
        }
        (key, value)
    }
}

impl View for SettingsTable {
    type V = Map<Seq<char>, Seq<char>>;

    closed spec fn view(&self) -> Map<Seq<char>, Seq<char>> {
        Map::new(
            |k: Seq<char>| exists|i: int| 0 <= i < self.keys@.len() && self.keys@[i]@ == k,
            |k: Seq<char>| self.values@[self.position(k)]@,
        )
    }
}

/// Finds the position of a key.
fn find(table: &SettingsTable, key: &str) -> (at: Option<usize>)
    ensures
        at is Some ==> at.unwrap() < table.keys@.len() && table.keys@[at.unwrap() as int]@ == key@,
        at is None ==> forall|i: int| 0 <= i < table.keys@.len() ==> table.keys@[i]@ != key@,
{
    let mut i: usize = 0;
    while i < table.keys.len()
        invariant
            i <= table.keys@.len(),
            forall|k: int| 0 <= k < i ==> table.keys@[k]@ != key@,
        decreases table.keys@.len() - i,
    {
        if text_eq(table.keys[i].as_str(), key) {
            return Some(i);
        }
        i = i + 1;
    }
    None
}

/// Reads the value stored under a key, if there is one.
pub fn get_setting(table: &SettingsTable, key: &str) -> (value: Option<String>)
    requires
        table.wf(),
    ensures
        value is Some <==> table@.contains_key(key@),
        value is Some ==> value.unwrap()@ == table@[key@],
{
    match find(table, key) {
        Some(i) => {
            proof {
                let p = table.position(key@);
                assert(0 <= p < table.keys@.len() && table.keys@[p]@ == key@);
                assert(p == i);
            }
            Some(table.values[i].clone())
        },
        None => None,
    }
}

/// Stores a value under a key, replacing what was stored there before. A key
/// that is new to the table takes the last place among its rows.
pub fn set_setting(table: &mut SettingsTable, key: &str, value: &str)
    requires
        old(table).wf(),
    ensures
        final(table).wf(),
        final(table)@ == old(table)@.insert(key@, value@),
        final(table).spec_keys() == if old(table)@.contains_key(key@) {
            old(table).spec_keys()
        } else {
            old(table).spec_keys().push(key@)
        },
{
    let ghost before = *table;
    match find(table, key) {
        Some(i) => {
            table.values.set(i, String::from_str(value));
            proof {
                assert forall|k: Seq<char>| #[trigger] before@.insert(key@, value@).contains_key(k) implies table@.contains_key(k) && table@[k] == before@.insert(key@, value@)[k] by {
                    let p = table.position(k);
                    let q = before.position(k);
                    if k == key@ {
                        assert(table.keys@[i as int]@ == k);
                        assert(p == i);
                    } else {
                        assert(0 <= q < before.keys@.len() && before.keys@[q]@ == k);
                        assert(table.keys@[q]@ == k);
                        assert(p == q);
                    }
                }
                assert(table@ =~= before@.insert(key@, value@));
                assert(table.spec_keys() =~= before.spec_keys());
                assert(before.keys@[i as int]@ == key@);
            }
        },
        None => {
            table.keys.push(String::from_str(key));
            table.values.push(String::from_str(value));
            proof {
                let n = before.keys@.len() as int;
                assert forall|k: Seq<char>| #[trigger] before@.insert(key@, value@).contains_key(k) implies table@.contains_key(k) && table@[k] == before@.insert(key@, value@)[k] by {
                    let p = table.position(k);
                    let q = before.position(k);
                    if k == key@ {
                        assert(table.keys@[n]@ == k);
                        assert(p == n);
                    } else {
                        assert(0 <= q < n && before.keys@[q]@ == k);
                        assert(table.keys@[q]@ == k);
                        assert(p == q);
                    }
                }
                assert forall|k: Seq<char>| #[trigger] table@.contains_key(k) implies before@.insert(key@, value@).contains_key(k) by {
                    let p = table.position(k);
                    if p < n {
                        assert(before.keys@[p]@ == k);
                    }
                }
                assert(table@ =~= before@.insert(key@, value@));
                assert(table.spec_keys() =~= before.spec_keys().push(key@));
            }
        },
    }
}

/// The table that results from writing the rows one after the other: where a
/// key occurs twice, the later row stands.
pub open spec fn spec_loaded(rows: Seq<(String, String)>) -> Map<Seq<char>, Seq<char>>
    decreases rows.len(),
{
    if rows.len() == 0 {
        Map::empty()
    } else {
        spec_loaded(rows.drop_last()).insert(rows.last().0@, rows.last().1@)
    }
}

/// Builds the snapshot from the rows of the stored table.
pub fn from_rows(rows: &Vec<(String, String)>) -> (table: SettingsTable)
    ensures
        table.wf(),
        table@ == spec_loaded(rows@),
{
    let mut table = SettingsTable::new();
    let mut i: usize = 0;
    assert(rows@.take(0) =~= Seq::<(String, String)>::empty());
    while i < rows.len()
        invariant
            i <= rows.len(),
            table.wf(),
            table@ == spec_loaded(rows@.take(i as int)),
        decreases rows.len() - i,
    {
        set_setting(&mut table, rows[i].0.as_str(), rows[i].1.as_str());
        proof {
            assert(rows@.take(i + 1).drop_last() =~= rows@.take(i as int));
            assert(rows@.take(i + 1).last() == rows@[i as int]);
        }
        i = i + 1;
    }
    assert(rows@.take(i as int) =~= rows@);
    table
}

/// The key whose presence tells that the table has been seeded.
pub open spec fn spec_sentinel() -> Seq<char> {
    "_app_initialized"@
}

/// The rows that a fresh table is seeded with: an example for each of the
/// five fields, and the sentinel.
pub open spec fn spec_examples() -> Map<Seq<char>, Seq<char>> {
    Map::<Seq<char>, Seq<char>>::empty().insert(
        "sender"@,
        "Your Company Name\nYour Address\nCity, Postal Code\nCountry"@,
    ).insert(
        "bankdetails"@,
        "Bank Name: Your Bank\nAccount: 1234-56-78901\nIBAN: NO1234567890123456\nBIC: BANKNO22"@,
    ).insert(
        "description"@,
        "Consulting services\nWeb development\nProject management"@,
    ).insert("amount"@, "5000.00"@).insert(
        "recipients"@,
        "Client Company\nclient@example.com\nClient Address\nCity, Postal Code\n\nAnother Client\nanother@example.com\nAnother Address\nCity, Postal Code"@,
    ).insert(spec_sentinel(), "true"@)
}

/// A table after seeding: every example row is there unless the table already
/// held a value under its key, which then stands.
pub open spec fn spec_seeded(table: Map<Seq<char>, Seq<char>>) -> Map<Seq<char>, Seq<char>> {
    spec_examples().union_prefer_right(table)
}

/// The six seeded keys differ from one another.
proof fn lemma_example_keys_distinct()
    ensures
        "sender"@ != "bankdetails"@,
        "sender"@ != "description"@,
        "sender"@ != "amount"@,
        "sender"@ != "recipients"@,
        "sender"@ != "_app_initialized"@,
        "bankdetails"@ != "description"@,
        "bankdetails"@ != "amount"@,
        "bankdetails"@ != "recipients"@,
        "bankdetails"@ != "_app_initialized"@,
        "description"@ != "amount"@,
        "description"@ != "recipients"@,
        "description"@ != "_app_initialized"@,
        "amount"@ != "recipients"@,
        "amount"@ != "_app_initialized"@,
        "recipients"@ != "_app_initialized"@,
{
    reveal_strlit("sender");
    reveal_strlit("bankdetails");
    reveal_strlit("description");
    reveal_strlit("amount");
    reveal_strlit("recipients");
    reveal_strlit("_app_initialized");
    assert("sender"@[0] == 's' && "sender"@.len() == 6);
    assert("bankdetails"@[0] == 'b' && "bankdetails"@.len() == 11);
    assert("description"@[0] == 'd' && "description"@.len() == 11);
    assert("amount"@[0] == 'a' && "amount"@.len() == 6);
    assert("recipients"@[0] == 'r' && "recipients"@.len() == 10);
    assert("_app_initialized"@[0] == '_' && "_app_initialized"@.len() == 16);
}

/// Stores a value under a key unless the key already holds one.
fn insert_if_absent(table: &mut SettingsTable, key: &str, value: &str)
    requires
        old(table).wf(),
    ensures
        final(table).wf(),
        final(table)@ == if old(table)@.contains_key(key@) {
            old(table)@
        } else {
            old(table)@.insert(key@, value@)
        },
{
    if get_setting(table, key).is_none() {
        set_setting(table, key, value);
    }
}

/// Seeds the table for first-time users: an example value for each field and
/// the sentinel, none of which replaces a value that is already there.
pub fn init_database(table: &mut SettingsTable)
    requires
        old(table).wf(),
    ensures
        final(table).wf(),
        final(table)@ == spec_seeded(old(table)@),
{
    insert_if_absent(table, "sender", "Your Company Name\nYour Address\nCity, Postal Code\nCountry");
    insert_if_absent(
        table,
        "bankdetails",
        "Bank Name: Your Bank\nAccount: 1234-56-78901\nIBAN: NO1234567890123456\nBIC: BANKNO22",
    );
    insert_if_absent(
        table,
        "description",
        "Consulting services\nWeb development\nProject management",
    );
    insert_if_absent(table, "amount", "5000.00");
    insert_if_absent(
        table,
        "recipients",
        "Client Company\nclient@example.com\nClient Address\nCity, Postal Code\n\nAnother Client\nanother@example.com\nAnother Address\nCity, Postal Code",
    );
    insert_if_absent(table, "_app_initialized", "true");
    proof {
        lemma_example_keys_distinct();
        assert(table@ =~= spec_seeded(old(table)@));
    }
}

/// Whether the application has never been initialized: the sentinel is absent.
pub fn is_first_run(table: &SettingsTable) -> (first: bool)
    requires
        table.wf(),
    ensures
        first == !table@.contains_key(spec_sentinel()),
{
    get_setting(table, "_app_initialized").is_none()
}

/// Reads a named value; a key that holds nothing reads as the empty text.
pub fn get_config_setting(table: &SettingsTable, key: &str) -> (value: String)
    requires
        table.wf(),
    ensures
        value@ == spec_read(table@, key@),
{
    match get_setting(table, key) {
        Some(value) => value,
        None => String::new(),
    }
}

/// What reading a key gives: its value, or the empty text.
pub open spec fn spec_read(table: Map<Seq<char>, Seq<char>>, key: Seq<char>) -> Seq<char> {
    if table.contains_key(key) {
        table[key]
    } else {
        Seq::empty()
    }
}

/// Writes a named value.
pub fn set_config_setting(table: &mut SettingsTable, key: &str, value: &str)
    requires
        old(table).wf(),
    ensures
        final(table).wf(),
        final(table)@ == old(table)@.insert(key@, value@),
{
    set_setting(table, key, value)
}

/// Seeding leaves the sentinel in the table, so a seeded table is never
/// taken for a first run.
pub proof fn lemma_seeded_is_initialized(table: Map<Seq<char>, Seq<char>>)
    ensures
        spec_seeded(table).contains_key(spec_sentinel()),
{
}

/// Seeding a seeded table changes nothing.
pub proof fn lemma_seeding_idempotent(table: Map<Seq<char>, Seq<char>>)
    ensures
        spec_seeded(spec_seeded(table)) == spec_seeded(table),
{
    assert(spec_seeded(spec_seeded(table)) =~= spec_seeded(table));
}

} // verus!
