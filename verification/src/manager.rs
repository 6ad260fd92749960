//! The state of a session: the alias table and the workshop collection.
use vstd::prelude::*;
use crate::cli::InputParser;
use crate::keyed::{
    distinct, find_key, find_value, first_index, keys_of, lemma_first_index,
    lemma_first_index_absent, lookup, pair_texts, reverse_lookup, values_of,
};
use crate::random::{is_suffix, sample_alphanumeric, thread_rng};
use crate::text::{
    decimal, decimal_string, is_decimal, is_decimal_number, optional_text, split_words, texts,
    trim, trimmed, words,
};
use crate::utils::{
    log_line, log_text, quoted, underscorize, underscorized, CommandError, ErrorKind, LogLevel,
};
use crate::workshop::{
    entry_name, export_script, resolved_name, with_items, ExportArtifact, Selection,
    WorkshopCollection,
};

verus! {

/// What writing an alias did to the table.
#[derive(Clone, Copy, Debug, PartialEq, Eq, Structural)]
pub enum AliasChange {
    /// The name was new: an entry was added at the end of the table.
    Added,
    /// The name was known: its entry now holds the new application id.
    Updated,
}

/// The table after `name` has been bound to `app_id`: the entry of a known
/// name is overwritten in place, a new name is added at the end.
pub open spec fn with_alias(
    table: Seq<(Seq<char>, Seq<char>)>,
    name: Seq<char>,
    app_id: Seq<char>,
) -> Seq<(Seq<char>, Seq<char>)> {
    match first_index(keys_of(table), name) {
        Some(i) => table.update(i, (name, app_id)),
        None => table.push((name, app_id)),
    }
}

/// The table without the entry of `name`.
pub open spec fn without_alias(table: Seq<(Seq<char>, Seq<char>)>, name: Seq<char>) -> Seq<
    (Seq<char>, Seq<char>),
> {
    match first_index(keys_of(table), name) {
        Some(i) => table.remove(i),
        None => table,
    }
}

/// The application id that `identifier` stands for. A decimal number, which
/// is a text of one or more ASCII digits, is an id already. Any other text is
/// a name: it is normalised and looked up.
pub open spec fn resolved(table: Seq<(Seq<char>, Seq<char>)>, identifier: Seq<char>) -> Option<
    Seq<char>,
> {
    if is_decimal(identifier) {
        Some(identifier)
    } else {
        lookup(table, underscorized(identifier))
    }
}

/// The table after a catalog search found `name` to be the title of `app_id`:
/// a new name is added at the end, a known name keeps what it stands for.
pub open spec fn auto_registered(
    table: Seq<(Seq<char>, Seq<char>)>,
    name: Seq<char>,
    app_id: Seq<char>,
) -> Seq<(Seq<char>, Seq<char>)> {
    if lookup(table, name) is Some {
        table
    } else {
        table.push((name, app_id))
    }
}

/// The table that holds `entries` written one after the other, each name as it
/// stands: where a name occurs twice, its last application id is kept.
pub open spec fn table_of(entries: Seq<(Seq<char>, Seq<char>)>) -> Seq<(Seq<char>, Seq<char>)>
    decreases entries.len(),
{
    if entries.len() == 0 {
        Seq::empty()
    } else {
        with_alias(table_of(entries.drop_last()), entries.last().0, entries.last().1)
    }
}

/// Binding a name leaves a table without repeated names as such a table.
pub proof fn lemma_with_alias_keeps_names_distinct(
    table: Seq<(Seq<char>, Seq<char>)>,
    name: Seq<char>,
    app_id: Seq<char>,
)
    requires
        distinct(keys_of(table)),
    ensures
        distinct(keys_of(with_alias(table, name, app_id))),
{
    let after = with_alias(table, name, app_id);
    lemma_first_index(keys_of(table), name);
    match first_index(keys_of(table), name) {
        Some(i) => {
            assert(keys_of(after) == keys_of(table));
        },
        None => {
            assert forall|i: int, j: int| 0 <= i < j < after.len() implies keys_of(after)[i]
                != keys_of(after)[j] by {
                assert(keys_of(after)[i] == keys_of(table)[i]);
                if j < table.len() {
                    assert(keys_of(after)[j] == keys_of(table)[j]);
                }
            }
        },
    }
}

/// Removing a name leaves a table without repeated names as such a table, and
/// the name is gone from it.
pub proof fn lemma_without_alias_removes_the_name(
    table: Seq<(Seq<char>, Seq<char>)>,
    name: Seq<char>,
)
    requires
        distinct(keys_of(table)),
    ensures
        distinct(keys_of(without_alias(table, name))),
        lookup(without_alias(table, name), name) is None,
{
    let after = without_alias(table, name);
    lemma_first_index(keys_of(table), name);
    match first_index(keys_of(table), name) {
        Some(i) => {
            assert forall|a: int, b: int| 0 <= a < b < after.len() implies keys_of(after)[a]
                != keys_of(after)[b] by {
                let x = if a < i { a } else { a + 1 };
                let y = if b < i { b } else { b + 1 };
                assert(keys_of(after)[a] == keys_of(table)[x]);
                assert(keys_of(after)[b] == keys_of(table)[y]);
            }
            assert forall|a: int| 0 <= a < after.len() implies keys_of(after)[a] != name by {
                let x = if a < i { a } else { a + 1 };
                assert(keys_of(after)[a] == keys_of(table)[x]);
            }
            lemma_first_index_absent(keys_of(after), name);
        },
        None => {},
    }
}

/// The alias table: normalised names and the application ids they stand for,
/// in the order in which the names were first written. No name occurs twice.
pub struct ConfigProperties {
    aliases: Vec<(String, String)>,
}

impl View for ConfigProperties {
    type V = Seq<(Seq<char>, Seq<char>)>;

    closed spec fn view(&self) -> Seq<(Seq<char>, Seq<char>)> {
        pair_texts(self.aliases@)
    }
}

impl ConfigProperties {
    #[verifier::type_invariant]
    spec fn names_are_distinct(self) -> bool {
        distinct(keys_of(pair_texts(self.aliases@)))
    }

    /// An empty table.
    pub fn new() -> (table: Self)
        ensures
            table@ == Seq::<(Seq<char>, Seq<char>)>::empty(),
    {
        let table = ConfigProperties { aliases: Vec::new() };
        table
    }

    /// The application id stored under exactly `name`, which is not normalised.
    pub fn get_app_id_by_name(&self, name: String) -> (r: Option<String>)
        ensures
            match r {
                Some(app_id) => lookup(self@, name@) == Some(app_id@),
                None => lookup(self@, name@) is None,
            },
    {
        match find_key(&self.aliases, name.as_str()) {
            Some(i) => {
                proof {
                    lemma_first_index(keys_of(pair_texts(self.aliases@)), name@);
                }
                Some(self.aliases[i].1.clone())
            },
            None => None,
        }
    }

    /// The name of the first entry, in the order of the table, that stands for
    /// `app_id`.
    pub fn get_name_by_app_id(&self, app_id: String) -> (r: Option<String>)
        ensures
            match r {
                Some(name) => reverse_lookup(self@, app_id@) == Some(name@),
                None => reverse_lookup(self@, app_id@) is None,
            },
    {
        match find_value(&self.aliases, app_id.as_str()) {
            Some(i) => {
                proof {
                    lemma_first_index(values_of(pair_texts(self.aliases@)), app_id@);
                }
                Some(self.aliases[i].0.clone())
            },
            None => None,
        }
    }

    /// Binds `name`, as it stands, to `app_id`, overwriting what the name stood
    /// for, and says whether the name was new.
    pub fn bind(&mut self, name: String, app_id: String) -> (change: AliasChange)
        ensures
            final(self)@ == with_alias(old(self)@, name@, app_id@),
            change == if lookup(old(self)@, name@) is Some {
                AliasChange::Updated
            } else {
                AliasChange::Added
            },
    {
        proof {
            use_type_invariant(&*self);
        }
        let mut entries: Vec<(String, String)> = Vec::new();
        core::mem::swap(&mut self.aliases, &mut entries);
        let change = put_entry(&mut entries, name, app_id);
        core::mem::swap(&mut self.aliases, &mut entries);
        change
    }

    /// Binds the normal form of `name` to `app_id`, overwriting what the name
    /// stood for, and says whether the name was new.
    pub fn set_alias_by_values(&mut self, name: String, app_id: String) -> (change: AliasChange)
        ensures
            final(self)@ == with_alias(old(self)@, underscorized(name@), app_id@),
            change == if lookup(old(self)@, underscorized(name@)) is Some {
                AliasChange::Updated
            } else {
                AliasChange::Added
            },
    {
        self.bind(underscorize(name), app_id)
    }

    /// Removes the entry of `name`, as it stands, and says whether there was
    /// one.
    pub fn unbind(&mut self, name: &str) -> (removed: bool)
        ensures
            final(self)@ == without_alias(old(self)@, name@),
            removed == lookup(old(self)@, name@) is Some,
    {
        proof {
            use_type_invariant(&*self);
        }
        let mut entries: Vec<(String, String)> = Vec::new();
        core::mem::swap(&mut self.aliases, &mut entries);
        let ghost before = pair_texts(entries@);
        proof {
            lemma_first_index(keys_of(before), name@);
            lemma_without_alias_removes_the_name(before, name@);
        }
        let removed = match find_key(&entries, name) {
            Some(i) => {
                entries.remove(i);
                assert(pair_texts(entries@) == before.remove(i as int));
                true
            },
            None => false,
        };
        core::mem::swap(&mut self.aliases, &mut entries);
        removed
    }

    /// Removes the entry of the normal form of `name`, and says whether there
    /// was one.
    pub fn remove_alias(&mut self, name: String) -> (removed: bool)
        ensures
            final(self)@ == without_alias(old(self)@, underscorized(name@)),
            removed == lookup(old(self)@, underscorized(name@)) is Some,
    {
        let name = underscorize(name);
        self.unbind(name.as_str())
    }

    /// Binds `name`, as it stands, to `app_id`, unless the name is known
    /// already. Says whether an entry was added.
    pub fn register(&mut self, name: String, app_id: String) -> (added: bool)
        ensures
            final(self)@ == auto_registered(old(self)@, name@, app_id@),
            added == lookup(old(self)@, name@) is None,
    {
        if find_key(&self.aliases, name.as_str()).is_some() {
            false
        } else {
            self.bind(name, app_id);
            true
        }
    }

    /// Records the title of an application that a catalog search has found:
    /// binds the normal form of `title` to `app_id` without its surrounding
    /// white space, unless the name is known already. Says whether an entry was
    /// added.
    pub fn set_alias(&mut self, app_id: String, title: String) -> (added: bool)
        ensures
            final(self)@ == auto_registered(old(self)@, underscorized(title@), trim(app_id@)),
            added == lookup(old(self)@, underscorized(title@)) is None,
    {
        self.register(underscorize(title), trimmed(app_id.as_str()))
    }

    /// The application id that `identifier` stands for: `identifier` itself
    /// where it is a decimal number, else what its normal form is bound to.
    pub fn resolve(&self, identifier: &str) -> (r: Option<String>)
        ensures
            match r {
                Some(app_id) => resolved(self@, identifier@) == Some(app_id@),
                None => resolved(self@, identifier@) is None,
            },
    {
        if is_decimal_number(identifier) {
            Some(String::from_str(identifier))
        } else {
            self.get_app_id_by_name(underscorize(String::from_str(identifier)))
        }
    }

    /// The entries of the table, in order. No two of them have the same name.
    pub fn entries(&self) -> (out: Vec<(String, String)>)
        ensures
            pair_texts(out@) == self@,
            distinct(keys_of(self@)),
    {
        proof {
            use_type_invariant(self);
        }
        let mut out: Vec<(String, String)> = Vec::new();
        let mut i: usize = 0;
        while i < self.aliases.len()
            invariant
                i <= self.aliases.len(),
                pair_texts(out@) == pair_texts(self.aliases@).take(i as int),
            decreases self.aliases.len() - i,
        {
            out.push((self.aliases[i].0.clone(), self.aliases[i].1.clone()));
            assert(pair_texts(out@) == pair_texts(self.aliases@).take(i as int).push(
                pair_texts(self.aliases@)[i as int],
            ));
            i += 1;
        }
        out
    }

    /// The table that holds `entries`, written one after the other with each
    /// name as it stands.
    pub fn from_entries(entries: Vec<(String, String)>) -> (table: Self)
        ensures
            table@ == table_of(pair_texts(entries@)),
    {
        let mut kept: Vec<(String, String)> = Vec::new();
        let mut i: usize = 0;
        while i < entries.len()
            invariant
                i <= entries.len(),
                distinct(keys_of(pair_texts(kept@))),
                pair_texts(kept@) == table_of(pair_texts(entries@).take(i as int)),
            decreases entries.len() - i,
        {
            proof {
                let next = pair_texts(entries@).take(i + 1);
                assert(next.drop_last() == pair_texts(entries@).take(i as int));
            }
            put_entry(&mut kept, entries[i].0.clone(), entries[i].1.clone());
            i += 1;
        }
        assert(pair_texts(entries@).take(entries@.len() as int) == pair_texts(entries@));
        ConfigProperties { aliases: kept }
    }
}

/// Writes one entry of a table: see [`with_alias`].
fn put_entry(entries: &mut Vec<(String, String)>, name: String, app_id: String) -> (change:
    AliasChange)
    requires
        distinct(keys_of(pair_texts(old(entries)@))),
    ensures
        distinct(keys_of(pair_texts(final(entries)@))),
        pair_texts(final(entries)@) == with_alias(pair_texts(old(entries)@), name@, app_id@),
        change == if lookup(pair_texts(old(entries)@), name@) is Some {
            AliasChange::Updated
        } else {
            AliasChange::Added
        },
{
    let ghost before = pair_texts(entries@);
    proof {
        lemma_first_index(keys_of(before), name@);
        lemma_with_alias_keeps_names_distinct(before, name@, app_id@);
    }
    match find_key(entries, name.as_str()) {
        Some(i) => {
            entries[i].1 = app_id;
            assert(pair_texts(entries@) == before.update(i as int, (name@, app_id@)));
            AliasChange::Updated
        },
        None => {
            entries.push((name, app_id));
            assert(pair_texts(entries@) == before.push((name@, app_id@)));
            AliasChange::Added
        },
    }
}

/// Looking up a name that was just bound gives the application id that it was
/// bound to.
pub proof fn lemma_bind_then_lookup(
    table: Seq<(Seq<char>, Seq<char>)>,
    name: Seq<char>,
    app_id: Seq<char>,
)
    ensures
        lookup(with_alias(table, name, app_id), name) == Some(app_id),
{
    let after = with_alias(table, name, app_id);
    lemma_first_index(keys_of(table), name);
    match first_index(keys_of(table), name) {
        Some(i) => {
            assert(keys_of(after) == keys_of(table));
        },
        None => {
            assert(keys_of(after) == keys_of(table).push(name));
            assert(keys_of(after).drop_last() == keys_of(table));
        },
    }
}

/// Binding a name and then resolving it gives the application id that was
/// bound, for every name that is not itself a decimal number. (A decimal number
/// resolves to itself, whatever the table holds.)
pub proof fn lemma_set_then_resolve(
    table: Seq<(Seq<char>, Seq<char>)>,
    name: Seq<char>,
    app_id: Seq<char>,
)
    requires
        !is_decimal(name),
    ensures
        resolved(with_alias(table, underscorized(name), app_id), name) == Some(app_id),
{
    lemma_bind_then_lookup(table, underscorized(name), app_id);
}

/// What the session found where its configuration is stored.
#[derive(Debug, PartialEq, Eq)]
pub enum ConfigSource {
    /// Nothing is stored yet: there is no store, or the store holds nothing
    /// but white space, as a store does that was made and never written.
    Missing,
    /// The stored aliases, name and application id.
    Stored(Vec<(String, String)>),
    /// Something is stored that is no configuration.
    Corrupt,
}

impl ConfigSource {
    /// Tells what was found in storage: `text` is what the store holds, if
    /// there is a store, and `entries` are the aliases that were read from that
    /// text, if it could be read. No store, and a store that holds nothing but
    /// white space, count as missing. A store that holds something is taken
    /// with the aliases that were read from it; it is corrupt where none could
    /// be read.
    pub fn from_store(text: Option<String>, entries: Option<Vec<(String, String)>>) -> (source:
        Self)
        ensures
            match text {
                None => source is Missing,
                Some(text) => if words(text@).len() == 0 {
                    source is Missing
                } else {
                    match entries {
                        Some(entries) => source == ConfigSource::Stored(entries),
                        None => source is Corrupt,
                    }
                },
            },
    {
        match text {
            None => ConfigSource::Missing,
            Some(text) => {
                if split_words(text.as_str()).len() == 0 {
                    ConfigSource::Missing
                } else {
                    match entries {
                        Some(entries) => ConfigSource::Stored(entries),
                        None => ConfigSource::Corrupt,
                    }
                }
            },
        }
    }
}

/// The configuration of a session. It holds no alias table until one is loaded.
pub struct Config {
    pub properties: Option<ConfigProperties>,
}

impl Config {
    /// A configuration without an alias table.
    pub fn new() -> (config: Self)
        ensures
            config.properties is None,
    {
        Config { properties: None }
    }

    /// The alias table, if one is loaded.
    pub fn get_props_ref(&self) -> (r: Option<&ConfigProperties>)
        ensures
            r is Some == self.properties is Some,
            r matches Some(table) ==> *table == self.properties->0,
    {
        self.properties.as_ref()
    }

    /// The alias table, for writing, if one is loaded.
    pub fn get_props_mut(&mut self) -> (r: Option<&mut ConfigProperties>)
        ensures
            match old(self).properties {
                None => final(self).properties is None && r is None,
                Some(table) => {
                    &&& r is Some
                    &&& *r->0 == table
                    &&& final(self).properties == Some(*final(r->0))
                },
            },
    {
        self.properties.as_mut()
    }

    /// Takes up what was found in storage. Where nothing is stored the session
    /// starts with an empty alias table; a store that holds nothing but white
    /// space counts as nothing stored, not as corrupt (see
    /// [`ConfigSource::from_store`]). A corrupt store is an error, and the
    /// configuration stays as it was.
    pub fn load_config(&mut self, source: ConfigSource) -> (r: Result<(), ErrorKind>)
        ensures
            match source {
                ConfigSource::Missing => {
                    &&& r is Ok
                    &&& final(self).properties is Some
                    &&& final(self).properties->0@ == Seq::<(Seq<char>, Seq<char>)>::empty()
                },
                ConfigSource::Stored(entries) => {
                    &&& r is Ok
                    &&& final(self).properties is Some
                    &&& final(self).properties->0@ == table_of(pair_texts(entries@))
                },
                ConfigSource::Corrupt => {
                    &&& r == Err::<(), ErrorKind>(ErrorKind::ConfigCorrupt)
                    &&& final(self).properties == old(self).properties
                },
            },
    {
        match source {
            ConfigSource::Missing => {
                self.properties = Some(ConfigProperties::new());
                Ok(())
            },
            ConfigSource::Stored(entries) => {
                self.properties = Some(ConfigProperties::from_entries(entries));
                Ok(())
            },
            ConfigSource::Corrupt => Err(ErrorKind::ConfigCorrupt),
        }
    }
}

/// The alias table of a configuration, if one is loaded.
pub open spec fn table_of_config(config: Config) -> Option<Seq<(Seq<char>, Seq<char>)>> {
    match config.properties {
        Some(table) => Some(table@),
        None => None,
    }
}

/// The name under which the configuration knows the application `app_id`: the
/// first name of the alias table that stands for it.
pub open spec fn name_of_app(config: Config, app_id: Seq<char>) -> Option<Seq<char>> {
    match config.properties {
        Some(table) => reverse_lookup(table@, app_id),
        None => None,
    }
}

/// The name under which items of the application `app_id` are filed without
/// being given one: the name of the entry of the application, which an entry
/// keeps; where the application has no entry, the name under which the
/// configuration knows it.
pub open spec fn filing_name(workshop: Seq<Selection>, config: Config, app_id: Seq<char>) -> Option<
    Seq<char>,
> {
    match entry_name(workshop, app_id) {
        Some(name) => Some(name),
        None => name_of_app(config, app_id),
    }
}

/// The arguments of one run of the downloader.
#[derive(Debug, PartialEq, Eq)]
pub struct DownloadJob {
    /// The tokens of the script, which become the arguments of the downloader.
    pub args: Vec<String>,
    /// The number of items that the script asks for.
    pub item_count: usize,
}

/// What a download has to do next.
#[derive(Debug, PartialEq, Eq)]
pub enum DownloadStep {
    /// The script is in the file at this path: read it, and hand its text to
    /// [`Manager::download_script`].
    ReadScript(String),
    /// There is nothing to download.
    Nothing,
    /// Run the downloader. Where the script was built from the collection, the
    /// export that holds it is here to be written.
    Launch(DownloadJob, Option<ExportArtifact>),
}

/// How a run of the downloader ended.
#[derive(Debug, PartialEq, Eq)]
pub enum DownloadOutcome {
    /// The downloader ran to its end: `success` tells whether it reported
    /// success, and `diagnostics` is what it wrote to its error stream.
    Exited { success: bool, diagnostics: String },
    /// The downloader could not be started.
    NotStarted { cause: String },
}

/// The number of items that a script of `tokens` tokens asks for: a script has
/// two tokens to log in, three for each item, and one to quit.
pub open spec fn item_count_of(tokens: nat) -> nat {
    if tokens >= 3 {
        (tokens / 3 - 1) as nat
    } else {
        0
    }
}

/// The lines that report how a download of `item_count` items ended.
pub open spec fn download_report_text(item_count: usize, outcome: DownloadOutcome) -> Seq<
    Seq<char>,
> {
    match outcome {
        DownloadOutcome::Exited { success, diagnostics } => {
            let verdict = if success {
                log_text(
                    LogLevel::SUCCESS,
                    "Downloaded "@ + decimal(item_count as nat) + " items"@,
                )
            } else {
                log_text(LogLevel::ERR, CommandError::DownloadFailed.message_text(Seq::empty()))
            };
            if diagnostics@.len() > 0 {
                seq![verdict, log_text(LogLevel::INFO, diagnostics@)]
            } else {
                seq![verdict]
            }
        },
        DownloadOutcome::NotStarted { cause } => seq![
            log_text(LogLevel::ERR, CommandError::DownloadFailed.message_text(Seq::empty())),
            log_text(LogLevel::ERR, "Cause: "@ + cause@),
        ],
    }
}

/// The number of characters of the random suffix of an export file.
pub const SUFFIX_LEN: usize = 8;

/// What a session holds: its workshop collection and its configuration.
pub struct Manager {
    pub workshop: WorkshopCollection,
    pub config: Config,
}

impl Manager {
    /// An empty collection and a configuration without an alias table.
    pub fn new() -> (manager: Self)
        ensures
            manager.workshop@ == Seq::<Selection>::empty(),
            manager.config.properties is None,
    {
        Manager { workshop: WorkshopCollection::new(), config: Config::new() }
    }

    /// Files `items` under `app_id` and returns the name that they are filed
    /// under. The items go to the end of the entry of `app_id`, which keeps its
    /// name; where the application has no entry, one is made with the name
    /// `app_name`. Nothing is done where `items` is empty.
    pub fn add(&mut self, app_id: String, app_name: String, items: Vec<usize>) -> (filed_under:
        Option<String>)
        ensures
            final(self).config == old(self).config,
            final(self).workshop@ == with_items(old(self).workshop@, app_id@, app_name@, items@),
            optional_text(filed_under) == resolved_name(
                old(self).workshop@,
                app_id@,
                app_name@,
                items@,
            ),
    {
        if items.len() == 0 {
            return None;
        }
        let name = match self.workshop.name_of(app_id.as_str()) {
            Some(name) => name,
            None => app_name.clone(),
        };
        self.workshop.add(app_id, app_name, items);
        Some(name)
    }

    /// Files the selected `items` under `app_id` and returns the name that they
    /// are filed under. The items go to the end of the entry of `app_id`, which
    /// keeps its name. Where the application has no entry, one is made with
    /// the name that the alias table has for the application; the items are
    /// not filed where it has none. Nothing is done, and nothing looked up,
    /// where `items` is empty.
    pub fn add_items(&mut self, app_id: String, items: Vec<usize>) -> (r: Result<
        Option<String>,
        CommandError,
    >)
        ensures
            final(self).config == old(self).config,
            items@.len() == 0 ==> r == Ok::<Option<String>, CommandError>(None)
                && final(self).workshop@ == old(self).workshop@,
            items@.len() > 0 ==> match filing_name(old(self).workshop@, old(self).config, app_id@) {
                Some(name) => {
                    &&& r matches Ok(Some(filed_under))
                    &&& filed_under@ == name
                    &&& final(self).workshop@ == with_items(
                        old(self).workshop@,
                        app_id@,
                        name,
                        items@,
                    )
                },
                None => {
                    &&& r == Err::<Option<String>, CommandError>(
                        if old(self).config.properties is None {
                            CommandError::NoConfig
                        } else {
                            CommandError::AppNameNotFound
                        },
                    )
                    &&& final(self).workshop@ == old(self).workshop@
                },
            },
    {
        if items.len() == 0 {
            return Ok(None);
        }
        let name = match self.workshop.name_of(app_id.as_str()) {
            Some(name) => name,
            None => match self.config.get_props_ref() {
                Some(table) => match table.get_name_by_app_id(app_id.clone()) {
                    Some(name) => name,
                    None => {
                        return Err(CommandError::AppNameNotFound);
                    },
                },
                None => {
                    return Err(CommandError::NoConfig);
                },
            },
        };
        Ok(self.add(app_id, name, items))
    }

    /// The export script of the collection: see [`export_script`].
    pub fn script(&self) -> (tokens: Vec<String>)
        ensures
            texts(tokens@) == export_script(self.workshop@),
    {
        self.workshop.export()
    }

    /// The export of the collection under the file-name suffix `suffix`:
    /// `None` where the collection is empty.
    pub fn export_as(&self, suffix: &str) -> (r: Option<ExportArtifact>)
        ensures
            r is None <==> self.workshop@.len() == 0,
            r matches Some(export) ==> export.is_export_of(self.workshop@, suffix@),
    {
        self.workshop.artifact(suffix)
    }

    /// The export of the collection, its file named with a fresh random suffix
    /// of letters and digits: `None` where the collection is empty. The
    /// collection keeps its entries. The suffix comes from the generator of
    /// the thread, which panics where the operating system gives it no
    /// entropy.
    pub fn export(&self) -> (r: Option<ExportArtifact>)
        ensures
            r is None <==> self.workshop@.len() == 0,
            r matches Some(export) ==> exists|suffix: Seq<char>|
                is_suffix(suffix, SUFFIX_LEN as nat) && #[trigger] export.is_export_of(
                    self.workshop@,
                    suffix,
                ),
    {
        let mut rng = thread_rng();
        let suffix = sample_alphanumeric(&mut rng, SUFFIX_LEN);
        let r = self.export_as(suffix.as_str());
        assert(r is Some ==> r->0.is_export_of(self.workshop@, suffix@));
        r
    }

    /// The job that runs the downloader on the script `tokens`, or `None` for
    /// an empty script.
    pub fn job_of(tokens: Vec<String>) -> (r: Option<DownloadJob>)
        ensures
            r is None <==> tokens@.len() == 0,
            r matches Some(job) ==> job.args == tokens && job.item_count == item_count_of(
                tokens@.len(),
            ),
    {
        let n = tokens.len();
        if n == 0 {
            None
        } else if n >= 3 {
            Some(DownloadJob { args: tokens, item_count: n / 3 - 1 })
        } else {
            Some(DownloadJob { args: tokens, item_count: 0 })
        }
    }

    /// Begins a download. With the option `--file` the script is to be read
    /// from the file that the option names. Without it the script is the
    /// export of the collection, whose file gets a fresh random suffix; there
    /// is nothing to download where the collection is empty. The collection
    /// keeps its entries.
    pub fn download(&self, input: &InputParser) -> (step: DownloadStep)
        ensures
            match input@.option("--file"@) {
                Some(path) => step matches DownloadStep::ReadScript(p) && p@ == path,
                None => if self.workshop@.len() == 0 {
                    step is Nothing
                } else {
                    &&& step matches DownloadStep::Launch(job, Some(export))
                    &&& texts(job.args@) == export_script(self.workshop@)
                    &&& job.item_count == item_count_of(export_script(self.workshop@).len())
                    &&& exists|suffix: Seq<char>|
                        is_suffix(suffix, SUFFIX_LEN as nat) && #[trigger] export.is_export_of(
                            self.workshop@,
                            suffix,
                        )
                },
            },
    {
        match input.option("--file") {
            Some(path) => DownloadStep::ReadScript(path),
            None => match self.export() {
                None => DownloadStep::Nothing,
                Some(export) => {
                    let tokens = self.script();
                    match Manager::job_of(tokens) {
                        Some(job) => DownloadStep::Launch(job, Some(export)),
                        None => DownloadStep::Nothing,
                    }
                },
            },
        }
    }

    /// Goes on with a download whose script was to be read from a file:
    /// `contents` is the text of the file, or `None` where it could not be
    /// read. The tokens of the script are the words of the text. There is
    /// nothing to download where the file could not be read or holds no word.
    pub fn download_script(contents: Option<String>) -> (step: DownloadStep)
        ensures
            match contents {
                Some(text) => if words(text@).len() == 0 {
                    step is Nothing
                } else {
                    &&& step matches DownloadStep::Launch(job, None)
                    &&& texts(job.args@) == words(text@)
                    &&& job.item_count == item_count_of(words(text@).len())
                },
                None => step is Nothing,
            },
    {
        match contents {
            Some(text) => match Manager::job_of(split_words(text.as_str())) {
                Some(job) => DownloadStep::Launch(job, None),
                None => DownloadStep::Nothing,
            },
            None => DownloadStep::Nothing,
        }
    }

    /// The lines that report how a download of `item_count` items ended.
    pub fn download_report(item_count: usize, outcome: &DownloadOutcome) -> (lines: Vec<String>)
        ensures
            texts(lines@) == download_report_text(item_count, *outcome),
    {
        let mut lines: Vec<String> = Vec::new();
        proof {
            reveal_strlit("");
        }
        match outcome {
            DownloadOutcome::Exited { success, diagnostics } => {
                if *success {
                    let count = decimal_string(item_count);
                    let message = quoted("Downloaded ", count.as_str(), " items");
                    lines.push(log_line(LogLevel::SUCCESS, message.as_str()));
                } else {
                    let message = CommandError::DownloadFailed.message("");
                    lines.push(log_line(LogLevel::ERR, message.as_str()));
                }
                if diagnostics.as_str().unicode_len() > 0 {
                    lines.push(log_line(LogLevel::INFO, diagnostics.as_str()));
                }
            },
            DownloadOutcome::NotStarted { cause } => {
                let message = CommandError::DownloadFailed.message("");
                lines.push(log_line(LogLevel::ERR, message.as_str()));
                let because = quoted("Cause: ", cause.as_str(), "");
                lines.push(log_line(LogLevel::ERR, because.as_str()));
            },
        }
        lines
    }

    /// Discards every entry of the collection. Nothing in the library does this
    /// by itself: an export and a download leave the collection as it is, so
    /// that it can be exported again.
    pub fn clear(&mut self)
        ensures
            final(self).workshop@ == Seq::<Selection>::empty(),
            final(self).config == old(self).config,
    {
        self.workshop.clear();
    }

    /// What is to be stored when the session ends: the entries of the alias
    /// table, or `None` where no table is loaded.
    pub fn save(&self) -> (r: Option<Vec<(String, String)>>)
        ensures
            match self.config.properties {
                Some(table) => r matches Some(entries) && pair_texts(entries@) == table@,
                None => r is None,
            },
    {
        match self.config.get_props_ref() {
            Some(table) => Some(table.entries()),
            None => None,
        }
    }
}

} // verus!
