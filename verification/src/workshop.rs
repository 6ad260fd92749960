//! The workshop collection: the items selected so far, grouped by application,
//! and the export script that hands them to the downloader.
use vstd::prelude::*;
use crate::keyed::{
    distinct, first_index, lemma_first_index, lemma_first_index_absent, lemma_first_index_found,
};
use crate::text::{decimal, decimal_string, join, join_with, optional_text, texts};

verus! {

/// The items selected under one application.
#[derive(Debug, PartialEq, Eq)]
pub struct WorkshopEntry {
    /// The application id.
    pub app_id: String,
    /// The name under which the application was known when its first item was
    /// added.
    pub app_name: String,
    /// The ids of the selected items, in the order of their selection. An id
    /// that was selected twice stands twice.
    pub item_ids: Vec<usize>,
}

/// What a [`WorkshopEntry`] holds, as texts and numbers.
#[verifier::ext_equal]
pub struct Selection {
    pub app_id: Seq<char>,
    pub app_name: Seq<char>,
    pub item_ids: Seq<usize>,
}

impl View for WorkshopEntry {
    type V = Selection;

    open spec fn view(&self) -> Selection {
        Selection { app_id: self.app_id@, app_name: self.app_name@, item_ids: self.item_ids@ }
    }
}

/// The views of a sequence of entries, entry by entry.
pub open spec fn selections(entries: Seq<WorkshopEntry>) -> Seq<Selection> {
    Seq::new(entries.len(), |i: int| entries[i]@)
}

/// The application ids of `entries`, in order.
pub open spec fn app_ids(entries: Seq<Selection>) -> Seq<Seq<char>> {
    Seq::new(entries.len(), |i: int| entries[i].app_id)
}

/// The application names of `entries`, in order.
pub open spec fn app_names(entries: Seq<Selection>) -> Seq<Seq<char>> {
    Seq::new(entries.len(), |i: int| entries[i].app_name)
}

/// What a collection must satisfy: no application has two entries, and every
/// entry holds at least one item.
pub open spec fn well_formed(entries: Seq<Selection>) -> bool {
    &&& distinct(app_ids(entries))
    &&& forall|i: int| 0 <= i < entries.len() ==> (#[trigger] entries[i]).item_ids.len() > 0
}

/// The collection after `items` have been added under `app_id`. Nothing
/// changes where `items` is empty. The items go to the end of the entry of
/// `app_id`, which keeps its name; where there is no such entry, one is made at
/// the end of the collection, with `app_name` for its name.
pub open spec fn with_items(
    entries: Seq<Selection>,
    app_id: Seq<char>,
    app_name: Seq<char>,
    items: Seq<usize>,
) -> Seq<Selection> {
    if items.len() == 0 {
        entries
    } else {
        match first_index(app_ids(entries), app_id) {
            Some(i) => entries.update(
                i,
                Selection {
                    app_id: entries[i].app_id,
                    app_name: entries[i].app_name,
                    item_ids: entries[i].item_ids + items,
                },
            ),
            None => entries.push(Selection { app_id, app_name, item_ids: items }),
        }
    }
}

/// The name of the entry of `app_id`, if the collection has one.
pub open spec fn entry_name(entries: Seq<Selection>, app_id: Seq<char>) -> Option<Seq<char>> {
    match first_index(app_ids(entries), app_id) {
        Some(i) => Some(entries[i].app_name),
        None => None,
    }
}

/// The name under which `items` are filed when they are added under `app_id`
/// with the name `app_name`: that of the entry of `app_id`, which keeps its
/// name, or `app_name` where the entry is new. Nothing is filed, under no
/// name, where `items` is empty.
pub open spec fn resolved_name(
    entries: Seq<Selection>,
    app_id: Seq<char>,
    app_name: Seq<char>,
    items: Seq<usize>,
) -> Option<Seq<char>> {
    if items.len() == 0 {
        None
    } else {
        match entry_name(entries, app_id) {
            Some(name) => Some(name),
            None => Some(app_name),
        }
    }
}

/// The three tokens that ask the downloader for one item.
pub open spec fn item_request(app_id: Seq<char>, item_id: usize) -> Seq<Seq<char>> {
    seq!["+workshop_download_item"@, app_id, decimal(item_id as nat)]
}

/// The requests for `item_ids` under `app_id`, in order.
pub open spec fn item_requests(app_id: Seq<char>, item_ids: Seq<usize>) -> Seq<Seq<char>>
    decreases item_ids.len(),
{
    if item_ids.len() == 0 {
        Seq::empty()
    } else {
        item_requests(app_id, item_ids.drop_last()) + item_request(app_id, item_ids.last())
    }
}

/// The requests for every item of `entries`, entry after entry.
pub open spec fn all_requests(entries: Seq<Selection>) -> Seq<Seq<char>>
    decreases entries.len(),
{
    if entries.len() == 0 {
        Seq::empty()
    } else {
        all_requests(entries.drop_last()) + item_requests(
            entries.last().app_id,
            entries.last().item_ids,
        )
    }
}

/// The export script of a collection: the anonymous login, one request for
/// each item, and the command to quit. An empty collection has no script.
pub open spec fn export_script(entries: Seq<Selection>) -> Seq<Seq<char>> {
    if entries.len() == 0 {
        Seq::empty()
    } else {
        seq!["+login"@, "anonymous"@] + all_requests(entries) + seq!["+quit"@]
    }
}

/// The name of the file that an export is written to: the application names
/// joined by `+`, a hyphen, the suffix, and `.txt`.
pub open spec fn export_file_name(entries: Seq<Selection>, suffix: Seq<char>) -> Seq<char> {
    join(app_names(entries), "+"@) + "-"@ + suffix + ".txt"@
}

/// What an export file holds: the tokens of the script with single spaces
/// between them.
pub open spec fn export_contents(entries: Seq<Selection>) -> Seq<char> {
    join(export_script(entries), " "@)
}

/// An export, ready to be written.
#[derive(Debug, PartialEq, Eq)]
pub struct ExportArtifact {
    /// The name of the file.
    pub file_name: String,
    /// The text of the file.
    pub contents: String,
    /// The script, token by token.
    pub tokens: Vec<String>,
}

impl ExportArtifact {
    /// Whether this is the export of `entries` under `suffix`.
    pub open spec fn is_export_of(self, entries: Seq<Selection>, suffix: Seq<char>) -> bool {
        &&& self.file_name@ == export_file_name(entries, suffix)
        &&& self.contents@ == export_contents(entries)
        &&& texts(self.tokens@) == export_script(entries)
    }
}

/// The workshop collection of a session.
pub struct WorkshopCollection {
    entries: Vec<WorkshopEntry>,
}

impl View for WorkshopCollection {
    type V = Seq<Selection>;

    closed spec fn view(&self) -> Seq<Selection> {
        selections(self.entries@)
    }
}

/// Appends one text to a list of texts.
fn push_text(out: &mut Vec<String>, s: String)
    ensures
        texts(final(out)@) == texts(old(out)@).push(s@),
{
    out.push(s);
}

/// The position of the entry of `app_id`.
fn find_app(entries: &Vec<WorkshopEntry>, app_id: &str) -> (r: Option<usize>)
    ensures
        match r {
            Some(i) => first_index(app_ids(selections(entries@)), app_id@) == Some(i as int),
            None => first_index(app_ids(selections(entries@)), app_id@) is None,
        },
{
    let ghost ids = app_ids(selections(entries@));
    let wanted = String::from_str(app_id);
    let mut i: usize = 0;
    while i < entries.len()
        invariant
            i <= entries.len(),
            wanted@ == app_id@,
            ids == app_ids(selections(entries@)),
            forall|j: int| 0 <= j < i ==> ids[j] != app_id@,
        decreases entries.len() - i,
    {
        if entries[i].app_id.eq(&wanted) {
            proof {
                lemma_first_index_found(ids, app_id@, i as int);
            }
            return Some(i);
        }
        i += 1;
    }
    proof {
        lemma_first_index_absent(ids, app_id@);
    }
    None
}

/// Adds items to a list of entries: see [`with_items`].
fn put_items(entries: &mut Vec<WorkshopEntry>, app_id: String, app_name: String, items: Vec<usize>)
    requires
        well_formed(selections(old(entries)@)),
    ensures
        well_formed(selections(final(entries)@)),
        selections(final(entries)@) == with_items(
            selections(old(entries)@),
            app_id@,
            app_name@,
            items@,
        ),
{
    if items.len() == 0 {
        return ;
    }
    let ghost before = selections(entries@);
    proof {
        lemma_first_index(app_ids(before), app_id@);
        lemma_with_items_is_well_formed(before, app_id@, app_name@, items@);
    }
    match find_app(entries, app_id.as_str()) {
        Some(i) => {
            let ghost added = items@;
            let mut items = items;
            entries[i].item_ids.append(&mut items);
            assert(selections(entries@) == with_items(before, app_id@, app_name@, added));
        },
        None => {
            entries.push(WorkshopEntry { app_id, app_name, item_ids: items });
            assert(selections(entries@) == with_items(before, app_id@, app_name@, items@));
        },
    }
}

impl WorkshopCollection {
    #[verifier::type_invariant]
    spec fn entries_are_well_formed(self) -> bool {
        well_formed(selections(self.entries@))
    }

    /// An empty collection.
    pub fn new() -> (collection: Self)
        ensures
            collection@ == Seq::<Selection>::empty(),
    {
        let collection = WorkshopCollection { entries: Vec::new() };
        collection
    }

    /// The entries of the collection, in order. No two of them are for the
    /// same application, and each holds at least one item.
    pub fn entries(&self) -> (out: Vec<WorkshopEntry>)
        ensures
            selections(out@) == self@,
            well_formed(self@),
    {
        proof {
            use_type_invariant(self);
        }
        let mut out: Vec<WorkshopEntry> = Vec::new();
        let mut i: usize = 0;
        while i < self.entries.len()
            invariant
                i <= self.entries.len(),
                selections(out@) == selections(self.entries@).take(i as int),
            decreases self.entries.len() - i,
        {
            let entry = &self.entries[i];
            let ghost before = selections(out@);
            out.push(
                WorkshopEntry {
                    app_id: entry.app_id.clone(),
                    app_name: entry.app_name.clone(),
                    item_ids: entry.item_ids.clone(),
                },
            );
            assert(selections(out@) == before.push(entry@));
            i += 1;
        }
        out
    }

    /// The number of applications that have items.
    pub fn len(&self) -> (n: usize)
        ensures
            n == self@.len(),
    {
        self.entries.len()
    }

    /// The name of the entry of `app_id`, if the collection has one.
    pub fn name_of(&self, app_id: &str) -> (r: Option<String>)
        ensures
            optional_text(r) == entry_name(self@, app_id@),
    {
        match find_app(&self.entries, app_id) {
            Some(i) => {
                proof {
                    lemma_first_index(app_ids(selections(self.entries@)), app_id@);
                }
                Some(self.entries[i].app_name.clone())
            },
            None => None,
        }
    }

    /// Adds `items` under `app_id`: see [`with_items`]. Items are never
    /// compared with those the collection already holds.
    pub fn add(&mut self, app_id: String, app_name: String, items: Vec<usize>)
        ensures
            final(self)@ == with_items(old(self)@, app_id@, app_name@, items@),
    {
        proof {
            use_type_invariant(&*self);
        }
        let mut entries: Vec<WorkshopEntry> = Vec::new();
        core::mem::swap(&mut self.entries, &mut entries);
        put_items(&mut entries, app_id, app_name, items);
        core::mem::swap(&mut self.entries, &mut entries);
    }

    /// Discards every entry.
    pub fn clear(&mut self)
        ensures
            final(self)@ == Seq::<Selection>::empty(),
    {
        let mut entries: Vec<WorkshopEntry> = Vec::new();
        core::mem::swap(&mut self.entries, &mut entries);
    }

    /// The export script of the collection, token by token. The collection
    /// stays as it is.
    pub fn export(&self) -> (tokens: Vec<String>)
        ensures
            texts(tokens@) == export_script(self@),
    {
        let mut tokens: Vec<String> = Vec::new();
        if self.entries.len() == 0 {
            return tokens;
        }
        let ghost all = selections(self.entries@);
        let ghost opening = seq!["+login"@, "anonymous"@];
        push_text(&mut tokens, String::from_str("+login"));
        push_text(&mut tokens, String::from_str("anonymous"));
        let mut i: usize = 0;
        while i < self.entries.len()
            invariant
                i <= self.entries.len(),
                all == selections(self.entries@),
                opening == seq!["+login"@, "anonymous"@],
                texts(tokens@) == opening + all_requests(all.take(i as int)),
            decreases self.entries.len() - i,
        {
            let entry = &self.entries[i];
            let ghost done = opening + all_requests(all.take(i as int));
            let mut j: usize = 0;
            while j < entry.item_ids.len()
                invariant
                    j <= entry.item_ids.len(),
                    texts(tokens@) == done + item_requests(
                        entry.app_id@,
                        entry.item_ids@.take(j as int),
                    ),
                decreases entry.item_ids.len() - j,
            {
                push_text(&mut tokens, String::from_str("+workshop_download_item"));
                push_text(&mut tokens, entry.app_id.clone());
                push_text(&mut tokens, decimal_string(entry.item_ids[j]));
                assert(entry.item_ids@.take(j + 1).drop_last() == entry.item_ids@.take(j as int));
                j += 1;
            }
            assert(entry.item_ids@.take(entry.item_ids@.len() as int) == entry.item_ids@);
            assert(all.take(i + 1).drop_last() == all.take(i as int));
            i += 1;
        }
        assert(all.take(all.len() as int) == all);
        push_text(&mut tokens, String::from_str("+quit"));
        tokens
    }

    /// The export of the collection under the file-name suffix `suffix`; `None`
    /// for an empty collection, which has nothing to export.
    pub fn artifact(&self, suffix: &str) -> (r: Option<ExportArtifact>)
        ensures
            r is None <==> self@.len() == 0,
            r matches Some(export) ==> export.is_export_of(self@, suffix@),
    {
        if self.entries.len() == 0 {
            return None;
        }
        let tokens = self.export();
        let contents = join_with(&tokens, " ");
        let names = self.names();
        let mut file_name = join_with(&names, "+");
        file_name.append("-");
        file_name.append(suffix);
        file_name.append(".txt");
        Some(ExportArtifact { file_name, contents, tokens })
    }

    /// The names of the applications that have items, in order.
    pub fn names(&self) -> (out: Vec<String>)
        ensures
            texts(out@) == app_names(self@),
    {
        let mut out: Vec<String> = Vec::new();
        let mut i: usize = 0;
        while i < self.entries.len()
            invariant
                i <= self.entries.len(),
                texts(out@) == app_names(selections(self.entries@)).take(i as int),
            decreases self.entries.len() - i,
        {
            push_text(&mut out, self.entries[i].app_name.clone());
            i += 1;
        }
        out
    }
}

/// Adding items keeps a collection well formed: no application gets a second
/// entry, and no entry is left without an item.
pub proof fn lemma_with_items_is_well_formed(
    entries: Seq<Selection>,
    app_id: Seq<char>,
    app_name: Seq<char>,
    items: Seq<usize>,
)
    requires
        well_formed(entries),
    ensures
        well_formed(with_items(entries, app_id, app_name, items)),
{
    let after = with_items(entries, app_id, app_name, items);
    lemma_first_index(app_ids(entries), app_id);
    if items.len() > 0 {
        match first_index(app_ids(entries), app_id) {
            Some(i) => {
                assert(app_ids(after) == app_ids(entries));
                assert forall|a: int|
                    0 <= a < after.len() implies (#[trigger] after[a]).item_ids.len() > 0 by {
                    if a != i {
                        assert(after[a] == entries[a]);
                    }
                }
            },
            None => {
                assert forall|a: int, b: int| 0 <= a < b < after.len() implies app_ids(after)[a]
                    != app_ids(after)[b] by {
                    assert(app_ids(after)[a] == app_ids(entries)[a]);
                    if b < entries.len() {
                        assert(app_ids(after)[b] == app_ids(entries)[b]);
                    }
                }
                assert forall|a: int|
                    0 <= a < after.len() implies (#[trigger] after[a]).item_ids.len() > 0 by {
                    if a < entries.len() {
                        assert(after[a] == entries[a]);
                    }
                }
            },
        }
    }
}

/// Items added under an application that has an entry go to the end of that
/// entry, in their order, behind the items that it holds. The entry keeps its
/// name and its place, whatever name the items come with, and every other
/// entry stays as it is.
pub proof fn lemma_items_go_to_the_entry(
    entries: Seq<Selection>,
    app_id: Seq<char>,
    app_name: Seq<char>,
    items: Seq<usize>,
    at: int,
)
    requires
        first_index(app_ids(entries), app_id) == Some(at),
    ensures
        0 <= at < entries.len(),
        with_items(entries, app_id, app_name, items).len() == entries.len(),
        with_items(entries, app_id, app_name, items)[at].app_id == app_id,
        with_items(entries, app_id, app_name, items)[at].app_name == entries[at].app_name,
        with_items(entries, app_id, app_name, items)[at].item_ids == entries[at].item_ids + items,
        forall|i: int|
            0 <= i < entries.len() && i != at ==> with_items(entries, app_id, app_name, items)[i]
                == entries[i],
{
    lemma_first_index(app_ids(entries), app_id);
    assert(app_ids(entries)[at] == entries[at].app_id);
    if items.len() == 0 {
        assert(entries[at].item_ids + items == entries[at].item_ids);
    }
}

/// Adding no items leaves a collection as it is, whatever the application.
pub proof fn lemma_adding_nothing_changes_nothing(
    entries: Seq<Selection>,
    app_id: Seq<char>,
    app_name: Seq<char>,
)
    ensures
        with_items(entries, app_id, app_name, Seq::<usize>::empty()) == entries,
{
}

/// The export script depends on nothing but what the collection holds: two
/// exports of the same collection are the same, token for token.
pub proof fn lemma_export_is_repeatable(
    entries: Seq<Selection>,
    first: Seq<Seq<char>>,
    second: Seq<Seq<char>>,
)
    requires
        first == export_script(entries),
        second == export_script(entries),
    ensures
        first == second,
{
}

} // verus!
