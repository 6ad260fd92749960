//! The `search` command: resolves an application, asks for its catalog page,
//! lists the items of the page and takes the user's selection.
//!
//! The command never reaches the catalog or the user by itself. `run` returns
//! the address of the page; the caller fetches it, has it read by
//! [`crate::catalog::read_catalog`] and hands the page to `receive`; the caller
//! shows the listing, reads the line of indices and hands it to `select`.
use vstd::prelude::*;
use crate::catalog::{item_views, CatalogPage, ItemView, WorkshopItem};
use crate::cli::InputParser;
use crate::commands::command::Command;
use crate::keyed::lookup;
use crate::manager::{auto_registered, resolved, table_of_config, Config};
use crate::text::{
    decimal, decimal_string, decimal_value, is_decimal, is_decimal_number, parse_decimal,
    split_words, texts, trim, trimmed, words,
};
use crate::utils::{
    error_text, log_line, log_text, quoted, underscorize, underscorized, CommandError, LogLevel,
};

verus! {

/// The application id that the first argument of a search stands for: what
/// the alias table resolves it to. Without an alias table the argument stands
/// for itself where it is a decimal number, and for nothing else.
pub open spec fn identified(
    table: Option<Seq<(Seq<char>, Seq<char>)>>,
    args: Seq<Seq<char>>,
) -> Option<Seq<char>> {
    if args.len() == 0 {
        None
    } else {
        match table {
            Some(table) => resolved(table, args[0]),
            None => if is_decimal(args[0]) {
                Some(args[0])
            } else {
                None
            },
        }
    }
}

/// The address of a catalog page: the application, the query that the second
/// argument gives (empty without one), the number of days that the option
/// `--days` gives (`-1` without it), and the page that the option `--pages`
/// gives (`page` without it).
pub open spec fn url_text(
    app_id: Seq<char>,
    args: Seq<Seq<char>>,
    options: Seq<(Seq<char>, Seq<char>)>,
    page: usize,
) -> Seq<char> {
    let query = if args.len() > 1 {
        args[1]
    } else {
        Seq::empty()
    };
    let days = match lookup(options, "--days"@) {
        Some(days) => days,
        None => "-1"@,
    };
    let pages = match lookup(options, "--pages"@) {
        Some(pages) => pages,
        None => decimal(page as nat),
    };
    "https://steamcommunity.com/workshop/browse/?appid="@ + app_id + "&searchtext="@ + query
        + "&days="@ + days + "&p="@ + pages
}

/// The line that shows the item at `index`: the index, the name of the item
/// and, in brackets, its id.
pub open spec fn item_line(index: int, item: ItemView) -> Seq<char> {
    decimal(index as nat) + ") "@ + item.name + " ["@ + item.id + "]"@
}

/// The lines that show `items`, each with its index, counted from zero.
pub open spec fn item_lines(items: Seq<ItemView>) -> Seq<Seq<char>> {
    Seq::new(items.len(), |i: int| item_line(i, items[i]))
}

/// The item id that a token of the selection line picks: the token is a decimal
/// index into `items`, and the id of the item at that index is a decimal number
/// that fits a `usize`. Any other token picks nothing.
pub open spec fn choice(items: Seq<ItemView>, token: Seq<char>) -> Option<usize> {
    if is_decimal(token) && decimal_value(token) < items.len() && is_decimal(
        items[decimal_value(token) as int].id,
    ) && decimal_value(items[decimal_value(token) as int].id) <= usize::MAX {
        Some(decimal_value(items[decimal_value(token) as int].id) as usize)
    } else {
        None
    }
}

/// The item ids that `tokens` pick, in the order of the tokens.
pub open spec fn picked_ids(items: Seq<ItemView>, tokens: Seq<Seq<char>>) -> Seq<usize>
    decreases tokens.len(),
{
    if tokens.len() == 0 {
        Seq::empty()
    } else {
        match choice(items, tokens.last()) {
            Some(id) => picked_ids(items, tokens.drop_last()).push(id),
            None => picked_ids(items, tokens.drop_last()),
        }
    }
}

/// The tokens among `tokens` that pick nothing, in order.
pub open spec fn rejected_tokens(items: Seq<ItemView>, tokens: Seq<Seq<char>>) -> Seq<Seq<char>>
    decreases tokens.len(),
{
    if tokens.len() == 0 {
        Seq::empty()
    } else {
        match choice(items, tokens.last()) {
            Some(_) => rejected_tokens(items, tokens.drop_last()),
            None => rejected_tokens(items, tokens.drop_last()).push(tokens.last()),
        }
    }
}

/// What a catalog page brought: the lines to show and the items to choose
/// from.
#[derive(Debug, PartialEq, Eq)]
pub struct Listing {
    /// The normal form of the title of the page: the name of the application
    /// where nothing else names it.
    pub name: String,
    /// The note that an alias was added for the application, if one was, then
    /// one line for each item.
    pub lines: Vec<String>,
    /// The items of the page, in its order.
    pub items: Vec<WorkshopItem>,
}

/// What the user selected.
#[derive(Debug, PartialEq, Eq)]
pub struct Picked {
    /// The application id, without surrounding white space.
    pub app_id: String,
    /// The ids of the selected items, in the order of the selection.
    pub item_ids: Vec<usize>,
    /// The tokens of the selection line that select nothing, in order.
    pub rejected: Vec<String>,
}

/// The `search` command.
pub struct SearchCommand<'a> {
    pub data: InputParser,
    pub config: &'a mut Config,
    /// The application id that the search is about; empty until `run` has
    /// resolved it.
    pub app_id: String,
}

/// The note that an alias was added for `title`, if the table `table` is loaded
/// and does not know the normal form of `title`.
pub open spec fn registration_note(
    table: Option<Seq<(Seq<char>, Seq<char>)>>,
    title: Seq<char>,
) -> Seq<Seq<char>> {
    match table {
        Some(table) => if lookup(table, underscorized(title)) is None {
            seq![log_text(LogLevel::INFO, "Added alias for '"@ + underscorized(title) + "'"@)]
        } else {
            Seq::empty()
        },
        None => Seq::empty(),
    }
}

/// The alias table after a page titled `title` was received for `app_id`.
pub open spec fn registered_table(
    table: Option<Seq<(Seq<char>, Seq<char>)>>,
    title: Seq<char>,
    app_id: Seq<char>,
) -> Option<Seq<(Seq<char>, Seq<char>)>> {
    match table {
        Some(table) => Some(auto_registered(table, underscorized(title), trim(app_id))),
        None => None,
    }
}

impl<'a> Command<'a, Result<String, CommandError>> for SearchCommand<'a> {
    open spec fn has_arguments(&self) -> bool {
        self.data.args@.len() > 0
    }

    fn new(config: &'a mut Config, data: InputParser) -> (command: Self)
        ensures
            command.data == data,
            command.app_id@ == Seq::<char>::empty(),
            *command.config == *old(config),
            *final(command.config) == *final(config),
    {
        SearchCommand { data, config, app_id: String::new() }
    }

    /// Resolves the application that the first argument names and returns the
    /// address of the first page of its catalog. The application id is kept
    /// for the steps that follow. The configuration is not changed.
    fn run(&mut self) -> (r: Result<String, CommandError>)
        ensures
            final(self).data == old(self).data,
            *final(self).config == *old(self).config,
            *final(final(self).config) == *final(old(self).config),
            match identified(table_of_config(*old(self).config), old(self).data@.args) {
                Some(app_id) => {
                    &&& r matches Ok(url)
                    &&& url@ == url_text(app_id, old(self).data@.args, old(self).data@.options, 1)
                    &&& final(self).app_id@ == app_id
                },
                None => {
                    &&& r == Err::<String, CommandError>(
                        if old(self).data@.args.len() == 0 {
                            CommandError::InsufficientArguments
                        } else {
                            CommandError::AppIdNotFound
                        },
                    )
                    &&& final(self).app_id == old(self).app_id
                },
            },
    {
        if let Err(e) = self.validate() {
            return Err(e);
        }
        match self.try_get_app_id() {
            Some(app_id) => {
                self.app_id = app_id;
                Ok(self.create_url(1))
            },
            None => Err(CommandError::AppIdNotFound),
        }
    }

    fn validate(&self) -> (r: Result<(), CommandError>) {
        if self.data.args.len() == 0 {
            Err(CommandError::InsufficientArguments)
        } else {
            Ok(())
        }
    }
}

impl<'a> SearchCommand<'a> {
    /// The application id that the first argument stands for: see
    /// [`identified`]. Nothing is changed.
    pub fn try_get_app_id(&mut self) -> (r: Option<String>)
        ensures
            final(self).data == old(self).data,
            final(self).app_id == old(self).app_id,
            *final(self).config == *old(self).config,
            *final(final(self).config) == *final(old(self).config),
            match r {
                Some(app_id) => identified(
                    table_of_config(*old(self).config),
                    old(self).data@.args,
                ) == Some(app_id@),
                None => identified(table_of_config(*old(self).config), old(self).data@.args)
                    is None,
            },
    {
        if self.data.args.len() == 0 {
            return None;
        }
        match self.config.get_props_ref() {
            Some(table) => table.resolve(self.data.args[0].as_str()),
            None => if is_decimal_number(self.data.args[0].as_str()) {
                Some(self.data.args[0].clone())
            } else {
                None
            },
        }
    }

    /// The address of page `page` of the catalog of the application: see
    /// [`url_text`].
    pub fn create_url(&self, page: usize) -> (url: String)
        ensures
            url@ == url_text(self.app_id@, self.data@.args, self.data@.options, page),
    {
        let mut url = String::from_str("https://steamcommunity.com/workshop/browse/?appid=");
        url.append(self.app_id.as_str());
        url.append("&searchtext=");
        if self.data.args.len() > 1 {
            url.append(self.data.args[1].as_str());
        }
        url.append("&days=");
        match self.data.option("--days") {
            Some(days) => url.append(days.as_str()),
            None => url.append("-1"),
        }
        url.append("&p=");
        match self.data.option("--pages") {
            Some(pages) => url.append(pages.as_str()),
            None => url.append(decimal_string(page).as_str()),
        }
        url
    }

    /// The id of an item as a number, if the page spells it as a decimal number
    /// that fits a `usize`.
    pub fn get_item_id(&self, item: &WorkshopItem) -> (r: Option<usize>)
        ensures
            r == if is_decimal(item.id@) && decimal_value(item.id@) <= usize::MAX {
                Some(decimal_value(item.id@) as usize)
            } else {
                None
            },
    {
        parse_decimal(item.id.as_str())
    }

    /// The lines that show `items`: see [`item_lines`].
    pub fn display_workshop_items(&self, items: &Vec<WorkshopItem>) -> (lines: Vec<String>)
        ensures
            texts(lines@) == item_lines(item_views(items@)),
    {
        let mut lines: Vec<String> = Vec::new();
        let mut i: usize = 0;
        while i < items.len()
            invariant
                i <= items.len(),
                texts(lines@) == item_lines(item_views(items@)).take(i as int),
            decreases items.len() - i,
        {
            let mut line = decimal_string(i);
            line.append(") ");
            line.append(items[i].name.as_str());
            line.append(" [");
            line.append(items[i].id.as_str());
            line.append("]");
            let ghost before = texts(lines@);
            lines.push(line);
            assert(texts(lines@) == before.push(line@));
            i += 1;
        }
        lines
    }

    /// Takes the answer of the catalog. No answer, or an answer that is no
    /// catalog page, is an error, and so is the answer that the application is
    /// missing. With the page of the application, the title of the page becomes
    /// an alias of the application, unless the name is taken or no alias table
    /// is loaded, and the items of the page are listed.
    pub fn receive(&mut self, page: Option<CatalogPage>) -> (r: Result<Listing, CommandError>)
        ensures
            final(self).data == old(self).data,
            final(self).app_id == old(self).app_id,
            *final(final(self).config) == *final(old(self).config),
            match page {
                None => {
                    &&& r matches Err(e) && e == CommandError::CatalogUnreachable
                    &&& *final(self).config == *old(self).config
                },
                Some(CatalogPage::Missing) => {
                    &&& r matches Err(e) && e == CommandError::AppNotInCatalog
                    &&& *final(self).config == *old(self).config
                },
                Some(CatalogPage::Found { title, items }) => {
                    &&& r matches Ok(listing)
                    &&& listing.name@ == underscorized(title@)
                    &&& listing.items == items
                    &&& texts(listing.lines@) == registration_note(
                        table_of_config(*old(self).config),
                        title@,
                    ) + item_lines(item_views(items@))
                    &&& table_of_config(*final(self).config) == registered_table(
                        table_of_config(*old(self).config),
                        title@,
                        old(self).app_id@,
                    )
                },
            },
    {
        match page {
            None => Err(CommandError::CatalogUnreachable),
            Some(CatalogPage::Missing) => Err(CommandError::AppNotInCatalog),
            Some(CatalogPage::Found { title, items }) => {
                let mut lines: Vec<String> = Vec::new();
                let name = underscorize(title.clone());
                match self.config.get_props_mut() {
                    Some(table) => {
                        if table.set_alias(self.app_id.clone(), title) {
                            let message = quoted("Added alias for '", name.as_str(), "'");
                            lines.push(log_line(LogLevel::INFO, message.as_str()));
                        }
                    },
                    None => {},
                }
                let mut shown = self.display_workshop_items(&items);
                lines.append(&mut shown);
                Ok(Listing { name, lines, items })
            },
        }
    }

    /// Takes the line of indices that the user typed: see [`pick`].
    pub fn select(&self, items: &Vec<WorkshopItem>, line: &str) -> (picked: Picked)
        ensures
            picked.app_id@ == trim(self.app_id@),
            picked.item_ids@ == picked_ids(item_views(items@), words(line@)),
            texts(picked.rejected@) == rejected_tokens(item_views(items@), words(line@)),
    {
        pick(self.app_id.as_str(), items, line)
    }

    /// The log line of an error of this command: it names the first argument
    /// where the application was not identified, the application id where the
    /// catalog does not have it, and a rejected token where an item was not
    /// found.
    pub fn error_line(&self, e: CommandError) -> (line: String)
        ensures
            line@ == error_text(
                e,
                match e {
                    CommandError::AppIdNotFound => if self.data@.args.len() > 0 {
                        self.data@.args[0]
                    } else {
                        Seq::empty()
                    },
                    CommandError::AppNotInCatalog => trim(self.app_id@),
                    _ => Seq::empty(),
                },
            ),
    {
        proof {
            reveal_strlit("");
        }
        match e {
            CommandError::AppIdNotFound => {
                if self.data.args.len() > 0 {
                    e.line(self.data.args[0].as_str())
                } else {
                    e.line("")
                }
            },
            CommandError::AppNotInCatalog => e.line(trimmed(self.app_id.as_str()).as_str()),
            _ => e.line(""),
        }
    }
}

/// Takes the line of indices that the user typed after a search for
/// `app_id`. The line is split at white space. Each token that is the index
/// of an item whose id is a decimal number selects that item; every other
/// token is rejected.
pub fn pick(app_id: &str, items: &Vec<WorkshopItem>, line: &str) -> (picked: Picked)
    ensures
        picked.app_id@ == trim(app_id@),
        picked.item_ids@ == picked_ids(item_views(items@), words(line@)),
        texts(picked.rejected@) == rejected_tokens(item_views(items@), words(line@)),
{
    let tokens = split_words(line);
    let ghost all = words(line@);
    let ghost shown = item_views(items@);
    let mut item_ids: Vec<usize> = Vec::new();
    let mut rejected: Vec<String> = Vec::new();
    let mut i: usize = 0;
    while i < tokens.len()
        invariant
            i <= tokens.len(),
            all == texts(tokens@),
            shown == item_views(items@),
            item_ids@ == picked_ids(shown, all.take(i as int)),
            texts(rejected@) == rejected_tokens(shown, all.take(i as int)),
        decreases tokens.len() - i,
    {
        let token = &tokens[i];
        assert(all.take(i + 1).drop_last() == all.take(i as int));
        let count = items.len();
        let chosen = match parse_decimal(token.as_str()) {
            Some(index) => {
                if index < count {
                    parse_decimal(items[index].id.as_str())
                } else {
                    None
                }
            },
            None => None,
        };
        match chosen {
            Some(id) => {
                item_ids.push(id);
            },
            None => {
                rejected.push(token.clone());
            },
        }
        i += 1;
    }
    assert(all.take(all.len() as int) == all);
    Picked { app_id: trimmed(app_id), item_ids, rejected }
}

} // verus!
