//! The dispatcher: the session as a machine that takes events and answers with
//! lines to print and the next thing to do.
//!
//! The machine decides; it neither reads nor writes. Whoever drives it prints
//! the lines of each answer, writes the export of the answer if it has one,
//! does what the action asks, and comes back with the event that the action
//! brought. Only `exit` ends the session: every error is reported in the lines
//! and the session awaits input again.
use vstd::prelude::*;
use crate::catalog::{item_views, CatalogPage, ItemView, WorkshopItem};
use crate::cli::{parse_line, InputParser, ParsedCommand};
use crate::commands::alias::{run_table, run_text, AliasCommand};
use crate::commands::command::Command;
use crate::commands::help::{help_text, HelpCommand};
use crate::commands::search::{
    identified, item_lines, picked_ids, registered_table, registration_note, rejected_tokens,
    pick, url_text, SearchCommand,
};
use crate::keyed::pair_texts;
use crate::manager::{
    download_report_text, item_count_of, name_of_app, table_of_config, DownloadOutcome,
    DownloadStep, Manager, SUFFIX_LEN,
};
use crate::random::is_suffix;
use crate::text::{decimal, decimal_string, same_text, texts, trim, trimmed, words};
use crate::utils::{
    error_text, log_line, log_text, one_line, underscorized, CommandError, LogLevel,
};
use crate::workshop::{export_script, resolved_name, with_items, ExportArtifact};

verus! {

/// The commands of the session.
#[derive(Clone, Copy, Debug, PartialEq, Eq, Structural)]
pub enum CommandWord {
    Help,
    Search,
    Alias,
    Export,
    Download,
    Exit,
}

/// The command that a word names, white space around the word set aside.
pub open spec fn decoded(word: Seq<char>) -> Option<CommandWord> {
    let word = trim(word);
    if word == "help"@ {
        Some(CommandWord::Help)
    } else if word == "search"@ {
        Some(CommandWord::Search)
    } else if word == "alias"@ {
        Some(CommandWord::Alias)
    } else if word == "export"@ {
        Some(CommandWord::Export)
    } else if word == "download"@ {
        Some(CommandWord::Download)
    } else if word == "exit"@ {
        Some(CommandWord::Exit)
    } else {
        None
    }
}

/// Decodes a command word: see [`decoded`].
pub fn decode(word: &str) -> (r: Option<CommandWord>)
    ensures
        r == decoded(word@),
{
    let word = trimmed(word);
    if same_text(word.as_str(), "help") {
        Some(CommandWord::Help)
    } else if same_text(word.as_str(), "search") {
        Some(CommandWord::Search)
    } else if same_text(word.as_str(), "alias") {
        Some(CommandWord::Alias)
    } else if same_text(word.as_str(), "export") {
        Some(CommandWord::Export)
    } else if same_text(word.as_str(), "download") {
        Some(CommandWord::Download)
    } else if same_text(word.as_str(), "exit") {
        Some(CommandWord::Exit)
    } else {
        None
    }
}

/// What the session asks the user for.
#[derive(Clone, Copy, Debug, PartialEq, Eq, Structural)]
pub enum Prompt {
    /// A command.
    Command,
    /// The indices of the items to select, after a search.
    Selection,
}

impl Prompt {
    /// The text of the prompt.
    pub open spec fn text(self) -> Seq<char> {
        match self {
            Prompt::Command => "RSWC (v1.0)> "@,
            Prompt::Selection => "Select by index (0 1 2) > "@,
        }
    }

    /// The text of the prompt.
    pub fn render(self) -> (out: String)
        ensures
            out@ == self.text(),
    {
        match self {
            Prompt::Command => String::from_str("RSWC (v1.0)> "),
            Prompt::Selection => String::from_str("Select by index (0 1 2) > "),
        }
    }
}

/// What the session waits for.
pub enum Pending {
    /// A command line.
    Input,
    /// The catalog page of a search.
    Page { data: InputParser, app_id: String },
    /// The selection line of a search for `app_id`, whose page is titled `name`
    /// in normal form and lists `items`.
    Selection { app_id: String, name: String, items: Vec<WorkshopItem> },
    /// The text of the script file of a download.
    Script { path: String },
    /// The end of a run of the downloader.
    Downloader { item_count: usize },
    /// Nothing: the session has ended.
    Ended,
}

/// What happened outside the session.
pub enum Event {
    /// The user typed a line, without its line end.
    Line(String),
    /// The catalog answered; `None` where it could not be reached or its answer
    /// is no catalog page.
    Page(Option<CatalogPage>),
    /// The script file was read; `None` where it could not be read.
    Script(Option<String>),
    /// The downloader ended.
    Downloaded(DownloadOutcome),
}

/// What is to be done outside the session.
#[derive(Debug, PartialEq, Eq)]
pub enum Action {
    /// Show the prompt, read a line and come back with [`Event::Line`].
    ReadLine(Prompt),
    /// Fetch the catalog page at this address, have it read, and come back
    /// with [`Event::Page`].
    Fetch(String),
    /// Read the file at this path and come back with [`Event::Script`].
    ReadScript(String),
    /// Run the downloader with these arguments and come back with
    /// [`Event::Downloaded`].
    Launch(Vec<String>),
    /// Store these aliases, if there are any to store, and end the process
    /// with success.
    Exit(Option<Vec<(String, String)>>),
}

/// The answer of the session to an event.
#[derive(Debug, PartialEq, Eq)]
pub struct Output {
    /// The lines to print, in order.
    pub lines: Vec<String>,
    /// The export to write, if the event made one.
    pub export: Option<ExportArtifact>,
    /// What to do next.
    pub action: Action,
}

/// The session.
pub struct Session {
    pub manager: Manager,
    pub pending: Pending,
}

/// The message that items were filed.
pub open spec fn added_text(count: nat, name: Seq<char>) -> Seq<char> {
    "Added "@ + decimal(count) + " items for '"@ + name + "'"@
}

/// The lines that reject `tokens`, one for each.
pub open spec fn rejection_lines(tokens: Seq<Seq<char>>) -> Seq<Seq<char>> {
    Seq::new(tokens.len(), |i: int| error_text(CommandError::ItemNotFound, tokens[i]))
}

/// Whether `export` is an export of what `manager` has collected, under some
/// suffix of letters and digits.
pub open spec fn is_fresh_export(export: ExportArtifact, manager: Manager) -> bool {
    exists|suffix: Seq<char>|
        is_suffix(suffix, SUFFIX_LEN as nat) && #[trigger] export.is_export_of(
            manager.workshop@,
            suffix,
        )
}

/// Whether the answer `out` asks for a command and carries no export.
pub open spec fn awaits_command(after: Session, out: Output) -> bool {
    &&& after.pending is Input
    &&& out.action == Action::ReadLine(Prompt::Command)
    &&& out.export is None
}

/// What a command line does. A line that is no command, and a command word
/// that is none of the commands, are reported, and nothing changes.
pub open spec fn command_step(
    before: Session,
    line: Seq<char>,
    after: Session,
    out: Output,
) -> bool {
    match parse_line(line) {
        Err(e) => {
            &&& after.manager == before.manager
            &&& awaits_command(after, out)
            &&& texts(out.lines@) == seq![log_text(LogLevel::ERR, e.message_text())]
        },
        Ok(parsed) => match decoded(parsed.command) {
            None => {
                &&& after.manager == before.manager
                &&& awaits_command(after, out)
                &&& texts(out.lines@) == seq![
                    error_text(CommandError::UnknownCommand, trim(parsed.command)),
                ]
            },
            Some(CommandWord::Help) => {
                &&& after.manager == before.manager
                &&& awaits_command(after, out)
                &&& texts(out.lines@) == help_text()
            },
            Some(CommandWord::Alias) => {
                &&& after.manager.workshop == before.manager.workshop
                &&& table_of_config(after.manager.config) == run_table(
                    table_of_config(before.manager.config),
                    parsed.args,
                )
                &&& awaits_command(after, out)
                &&& texts(out.lines@) == run_text(
                    table_of_config(before.manager.config),
                    parsed.args,
                )
            },
            Some(CommandWord::Search) => search_step(before, parsed, after, out),
            Some(CommandWord::Export) => {
                &&& after.manager == before.manager
                &&& after.pending is Input
                &&& out.action == Action::ReadLine(Prompt::Command)
                &&& if before.manager.workshop@.len() == 0 {
                    &&& out.export is None
                    &&& texts(out.lines@) == seq![log_text(LogLevel::INFO, "Nothing to export"@)]
                } else {
                    &&& out.export matches Some(export)
                    &&& is_fresh_export(export, before.manager)
                    &&& texts(out.lines@) == Seq::<Seq<char>>::empty()
                }
            },
            Some(CommandWord::Download) => download_step(before, parsed, after, out),
            Some(CommandWord::Exit) => {
                &&& after.manager == before.manager
                &&& after.pending is Ended
                &&& out.export is None
                &&& texts(out.lines@) == seq![log_text(LogLevel::EXIT, "Saving and exitting..."@)]
                &&& saves(before.manager, out.action)
            },
        },
    }
}

/// Whether `action` ends the process and stores the alias table of `manager`.
pub open spec fn saves(manager: Manager, action: Action) -> bool {
    &&& action matches Action::Exit(stored)
    &&& match manager.config.properties {
        Some(table) => stored matches Some(entries) && pair_texts(entries@) == table@,
        None => stored is None,
    }
}

/// What the command `search` does: it asks for the catalog page of the
/// application that its first argument names, or reports that it cannot.
pub open spec fn search_step(
    before: Session,
    parsed: ParsedCommand,
    after: Session,
    out: Output,
) -> bool {
    &&& after.manager == before.manager
    &&& out.export is None
    &&& match identified(table_of_config(before.manager.config), parsed.args) {
        Some(app_id) => {
            &&& after.pending matches Pending::Page { data, app_id: kept }
            &&& data@ == parsed
            &&& kept@ == app_id
            &&& out.action matches Action::Fetch(url)
            &&& url@ == url_text(app_id, parsed.args, parsed.options, 1)
            &&& texts(out.lines@) == Seq::<Seq<char>>::empty()
        },
        None => {
            &&& after.pending is Input
            &&& out.action == Action::ReadLine(Prompt::Command)
            &&& texts(out.lines@) == seq![
                if parsed.args.len() == 0 {
                    error_text(CommandError::InsufficientArguments, Seq::empty())
                } else {
                    error_text(CommandError::AppIdNotFound, parsed.args[0])
                },
            ]
        },
    }
}

/// What the command `download` does: with the option `--file` it asks for the
/// script file; without it, it exports the collection and asks for a run of
/// the downloader, or reports that there is nothing to download.
pub open spec fn download_step(
    before: Session,
    parsed: ParsedCommand,
    after: Session,
    out: Output,
) -> bool {
    &&& after.manager == before.manager
    &&& match parsed.option("--file"@) {
        Some(path) => {
            &&& after.pending matches Pending::Script { path: kept }
            &&& kept@ == path
            &&& out.action matches Action::ReadScript(asked)
            &&& asked@ == path
            &&& out.export is None
            &&& texts(out.lines@) == Seq::<Seq<char>>::empty()
        },
        None => if before.manager.workshop@.len() == 0 {
            &&& awaits_command(after, out)
            &&& texts(out.lines@) == seq![log_text(LogLevel::INFO, "No items to download"@)]
        } else {
            &&& after.pending matches Pending::Downloader { item_count }
            &&& item_count == item_count_of(export_script(before.manager.workshop@).len())
            &&& out.action matches Action::Launch(args)
            &&& texts(args@) == export_script(before.manager.workshop@)
            &&& out.export matches Some(export)
            &&& is_fresh_export(export, before.manager)
            &&& texts(out.lines@) == Seq::<Seq<char>>::empty()
        },
    }
}

/// What the answer of the catalog does to a search for `app_id`: an error is
/// reported; a page is listed, its title becomes an alias, and the session
/// asks for the selection.
pub open spec fn page_step(
    before: Session,
    data: InputParser,
    app_id: String,
    page: Option<CatalogPage>,
    after: Session,
    out: Output,
) -> bool {
    &&& after.manager.workshop == before.manager.workshop
    &&& out.export is None
    &&& match page {
        None => {
            &&& after.manager.config == before.manager.config
            &&& after.pending is Input
            &&& out.action == Action::ReadLine(Prompt::Command)
            &&& texts(out.lines@) == seq![
                error_text(CommandError::CatalogUnreachable, Seq::empty()),
            ]
        },
        Some(CatalogPage::Missing) => {
            &&& after.manager.config == before.manager.config
            &&& after.pending is Input
            &&& out.action == Action::ReadLine(Prompt::Command)
            &&& texts(out.lines@) == seq![error_text(CommandError::AppNotInCatalog, trim(app_id@))]
        },
        Some(CatalogPage::Found { title, items }) => {
            &&& table_of_config(after.manager.config) == registered_table(
                table_of_config(before.manager.config),
                title@,
                app_id@,
            )
            &&& after.pending matches Pending::Selection { app_id: kept, name, items: shown }
            &&& kept == app_id
            &&& name@ == underscorized(title@)
            &&& shown == items
            &&& out.action == Action::ReadLine(Prompt::Selection)
            &&& texts(out.lines@) == registration_note(
                table_of_config(before.manager.config),
                title@,
            ) + item_lines(item_views(items@))
        },
    }
}

/// What the selection line does after a search for `app_id` whose page, titled
/// `name` in normal form, listed `items`. Every token that selects nothing is
/// reported. The items that the others select are filed under the application:
/// they go to the end of its entry, which keeps its name. Where the
/// application has no entry, one is made, named as the alias table names the
/// application, or `name` where no alias does. Nothing is dropped for want of
/// an alias.
pub open spec fn selection_step(
    before: Session,
    app_id: Seq<char>,
    name: Seq<char>,
    items: Seq<ItemView>,
    line: Seq<char>,
    after: Session,
    out: Output,
) -> bool {
    let ids = picked_ids(items, words(line));
    let rejected = rejection_lines(rejected_tokens(items, words(line)));
    let given = match name_of_app(before.manager.config, trim(app_id)) {
        Some(alias) => alias,
        None => name,
    };
    &&& after.manager.config == before.manager.config
    &&& awaits_command(after, out)
    &&& after.manager.workshop@ == with_items(before.manager.workshop@, trim(app_id), given, ids)
    &&& texts(out.lines@) == match resolved_name(
        before.manager.workshop@,
        trim(app_id),
        given,
        ids,
    ) {
        Some(filed_under) => rejected.push(
            log_text(LogLevel::SUCCESS, added_text(ids.len(), filed_under)),
        ),
        None => rejected,
    }
}

/// What the text of the script file at `path` does to a download: a file that
/// could not be read is reported; a script without a token leaves nothing to
/// download; any other script is handed to the downloader.
pub open spec fn script_step(
    before: Session,
    path: Seq<char>,
    contents: Option<String>,
    after: Session,
    out: Output,
) -> bool {
    &&& after.manager == before.manager
    &&& out.export is None
    &&& match contents {
        None => {
            &&& after.pending is Input
            &&& out.action == Action::ReadLine(Prompt::Command)
            &&& texts(out.lines@) == seq![
                error_text(CommandError::FileNotFound, path),
                log_text(LogLevel::INFO, "No items to download"@),
            ]
        },
        Some(text) => if words(text@).len() == 0 {
            &&& after.pending is Input
            &&& out.action == Action::ReadLine(Prompt::Command)
            &&& texts(out.lines@) == seq![log_text(LogLevel::INFO, "No items to download"@)]
        } else {
            &&& after.pending matches Pending::Downloader { item_count }
            &&& item_count == item_count_of(words(text@).len())
            &&& out.action matches Action::Launch(args)
            &&& texts(args@) == words(text@)
            &&& texts(out.lines@) == Seq::<Seq<char>>::empty()
        },
    }
}

/// What the end of a run of the downloader does: it is reported. The
/// collection keeps its entries, so that they can be exported again.
pub open spec fn downloaded_step(
    before: Session,
    item_count: usize,
    outcome: DownloadOutcome,
    after: Session,
    out: Output,
) -> bool {
    &&& after.manager == before.manager
    &&& awaits_command(after, out)
    &&& texts(out.lines@) == download_report_text(item_count, outcome)
}

/// What an event does to the session. An event that the session does not wait
/// for ends what was pending, without a word: the session awaits a command
/// again. Once the session has ended, every event ends it again.
pub open spec fn session_step(before: Session, event: Event, after: Session, out: Output) -> bool {
    match (before.pending, event) {
        (Pending::Input, Event::Line(line)) => command_step(before, line@, after, out),
        (Pending::Page { data, app_id }, Event::Page(page)) => page_step(
            before,
            data,
            app_id,
            page,
            after,
            out,
        ),
        (Pending::Selection { app_id, name, items }, Event::Line(line)) => selection_step(
            before,
            app_id@,
            name@,
            item_views(items@),
            line@,
            after,
            out,
        ),
        (Pending::Script { path }, Event::Script(contents)) => script_step(
            before,
            path@,
            contents,
            after,
            out,
        ),
        (Pending::Downloader { item_count }, Event::Downloaded(outcome)) => downloaded_step(
            before,
            item_count,
            outcome,
            after,
            out,
        ),
        (Pending::Ended, _) => {
            &&& after.manager == before.manager
            &&& after.pending is Ended
            &&& out.export is None
            &&& texts(out.lines@) == Seq::<Seq<char>>::empty()
            &&& saves(before.manager, out.action)
        },
        _ => {
            &&& after.manager == before.manager
            &&& awaits_command(after, out)
            &&& texts(out.lines@) == Seq::<Seq<char>>::empty()
        },
    }
}

/// Nothing but the command `exit` ends a session: a session that has not
/// ended, and has after an event, awaited a command and was given a line whose
/// command word is `exit`. No error ends a session.
pub proof fn lemma_only_exit_ends_a_session(
    before: Session,
    event: Event,
    after: Session,
    out: Output,
)
    requires
        session_step(before, event, after, out),
        !(before.pending is Ended),
        after.pending is Ended,
    ensures
        before.pending is Input,
        event matches Event::Line(line) && parse_line(line@) matches Ok(parsed) && decoded(
            parsed.command,
        ) == Some(CommandWord::Exit),
{
}

/// A session that has ended stays ended, whatever the event.
pub proof fn lemma_an_ended_session_stays_ended(
    before: Session,
    event: Event,
    after: Session,
    out: Output,
)
    requires
        session_step(before, event, after, out),
        before.pending is Ended,
    ensures
        after.pending is Ended,
        after.manager == before.manager,
        out.action is Exit,
{
}

/// The answer that prints `lines` and asks for a command.
fn report(lines: Vec<String>) -> (out: Output)
    ensures
        out.lines == lines,
        out.export is None,
        out.action == Action::ReadLine(Prompt::Command),
{
    Output { lines, export: None, action: Action::ReadLine(Prompt::Command) }
}

/// No lines.
fn no_lines() -> (lines: Vec<String>)
    ensures
        texts(lines@) == Seq::<Seq<char>>::empty(),
{
    let lines: Vec<String> = Vec::new();
    lines
}

/// One log line of the level `level`.
fn note(level: LogLevel, message: &str) -> (lines: Vec<String>)
    ensures
        texts(lines@) == seq![log_text(level, message@)],
{
    one_line(log_line(level, message))
}

impl Session {
    /// A session that awaits its first command, with an empty collection and
    /// no alias table.
    pub fn new() -> (session: Self)
        ensures
            session.pending is Input,
            session.manager.workshop@.len() == 0,
            session.manager.config.properties is None,
    {
        Session { manager: Manager::new(), pending: Pending::Input }
    }

    /// The command `search`: see [`search_step`].
    fn begin_search(&mut self, data: InputParser) -> (out: Output)
        requires
            old(self).pending is Input,
        ensures
            search_step(*old(self), data@, *final(self), out),
    {
        let mut command = SearchCommand::new(&mut self.manager.config, data);
        match command.run() {
            Ok(url) => {
                let SearchCommand { data, config: _, app_id } = command;
                self.pending = Pending::Page { data, app_id };
                Output { lines: no_lines(), export: None, action: Action::Fetch(url) }
            },
            Err(e) => {
                let line = command.error_line(e);
                report(one_line(line))
            },
        }
    }

    /// The command `download`: see [`download_step`].
    fn begin_download(&mut self, data: InputParser) -> (out: Output)
        requires
            old(self).pending is Input,
        ensures
            download_step(*old(self), data@, *final(self), out),
    {
        match self.manager.download(&data) {
            DownloadStep::ReadScript(path) => {
                self.pending = Pending::Script { path: path.clone() };
                Output { lines: no_lines(), export: None, action: Action::ReadScript(path) }
            },
            DownloadStep::Nothing => report(note(LogLevel::INFO, "No items to download")),
            DownloadStep::Launch(job, export) => {
                self.pending = Pending::Downloader { item_count: job.item_count };
                Output { lines: no_lines(), export, action: Action::Launch(job.args) }
            },
        }
    }

    /// A command line: see [`command_step`].
    fn on_command(&mut self, line: String) -> (out: Output)
        requires
            old(self).pending is Input,
        ensures
            command_step(*old(self), line@, *final(self), out),
    {
        let data = match InputParser::new(line.as_str()) {
            Ok(data) => data,
            Err(e) => {
                return report(note(LogLevel::ERR, e.message().as_str()));
            },
        };
        match decode(data.command.as_str()) {
            None => {
                let word = trimmed(data.command.as_str());
                report(one_line(CommandError::UnknownCommand.line(word.as_str())))
            },
            Some(CommandWord::Help) => {
                let mut command = HelpCommand::new(&mut self.manager.config, data);
                report(command.run())
            },
            Some(CommandWord::Alias) => {
                let mut command = AliasCommand::new(&mut self.manager.config, data);
                report(command.run())
            },
            Some(CommandWord::Search) => self.begin_search(data),
            Some(CommandWord::Export) => match self.manager.export() {
                None => report(note(LogLevel::INFO, "Nothing to export")),
                Some(export) => Output {
                    lines: no_lines(),
                    export: Some(export),
                    action: Action::ReadLine(Prompt::Command),
                },
            },
            Some(CommandWord::Download) => self.begin_download(data),
            Some(CommandWord::Exit) => {
                self.pending = Pending::Ended;
                Output {
                    lines: note(LogLevel::EXIT, "Saving and exitting..."),
                    export: None,
                    action: Action::Exit(self.manager.save()),
                }
            },
        }
    }

    /// The answer of the catalog: see [`page_step`].
    fn on_page(&mut self, data: InputParser, app_id: String, page: Option<CatalogPage>) -> (out:
        Output)
        requires
            old(self).pending is Input,
        ensures
            page_step(*old(self), data, app_id, page, *final(self), out),
    {
        let mut command = SearchCommand { data, config: &mut self.manager.config, app_id };
        match command.receive(page) {
            Ok(listing) => {
                let SearchCommand { data: _, config: _, app_id } = command;
                self.pending = Pending::Selection {
                    app_id,
                    name: listing.name,
                    items: listing.items,
                };
                Output {
                    lines: listing.lines,
                    export: None,
                    action: Action::ReadLine(Prompt::Selection),
                }
            },
            Err(e) => {
                let line = command.error_line(e);
                report(one_line(line))
            },
        }
    }

    /// The selection line: see [`selection_step`].
    fn on_selection(
        &mut self,
        app_id: String,
        name: String,
        items: Vec<WorkshopItem>,
        line: String,
    ) -> (out: Output)
        requires
            old(self).pending is Input,
        ensures
            selection_step(
                *old(self),
                app_id@,
                name@,
                item_views(items@),
                line@,
                *final(self),
                out,
            ),
    {
        let picked = pick(app_id.as_str(), &items, line.as_str());
        let ghost tokens = texts(picked.rejected@);
        let mut lines: Vec<String> = Vec::new();
        let mut i: usize = 0;
        while i < picked.rejected.len()
            invariant
                i <= picked.rejected.len(),
                tokens == texts(picked.rejected@),
                texts(lines@) == rejection_lines(tokens).take(i as int),
            decreases picked.rejected.len() - i,
        {
            let ghost before = texts(lines@);
            let line = CommandError::ItemNotFound.line(picked.rejected[i].as_str());
            lines.push(line);
            assert(texts(lines@) == before.push(line@));
            i += 1;
        }
        assert(texts(lines@) == rejection_lines(tokens));
        let count = picked.item_ids.len();
        let alias = match self.manager.config.get_props_ref() {
            Some(table) => table.get_name_by_app_id(picked.app_id.clone()),
            None => None,
        };
        let given = match alias {
            Some(alias) => alias,
            None => name,
        };
        let ghost rejected = texts(lines@);
        match self.manager.add(picked.app_id, given, picked.item_ids) {
            Some(filed_under) => {
                let mut message = String::from_str("Added ");
                message.append(decimal_string(count).as_str());
                message.append(" items for '");
                message.append(filed_under.as_str());
                message.append("'");
                let line = log_line(LogLevel::SUCCESS, message.as_str());
                lines.push(line);
                assert(texts(lines@) == rejected.push(line@));
            },
            None => {},
        }
        report(lines)
    }

    /// The text of the script file: see [`script_step`].
    fn on_script(&mut self, path: String, contents: Option<String>) -> (out: Output)
        requires
            old(self).pending is Input,
        ensures
            script_step(*old(self), path@, contents, *final(self), out),
    {
        let mut lines: Vec<String> = Vec::new();
        if contents.is_none() {
            let line = CommandError::FileNotFound.line(path.as_str());
            lines.push(line);
        } else {
            assert(texts(lines@) == Seq::<Seq<char>>::empty());
        }
        match Manager::download_script(contents) {
            DownloadStep::Launch(job, _) => {
                self.pending = Pending::Downloader { item_count: job.item_count };
                Output { lines: no_lines(), export: None, action: Action::Launch(job.args) }
            },
            _ => {
                let ghost before = texts(lines@);
                let line = log_line(LogLevel::INFO, "No items to download");
                lines.push(line);
                assert(texts(lines@) == before.push(line@));
                proof {
                    if contents is None {
                        assert(texts(lines@) == seq![
                            error_text(CommandError::FileNotFound, path@),
                            log_text(LogLevel::INFO, "No items to download"@),
                        ]);
                    }
                }
                report(lines)
            },
        }
    }

    /// The end of a run of the downloader: see [`downloaded_step`].
    fn on_downloaded(&mut self, item_count: usize, outcome: DownloadOutcome) -> (out: Output)
        requires
            old(self).pending is Input,
        ensures
            downloaded_step(*old(self), item_count, outcome, *final(self), out),
    {
        report(Manager::download_report(item_count, &outcome))
    }

    /// Takes an event and answers it: see [`session_step`].
    pub fn step(&mut self, event: Event) -> (out: Output)
        ensures
            session_step(*old(self), event, *final(self), out),
    {
        let mut pending = Pending::Input;
        core::mem::swap(&mut self.pending, &mut pending);
        match (pending, event) {
            (Pending::Input, Event::Line(line)) => self.on_command(line),
            (Pending::Page { data, app_id }, Event::Page(page)) => self.on_page(data, app_id, page),
            (Pending::Selection { app_id, name, items }, Event::Line(line)) => self.on_selection(
                app_id,
                name,
                items,
                line,
            ),
            (Pending::Script { path }, Event::Script(contents)) => self.on_script(path, contents),
            (Pending::Downloader { item_count }, Event::Downloaded(outcome)) => self.on_downloaded(
                item_count,
                outcome,
            ),
            (Pending::Ended, _) => {
                self.pending = Pending::Ended;
                Output {
                    lines: no_lines(),
                    export: None,
                    action: Action::Exit(self.manager.save()),
                }
            },
            _ => report(no_lines()),
        }
    }
}

} // verus!
