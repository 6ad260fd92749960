//! The `help` command: the table of the commands of the session.
use vstd::prelude::*;
use crate::cli::InputParser;
use crate::commands::command::Command;
use crate::manager::Config;
use crate::text::{pad_right, padded, texts};
use crate::utils::CommandError;

verus! {

/// The width of a column of the help table.
pub const HELP_COLUMN_WIDTH: usize = 30;

/// One row of the help table: four cells, each padded to the column width,
/// with bars between them.
pub open spec fn help_row_text(
    command: Seq<char>,
    args: Seq<char>,
    options: Seq<char>,
    description: Seq<char>,
) -> Seq<char> {
    padded(command, HELP_COLUMN_WIDTH as nat) + " | "@ + padded(args, HELP_COLUMN_WIDTH as nat)
        + " | "@ + padded(options, HELP_COLUMN_WIDTH as nat) + " | "@ + padded(
        description,
        HELP_COLUMN_WIDTH as nat,
    )
}

/// The help table: its heading, then one row for each command of the session.
pub open spec fn help_text() -> Seq<Seq<char>> {
    seq![
        help_row_text("Command"@, "Args"@, "Options"@, "Description"@),
        help_row_text("help"@, "-"@, "-"@, "-"@),
        help_row_text("alias"@, "show, set [name] [appID], remove [name]"@, "-"@, "-"@),
        help_row_text(
            "search"@,
            "[appAlias] [query]"@,
            "--pages [number] --days [number]"@,
            "Search workshop items (sorted by top)"@,
        ),
        help_row_text(
            "export"@,
            "-"@,
            "-"@,
            "Exports all added items to a valid steamcmd command in txt"@,
        ),
        help_row_text(
            "download"@,
            "-"@,
            "--file [path]"@,
            "Downloads items via steamcmd (exports automatically)"@,
        ),
        help_row_text("exit"@, "-"@, "-"@, "Saves current data and exits"@),
    ]
}

/// Renders one row of the help table.
fn help_row(command: &str, args: &str, options: &str, description: &str) -> (row: String)
    ensures
        row@ == help_row_text(command@, args@, options@, description@),
{
    let mut row = pad_right(command, HELP_COLUMN_WIDTH);
    row.append(" | ");
    row.append(pad_right(args, HELP_COLUMN_WIDTH).as_str());
    row.append(" | ");
    row.append(pad_right(options, HELP_COLUMN_WIDTH).as_str());
    row.append(" | ");
    row.append(pad_right(description, HELP_COLUMN_WIDTH).as_str());
    row
}

/// The `help` command.
pub struct HelpCommand<'a> {
    pub data: InputParser,
    pub config: &'a mut Config,
}

impl<'a> Command<'a, Vec<String>> for HelpCommand<'a> {
    /// `help` needs no argument.
    open spec fn has_arguments(&self) -> bool {
        true
    }

    fn new(config: &'a mut Config, data: InputParser) -> (command: Self)
        ensures
            command.data == data,
            *command.config == *old(config),
            *final(command.config) == *final(config),
    {
        HelpCommand { data, config }
    }

    /// The lines of the help table. Neither the parsed line nor the
    /// configuration is read or changed.
    fn run(&mut self) -> (lines: Vec<String>)
        ensures
            texts(lines@) == help_text(),
            final(self).data == old(self).data,
            *final(self).config == *old(self).config,
            *final(final(self).config) == *final(old(self).config),
    {
        let mut lines: Vec<String> = Vec::new();
        lines.push(help_row("Command", "Args", "Options", "Description"));
        lines.push(help_row("help", "-", "-", "-"));
        lines.push(help_row("alias", "show, set [name] [appID], remove [name]", "-", "-"));
        lines.push(
            help_row(
                "search",
                "[appAlias] [query]",
                "--pages [number] --days [number]",
                "Search workshop items (sorted by top)",
            ),
        );
        lines.push(
            help_row(
                "export",
                "-",
                "-",
                "Exports all added items to a valid steamcmd command in txt",
            ),
        );
        lines.push(
            help_row(
                "download",
                "-",
                "--file [path]",
                "Downloads items via steamcmd (exports automatically)",
            ),
        );
        lines.push(help_row("exit", "-", "-", "Saves current data and exits"));
        lines
    }

    fn validate(&self) -> (r: Result<(), CommandError>) {
        Ok(())
    }
}

} // verus!
