//! The `alias` command: shows the alias table, binds a name, removes a name.
use vstd::prelude::*;
use crate::cli::InputParser;
use crate::commands::command::Command;
use crate::keyed::lookup;
use crate::manager::{table_of_config, with_alias, without_alias, AliasChange, Config};
use crate::text::{is_decimal, is_decimal_number, pad_right, padded, same_text, texts};
use crate::utils::{
    error_text, log_line, log_text, one_line, quoted, underscorize, underscorized, CommandError,
    LogLevel,
};

verus! {

/// The width of a column of the alias listing.
pub const COLUMN_WIDTH: usize = 30;

/// The width of the rule between two rows of the alias listing.
pub const RULE_WIDTH: usize = 60;

/// The rule between two rows of the alias listing: a line of hyphens.
pub open spec fn rule_text() -> Seq<char> {
    Seq::new(RULE_WIDTH as nat, |i: int| '-')
}

/// One row of the alias listing: name and application id, each padded to the
/// column width, with a bar between them.
pub open spec fn row_text(entry: (Seq<char>, Seq<char>)) -> Seq<char> {
    padded(entry.0, COLUMN_WIDTH as nat) + " | "@ + padded(entry.1, COLUMN_WIDTH as nat)
}

/// The rows of `table`, each followed by a rule.
pub open spec fn rows_text(table: Seq<(Seq<char>, Seq<char>)>) -> Seq<Seq<char>>
    decreases table.len(),
{
    if table.len() == 0 {
        Seq::empty()
    } else {
        rows_text(table.drop_last()).push(row_text(table.last())).push(rule_text())
    }
}

/// The alias listing: a rule, then the rows.
pub open spec fn listing_text(table: Seq<(Seq<char>, Seq<char>)>) -> Seq<Seq<char>> {
    seq![rule_text()] + rows_text(table)
}

/// The `alias` command.
pub struct AliasCommand<'a> {
    pub data: InputParser,
    pub config: &'a mut Config,
}

/// What `alias set` does with the arguments `args`, which follow the word
/// `alias`, to the alias table `table`, if one is loaded: the error that ends
/// the command, or the new table and whether the name was new.
pub open spec fn set_outcome(
    table: Option<Seq<(Seq<char>, Seq<char>)>>,
    args: Seq<Seq<char>>,
) -> Result<(Seq<(Seq<char>, Seq<char>)>, AliasChange), CommandError> {
    if args.len() < 3 {
        Err(CommandError::InsufficientArguments)
    } else if !is_decimal(args[2]) {
        Err(CommandError::AppIdNotNumeric)
    } else {
        match table {
            None => Err(CommandError::NoConfig),
            Some(table) => Ok(
                (
                    with_alias(table, underscorized(args[1]), args[2]),
                    if lookup(table, underscorized(args[1])) is Some {
                        AliasChange::Updated
                    } else {
                        AliasChange::Added
                    },
                ),
            ),
        }
    }
}

/// What `alias remove` does with the arguments `args` to the alias table
/// `table`, if one is loaded: the error that ends the command, or the new
/// table.
pub open spec fn remove_outcome(
    table: Option<Seq<(Seq<char>, Seq<char>)>>,
    args: Seq<Seq<char>>,
) -> Result<Seq<(Seq<char>, Seq<char>)>, CommandError> {
    if args.len() < 2 {
        Err(CommandError::InsufficientArguments)
    } else {
        match table {
            None => Err(CommandError::NoConfig),
            Some(table) => if lookup(table, underscorized(args[1])) is Some {
                Ok(without_alias(table, underscorized(args[1])))
            } else {
                Err(CommandError::AliasNotFound)
            },
        }
    }
}

/// The message that follows a change of the alias table.
pub open spec fn change_text(change: AliasChange, name: Seq<char>) -> Seq<char> {
    match change {
        AliasChange::Added => "Added alias for '"@ + name + "'"@,
        AliasChange::Updated => "Updated alias for '"@ + name + "'"@,
    }
}

/// The lines that the `alias` command prints for the arguments `args` when the
/// alias table is `table`.
pub open spec fn run_text(
    table: Option<Seq<(Seq<char>, Seq<char>)>>,
    args: Seq<Seq<char>>,
) -> Seq<Seq<char>> {
    if args.len() == 0 {
        seq![error_text(CommandError::InsufficientArguments, Seq::empty())]
    } else if args[0] == "show"@ {
        match table {
            Some(table) => listing_text(table),
            None => seq![error_text(CommandError::NoAliases, Seq::empty())],
        }
    } else if args[0] == "set"@ {
        match set_outcome(table, args) {
            Ok((_, change)) => seq![
                log_text(LogLevel::INFO, change_text(change, underscorized(args[1]))),
            ],
            Err(e) => seq![error_text(e, Seq::empty())],
        }
    } else if args[0] == "remove"@ {
        match remove_outcome(table, args) {
            Ok(_) => seq![
                log_text(LogLevel::WARN, "Removed alias for '"@ + underscorized(args[1]) + "'"@),
            ],
            Err(e) => seq![
                error_text(e, if args.len() < 2 { Seq::empty() } else { underscorized(args[1]) }),
            ],
        }
    } else {
        seq![error_text(CommandError::InvalidAction, args[0])]
    }
}

/// The alias table after the `alias` command has run with the arguments
/// `args`.
pub open spec fn run_table(
    table: Option<Seq<(Seq<char>, Seq<char>)>>,
    args: Seq<Seq<char>>,
) -> Option<Seq<(Seq<char>, Seq<char>)>> {
    if args.len() == 0 {
        table
    } else if args[0] == "show"@ {
        table
    } else if args[0] == "set"@ {
        match set_outcome(table, args) {
            Ok((after, _)) => Some(after),
            Err(_) => table,
        }
    } else if args[0] == "remove"@ {
        match remove_outcome(table, args) {
            Ok(after) => Some(after),
            Err(_) => table,
        }
    } else {
        table
    }
}

impl<'a> Command<'a, Vec<String>> for AliasCommand<'a> {
    open spec fn has_arguments(&self) -> bool {
        self.data.args@.len() > 0
    }

    fn new(config: &'a mut Config, data: InputParser) -> (command: Self)
        ensures
            command.data == data,
            *command.config == *old(config),
            *final(command.config) == *final(config),
    {
        AliasCommand { data, config }
    }

    /// Runs the action that the first argument names and returns the lines to
    /// print: see [`run_text`] and [`run_table`].
    fn run(&mut self) -> (lines: Vec<String>)
        ensures
            final(self).data == old(self).data,
            *final(final(self).config) == *final(old(self).config),
            texts(lines@) == run_text(table_of_config(*old(self).config), old(self).data@.args),
            table_of_config(*final(self).config) == run_table(
                table_of_config(*old(self).config),
                old(self).data@.args,
            ),
    {
        if let Err(e) = self.validate() {
            return one_line(e.line(""));
        }
        if same_text(self.data.args[0].as_str(), "show") {
            match self.display_aliases() {
                Ok(lines) => lines,
                Err(e) => one_line(e.line("")),
            }
        } else if same_text(self.data.args[0].as_str(), "set") {
            match self.set() {
                Ok(change) => {
                    let name = underscorize(self.data.args[1].clone());
                    let message = match change {
                        AliasChange::Added => quoted("Added alias for '", name.as_str(), "'"),
                        AliasChange::Updated => quoted("Updated alias for '", name.as_str(), "'"),
                    };
                    one_line(log_line(LogLevel::INFO, message.as_str()))
                },
                Err(e) => one_line(e.line("")),
            }
        } else if same_text(self.data.args[0].as_str(), "remove") {
            match self.remove() {
                Ok(()) => {
                    let name = underscorize(self.data.args[1].clone());
                    let message = quoted("Removed alias for '", name.as_str(), "'");
                    one_line(log_line(LogLevel::WARN, message.as_str()))
                },
                Err(e) => {
                    if self.data.args.len() < 2 {
                        one_line(e.line(""))
                    } else {
                        let name = underscorize(self.data.args[1].clone());
                        one_line(e.line(name.as_str()))
                    }
                },
            }
        } else {
            one_line(CommandError::InvalidAction.line(self.data.args[0].as_str()))
        }
    }

    fn validate(&self) -> (r: Result<(), CommandError>) {
        if self.data.args.len() == 0 {
            Err(CommandError::InsufficientArguments)
        } else {
            Ok(())
        }
    }
}

impl<'a> AliasCommand<'a> {
    /// Binds the name that the second argument gives to the application id that
    /// the third gives: see [`set_outcome`]. The id is refused where it is no
    /// decimal number: where it is empty or one of its characters is no ASCII
    /// digit.
    pub fn set(&mut self) -> (r: Result<AliasChange, CommandError>)
        ensures
            final(self).data == old(self).data,
            *final(final(self).config) == *final(old(self).config),
            match set_outcome(table_of_config(*old(self).config), old(self).data@.args) {
                Ok((after, change)) => {
                    &&& r == Ok::<AliasChange, CommandError>(change)
                    &&& table_of_config(*final(self).config) == Some(after)
                },
                Err(e) => {
                    &&& r == Err::<AliasChange, CommandError>(e)
                    &&& *final(self).config == *old(self).config
                },
            },
    {
        if self.data.args.len() < 3 {
            return Err(CommandError::InsufficientArguments);
        }
        if !is_decimal_number(self.data.args[2].as_str()) {
            return Err(CommandError::AppIdNotNumeric);
        }
        match self.config.get_props_mut() {
            Some(table) => Ok(
                table.set_alias_by_values(self.data.args[1].clone(), self.data.args[2].clone()),
            ),
            None => Err(CommandError::NoConfig),
        }
    }

    /// Removes the alias that the second argument names: see
    /// [`remove_outcome`].
    pub fn remove(&mut self) -> (r: Result<(), CommandError>)
        ensures
            final(self).data == old(self).data,
            *final(final(self).config) == *final(old(self).config),
            match remove_outcome(table_of_config(*old(self).config), old(self).data@.args) {
                Ok(after) => {
                    &&& r is Ok
                    &&& table_of_config(*final(self).config) == Some(after)
                },
                Err(e) => {
                    &&& r == Err::<(), CommandError>(e)
                    &&& table_of_config(*final(self).config) == table_of_config(
                        *old(self).config,
                    )
                },
            },
    {
        if self.data.args.len() < 2 {
            return Err(CommandError::InsufficientArguments);
        }
        match self.config.get_props_mut() {
            Some(table) => {
                if table.remove_alias(self.data.args[1].clone()) {
                    Ok(())
                } else {
                    Err(CommandError::AliasNotFound)
                }
            },
            None => Err(CommandError::NoConfig),
        }
    }

    /// The lines of the alias listing, or the error that no alias table is
    /// loaded.
    pub fn display_aliases(&self) -> (r: Result<Vec<String>, CommandError>)
        ensures
            match old(self.config).properties {
                Some(table) => r matches Ok(lines) && texts(lines@) == listing_text(table@),
                None => r == Err::<Vec<String>, CommandError>(CommandError::NoAliases),
            },
    {
        match self.config.get_props_ref() {
            Some(table) => {
                let entries = table.entries();
                let mut lines: Vec<String> = Vec::new();
                lines.push(rule());
                let mut i: usize = 0;
                while i < entries.len()
                    invariant
                        i <= entries.len(),
                        crate::keyed::pair_texts(entries@) == table@,
                        texts(lines@) == seq![rule_text()] + rows_text(table@.take(i as int)),
                    decreases entries.len() - i,
                {
                    let mut row = pad_right(entries[i].0.as_str(), COLUMN_WIDTH);
                    row.append(" | ");
                    row.append(pad_right(entries[i].1.as_str(), COLUMN_WIDTH).as_str());
                    proof {
                        let next = table@.take(i + 1);
                        assert(next.drop_last() == table@.take(i as int));
                    }
                    let ghost before = texts(lines@);
                    lines.push(row);
                    lines.push(rule());
                    assert(texts(lines@) == before.push(row@).push(rule_text()));
                    i += 1;
                }
                assert(table@.take(table@.len() as int) == table@);
                Ok(lines)
            },
            None => Err(CommandError::NoAliases),
        }
    }
}

/// A rule of the alias listing.
fn rule() -> (out: String)
    ensures
        out@ == rule_text(),
{
    let mut hyphens = String::new();
    let mut n: usize = 0;
    while n < RULE_WIDTH
        invariant
            n <= RULE_WIDTH,
            hyphens@ == Seq::new(n as nat, |i: int| '-'),
        decreases RULE_WIDTH - n,
    {
        hyphens.push('-');
        n += 1;
    }
    hyphens
}

} // verus!
