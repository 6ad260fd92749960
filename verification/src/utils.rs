//! Name normalisation and the leveled log lines of the session.
use vstd::prelude::*;
use crate::text::{
    fields, is_whitespace, join, join_with, lemma_fields_are_unbroken, lemma_fields_of_unbroken,
    lemma_join_is_unbroken, split_words, texts, words, Separator,
};
use crate::unicode::{lowercase_of, to_lowercase};

verus! {

/// The words of a text joined by single underscores. White space at either end
/// is dropped and every inner run of white space becomes one underscore.
pub open spec fn rejoined(text: Seq<char>) -> Seq<char> {
    join(words(text), seq!['_'])
}

/// The normal form of a name: the words of its lowercase equivalent, joined by
/// single underscores.
pub open spec fn underscorized(text: Seq<char>) -> Seq<char> {
    rejoined(lowercase_of(text))
}

/// Joins the words of a text by single underscores.
pub fn underscore_words(text: &str) -> (out: String)
    ensures
        out@ == rejoined(text@),
{
    let parts = split_words(text);
    proof {
        reveal_strlit("_");
        assert("_"@ == seq!['_']);
    }
    join_with(&parts, "_")
}

/// Brings a name to its normal form: lowercases it, then joins its words by
/// single underscores.
pub fn underscorize(text: String) -> (out: String)
    ensures
        out@ == underscorized(text@),
{
    let lower = to_lowercase(text.as_str());
    underscore_words(lower.as_str())
}

/// The classes of error of a session. Only a corrupt configuration ends the
/// session; every other error ends the command that met it.
#[derive(Clone, Copy, Debug, PartialEq, Eq, Structural)]
pub enum ErrorKind {
    /// A line, or the arguments of a command, cannot be understood.
    MalformedInput,
    /// An alias, an application or a selected item does not exist.
    NotFound,
    /// The catalog, the downloader or the file system failed.
    CollaboratorFailure,
    /// The stored configuration cannot be read.
    ConfigCorrupt,
}

/// The severity of a log line.
#[derive(Clone, Copy, Debug, PartialEq, Eq, Structural)]
pub enum LogLevel {
    INFO,
    EXIT,
    SUCCESS,
    WARN,
    ERR,
}

impl LogLevel {
    /// The bracketed tag that opens a log line of this level.
    pub open spec fn tag(self) -> Seq<char> {
        match self {
            LogLevel::INFO => "[INFO] "@,
            LogLevel::SUCCESS => "[SUCCESS] "@,
            LogLevel::WARN => "[WARN] "@,
            LogLevel::ERR => "[ERR] "@,
            LogLevel::EXIT => "[EXIT] "@,
        }
    }
}

/// A log line: the tag of its level, then the message.
pub open spec fn log_text(level: LogLevel, message: Seq<char>) -> Seq<char> {
    level.tag() + message
}

/// Renders one log line.
pub fn log_line(level: LogLevel, message: &str) -> (line: String)
    ensures
        line@ == log_text(level, message@),
{
    let mut line = match level {
        LogLevel::INFO => String::from_str("[INFO] "),
        LogLevel::SUCCESS => String::from_str("[SUCCESS] "),
        LogLevel::WARN => String::from_str("[WARN] "),
        LogLevel::ERR => String::from_str("[ERR] "),
        LogLevel::EXIT => String::from_str("[EXIT] "),
    };
    line.append(message);
    line
}

/// Why a command ended without doing its work. The session goes on after each
/// of these.
#[derive(Clone, Copy, Debug, PartialEq, Eq, Structural)]
pub enum CommandError {
    /// The command word is none of the commands of the session.
    UnknownCommand,
    /// The command lacks an argument that it needs.
    InsufficientArguments,
    /// The first argument of `alias` is none of its actions.
    InvalidAction,
    /// The application id given to `alias set` is no decimal number: it is
    /// empty, or one of its characters is no ASCII digit.
    AppIdNotNumeric,
    /// No alias table is loaded.
    NoConfig,
    /// No alias table is loaded, so there is no alias to show.
    NoAliases,
    /// The alias table has no entry for the name.
    AliasNotFound,
    /// The identifier is no application id and no alias stands for it.
    AppIdNotFound,
    /// The application has no entry in the collection and no alias names it,
    /// so there is no name to file its items under.
    AppNameNotFound,
    /// A token of the selection line selects no item.
    ItemNotFound,
    /// The catalog could not be reached.
    CatalogUnreachable,
    /// The catalog has no application with this id.
    AppNotInCatalog,
    /// A file that a command names could not be read.
    FileNotFound,
    /// A file that `convert` names is of a type that it cannot read.
    UnsupportedFile,
    /// A file that `convert` names holds something that is no item id.
    InvalidItemId,
    /// The downloader could not be started.
    DownloadFailed,
}

impl CommandError {
    /// The class of the error.
    pub open spec fn spec_kind(self) -> ErrorKind {
        match self {
            CommandError::UnknownCommand => ErrorKind::MalformedInput,
            CommandError::InsufficientArguments => ErrorKind::MalformedInput,
            CommandError::InvalidAction => ErrorKind::MalformedInput,
            CommandError::AppIdNotNumeric => ErrorKind::MalformedInput,
            CommandError::NoConfig => ErrorKind::NotFound,
            CommandError::NoAliases => ErrorKind::NotFound,
            CommandError::AliasNotFound => ErrorKind::NotFound,
            CommandError::AppIdNotFound => ErrorKind::NotFound,
            CommandError::AppNameNotFound => ErrorKind::NotFound,
            CommandError::ItemNotFound => ErrorKind::NotFound,
            CommandError::CatalogUnreachable => ErrorKind::CollaboratorFailure,
            CommandError::AppNotInCatalog => ErrorKind::CollaboratorFailure,
            CommandError::FileNotFound => ErrorKind::CollaboratorFailure,
            CommandError::UnsupportedFile => ErrorKind::MalformedInput,
            CommandError::InvalidItemId => ErrorKind::MalformedInput,
            CommandError::DownloadFailed => ErrorKind::CollaboratorFailure,
        }
    }

    /// The class of the error.
    #[verifier::when_used_as_spec(spec_kind)]
    pub fn kind(self) -> (k: ErrorKind)
        ensures
            k == self.spec_kind(),
    {
        match self {
            CommandError::UnknownCommand => ErrorKind::MalformedInput,
            CommandError::InsufficientArguments => ErrorKind::MalformedInput,
            CommandError::InvalidAction => ErrorKind::MalformedInput,
            CommandError::AppIdNotNumeric => ErrorKind::MalformedInput,
            CommandError::NoConfig => ErrorKind::NotFound,
            CommandError::NoAliases => ErrorKind::NotFound,
            CommandError::AliasNotFound => ErrorKind::NotFound,
            CommandError::AppIdNotFound => ErrorKind::NotFound,
            CommandError::AppNameNotFound => ErrorKind::NotFound,
            CommandError::ItemNotFound => ErrorKind::NotFound,
            CommandError::CatalogUnreachable => ErrorKind::CollaboratorFailure,
            CommandError::AppNotInCatalog => ErrorKind::CollaboratorFailure,
            CommandError::FileNotFound => ErrorKind::CollaboratorFailure,
            CommandError::UnsupportedFile => ErrorKind::MalformedInput,
            CommandError::InvalidItemId => ErrorKind::MalformedInput,
            CommandError::DownloadFailed => ErrorKind::CollaboratorFailure,
        }
    }

    /// The level at which the error is logged: a warning where no alias table
    /// is loaded, an error in every other case.
    pub open spec fn spec_level(self) -> LogLevel {
        match self {
            CommandError::NoConfig => LogLevel::WARN,
            CommandError::NoAliases => LogLevel::WARN,
            _ => LogLevel::ERR,
        }
    }

    /// The level at which the error is logged.
    #[verifier::when_used_as_spec(spec_level)]
    pub fn level(self) -> (level: LogLevel)
        ensures
            level == self.spec_level(),
    {
        match self {
            CommandError::NoConfig => LogLevel::WARN,
            CommandError::NoAliases => LogLevel::WARN,
            _ => LogLevel::ERR,
        }
    }

    /// The message of the error about `subject`: the word, name, identifier or
    /// path that the command was given. Messages that name nothing ignore it.
    pub open spec fn message_text(self, subject: Seq<char>) -> Seq<char> {
        match self {
            CommandError::UnknownCommand => "'"@ + subject + "' is not a valid command"@,
            CommandError::InsufficientArguments => "Insufficient arguments"@,
            CommandError::InvalidAction => "'"@ + subject + "' is not a valid command"@,
            CommandError::AppIdNotNumeric => "App id must only contains numbers"@,
            CommandError::NoConfig => "No config found"@,
            CommandError::NoAliases => "No aliases found"@,
            CommandError::AliasNotFound => "No alias found for '"@ + subject + "'"@,
            CommandError::AppIdNotFound => "App id not found for '"@ + subject + "'"@,
            CommandError::AppNameNotFound => "No alias names the app '"@ + subject + "'"@,
            CommandError::ItemNotFound => "Item with an index of '"@ + subject
                + "' does not exist"@,
            CommandError::CatalogUnreachable => "Couldn't access steam workshop at this time"@,
            CommandError::AppNotInCatalog => "An app with an appID of '"@ + subject
                + "' does not exist"@,
            CommandError::FileNotFound => "File with the path '"@ + subject + "' does not exist"@,
            CommandError::UnsupportedFile => "File with type '"@ + subject + "' not supported"@,
            CommandError::InvalidItemId => "'"@ + subject + "' is not an item id"@,
            CommandError::DownloadFailed => "Couldn't download items"@,
        }
    }

    /// The message of the error about `subject`.
    pub fn message(self, subject: &str) -> (out: String)
        ensures
            out@ == self.message_text(subject@),
    {
        match self {
            CommandError::UnknownCommand => quoted("'", subject, "' is not a valid command"),
            CommandError::InsufficientArguments => String::from_str("Insufficient arguments"),
            CommandError::InvalidAction => quoted("'", subject, "' is not a valid command"),
            CommandError::AppIdNotNumeric => String::from_str("App id must only contains numbers"),
            CommandError::NoConfig => String::from_str("No config found"),
            CommandError::NoAliases => String::from_str("No aliases found"),
            CommandError::AliasNotFound => quoted("No alias found for '", subject, "'"),
            CommandError::AppIdNotFound => quoted("App id not found for '", subject, "'"),
            CommandError::AppNameNotFound => quoted("No alias names the app '", subject, "'"),
            CommandError::ItemNotFound => quoted(
                "Item with an index of '",
                subject,
                "' does not exist",
            ),
            CommandError::CatalogUnreachable => String::from_str(
                "Couldn't access steam workshop at this time",
            ),
            CommandError::AppNotInCatalog => quoted(
                "An app with an appID of '",
                subject,
                "' does not exist",
            ),
            CommandError::FileNotFound => quoted(
                "File with the path '",
                subject,
                "' does not exist",
            ),
            CommandError::UnsupportedFile => quoted("File with type '", subject, "' not supported"),
            CommandError::InvalidItemId => quoted("'", subject, "' is not an item id"),
            CommandError::DownloadFailed => String::from_str("Couldn't download items"),
        }
    }

    /// The log line of the error about `subject`.
    pub fn line(self, subject: &str) -> (out: String)
        ensures
            out@ == log_text(self.level(), self.message_text(subject@)),
    {
        let message = self.message(subject);
        log_line(self.level(), message.as_str())
    }
}

/// The log line of the error `e` about `subject`.
pub open spec fn error_text(e: CommandError, subject: Seq<char>) -> Seq<char> {
    log_text(e.level(), e.message_text(subject))
}

/// A list of one line.
pub fn one_line(line: String) -> (lines: Vec<String>)
    ensures
        texts(lines@) == seq![line@],
{
    let mut lines: Vec<String> = Vec::new();
    lines.push(line);
    lines
}

/// `before`, `subject` and `after`, one after the other.
pub fn quoted(before: &str, subject: &str, after: &str) -> (out: String)
    ensures
        out@ == before@ + subject@ + after@,
{
    let mut out = String::from_str(before);
    out.append(subject);
    out.append(after);
    out
}

/// Joining the words of a text with underscores, twice, gives what it gives once.
pub proof fn lemma_rejoin_is_stable(text: Seq<char>)
    ensures
        rejoined(rejoined(text)) == rejoined(text),
{
    let keep = |f: Seq<char>| f.len() > 0;
    let sep = seq!['_'];
    let pieces = fields(text, Separator::Whitespace);
    let w = words(text);
    let joined = join(w, sep);
    broadcast use vstd::seq_lib::group_filter_ensures;
    lemma_fields_are_unbroken(text, Separator::Whitespace);
    assert forall|k: int, i: int| 0 <= k < w.len() && 0 <= i < w[k].len() implies !is_whitespace(
        #[trigger] w[k][i],
    ) by {
        assert(w.contains(w[k]));
        pieces.lemma_filter_contains_rev(keep, w[k]);
        let at = choose|at: int| 0 <= at < pieces.len() && pieces[at] == w[k];
        assert(!Separator::Whitespace.matches(pieces[at][i]));
    }
    lemma_join_is_unbroken(w, sep);
    assert forall|i: int| 0 <= i < joined.len() implies !Separator::Whitespace.matches(
        #[trigger] joined[i],
    ) by {}
    lemma_fields_of_unbroken(joined, Separator::Whitespace);
    assert(Seq::<Seq<char>>::empty().push(joined) == seq![joined]);
    Seq::<Seq<char>>::empty().lemma_filter_push(joined, keep);
    assert(Seq::<Seq<char>>::empty().filter(keep) == Seq::<Seq<char>>::empty()) by {
        reveal(Seq::filter);
    }
    if w.len() == 0 {
        assert(joined.len() == 0);
        assert(words(joined) == Seq::<Seq<char>>::empty());
    } else {
        assert(keep(w.last()));
        assert(joined.len() > 0);
        assert(words(joined) == seq![joined]);
    }
}

/// A normal form that lowercasing leaves as it is, is its own normal form:
/// normalising such a name twice gives what normalising it once gives.
pub proof fn lemma_lowercase_normal_form_is_fixed(text: Seq<char>)
    requires
        lowercase_of(underscorized(text)) == underscorized(text),
    ensures
        underscorized(underscorized(text)) == underscorized(text),
{
    lemma_rejoin_is_stable(lowercase_of(text));
}

} // verus!
