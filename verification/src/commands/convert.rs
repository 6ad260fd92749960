//! The `convert` command: reads a list of item ids from a text file.
//!
//! The file is read by the caller: `run` names it, and `convert` takes its
//! text.
use vstd::prelude::*;
use crate::cli::InputParser;
use crate::commands::command::Command;
use crate::manager::Config;
use crate::text::{
    fields, lemma_fields_nonempty, optional_text, parse_unsigned, same_text, split_fields, texts,
    unsigned_value, Separator,
};
use crate::utils::CommandError;

verus! {

/// The type of a file: what follows the last full stop of its path, or the
/// whole path where it has none.
pub open spec fn file_type(path: Seq<char>) -> Seq<char> {
    fields(path, Separator::Dot).last()
}

/// The index of the first of `pieces` that is no item id, if there is one.
pub open spec fn first_invalid(pieces: Seq<Seq<char>>) -> Option<int>
    decreases pieces.len(),
{
    if pieces.len() == 0 {
        None
    } else {
        match first_invalid(pieces.drop_last()) {
            Some(i) => Some(i),
            None => if unsigned_value(pieces.last()) is None {
                Some(pieces.len() - 1)
            } else {
                None
            },
        }
    }
}

/// The item ids that `pieces` denote, one for each.
pub open spec fn item_ids_of(pieces: Seq<Seq<char>>) -> Seq<usize> {
    Seq::new(pieces.len(), |i: int| unsigned_value(pieces[i])->0)
}

/// What `convert` makes of the text of the file that its second argument
/// names: the application that its first argument gives and the item ids of
/// the text, which are separated by commas; or the error that the file could
/// not be read, is no `txt` file, or holds something that is no item id.
pub open spec fn converted(args: Seq<Seq<char>>, contents: Option<Seq<char>>) -> Result<
    (Seq<char>, Seq<usize>),
    CommandError,
> {
    if args.len() < 2 {
        Err(CommandError::InsufficientArguments)
    } else {
        match contents {
            None => Err(CommandError::FileNotFound),
            Some(text) => if file_type(args[1]) != "txt"@ {
                Err(CommandError::UnsupportedFile)
            } else if first_invalid(fields(text, Separator::Comma)) is Some {
                Err(CommandError::InvalidItemId)
            } else {
                Ok((args[0], item_ids_of(fields(text, Separator::Comma))))
            },
        }
    }
}

/// The `convert` command.
pub struct ConvertCommand<'a> {
    pub data: InputParser,
    pub config: &'a mut Config,
}

impl<'a> Command<'a, Result<String, CommandError>> for ConvertCommand<'a> {
    /// `convert` needs an application and a path.
    open spec fn has_arguments(&self) -> bool {
        self.data.args@.len() >= 2
    }

    fn new(config: &'a mut Config, data: InputParser) -> (command: Self)
        ensures
            command.data == data,
            *command.config == *old(config),
            *final(command.config) == *final(config),
    {
        ConvertCommand { data, config }
    }

    /// The path of the file to read, which is the second argument. Nothing is
    /// changed.
    fn run(&mut self) -> (r: Result<String, CommandError>)
        ensures
            final(self).data == old(self).data,
            *final(self).config == *old(self).config,
            *final(final(self).config) == *final(old(self).config),
            match r {
                Ok(path) => old(self).data@.args.len() >= 2 && path@ == old(self).data@.args[1],
                Err(e) => old(self).data@.args.len() < 2 && e
                    == CommandError::InsufficientArguments,
            },
    {
        if let Err(e) = self.validate() {
            return Err(e);
        }
        Ok(self.data.args[1].clone())
    }

    fn validate(&self) -> (r: Result<(), CommandError>) {
        if self.data.args.len() < 2 {
            Err(CommandError::InsufficientArguments)
        } else {
            Ok(())
        }
    }
}

impl<'a> ConvertCommand<'a> {
    /// Takes the text of the file, or `None` where it could not be read: see
    /// [`converted`].
    pub fn convert(&self, contents: Option<String>) -> (r: Result<
        (String, Vec<usize>),
        CommandError,
    >)
        ensures
            match converted(self.data@.args, optional_text(contents)) {
                Ok((app, ids)) => r matches Ok((for_app, item_ids)) && for_app@ == app && item_ids@
                    == ids,
                Err(e) => r matches Err(found) && found == e,
            },
    {
        if self.data.args.len() < 2 {
            return Err(CommandError::InsufficientArguments);
        }
        let ghost given = optional_text(contents);
        let text = match contents {
            Some(text) => text,
            None => {
                return Err(CommandError::FileNotFound);
            },
        };
        let parts = split_fields(self.data.args[1].as_str(), Separator::Dot);
        proof {
            lemma_fields_nonempty(self.data@.args[1], Separator::Dot);
        }
        if !same_text(parts[parts.len() - 1].as_str(), "txt") {
            return Err(CommandError::UnsupportedFile);
        }
        let pieces = split_fields(text.as_str(), Separator::Comma);
        let ghost all = texts(pieces@);
        let mut ids: Vec<usize> = Vec::new();
        let mut i: usize = 0;
        while i < pieces.len()
            invariant
                i <= pieces.len(),
                all == texts(pieces@),
                all == fields(text@, Separator::Comma),
                given == Some(text@),
                given == optional_text(contents),
                self.data@.args.len() >= 2,
                file_type(self.data@.args[1]) == "txt"@,
                first_invalid(all.take(i as int)) is None,
                ids@ == item_ids_of(all.take(i as int)),
            decreases pieces.len() - i,
        {
            proof {
                let next = all.take(i + 1);
                assert(next.drop_last() == all.take(i as int));
            }
            match parse_unsigned(pieces[i].as_str()) {
                Some(id) => {
                    ids.push(id);
                },
                None => {
                    proof {
                        lemma_first_invalid_stays(all, i + 1);
                    }
                    return Err(CommandError::InvalidItemId);
                },
            }
            i += 1;
        }
        assert(all.take(all.len() as int) == all);
        Ok((self.data.args[0].clone(), ids))
    }
}

/// A piece that is no item id among the first `n` is one among all.
pub proof fn lemma_first_invalid_stays(pieces: Seq<Seq<char>>, n: int)
    requires
        0 <= n <= pieces.len(),
        first_invalid(pieces.take(n)) is Some,
    ensures
        first_invalid(pieces) is Some,
    decreases pieces.len() - n,
{
    if n < pieces.len() {
        assert(pieces.take(n + 1).drop_last() == pieces.take(n));
        lemma_first_invalid_stays(pieces, n + 1);
    } else {
        assert(pieces.take(n) == pieces);
    }
}

} // verus!
