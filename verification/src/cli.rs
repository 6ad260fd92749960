//! The tokenizer: one line of input becomes a command word, its positional
//! arguments and its `--key value` options.
use vstd::prelude::*;
use crate::keyed::{distinct, find_key, first_index, keys_of, lemma_first_index, lookup, pair_texts};
use crate::text::{
    fields, has_option_marker, lemma_fields_nonempty, split_fields, starts_with_marker, texts,
    Separator,
};
use crate::utils::ErrorKind;

verus! {

/// Why a line is no command. Each of these is malformed input.
#[derive(Clone, Copy, Debug, PartialEq, Eq, Structural)]
pub enum ParseError {
    /// The line holds no character.
    EmptyLine,
    /// The first token starts with the option marker.
    CommandIsOption,
    /// The last option key has no value after it.
    DanglingOption,
    /// The value of an option starts with the option marker.
    ValueIsOption,
    /// Two options have the same key.
    DuplicateOption,
}

impl ParseError {
    /// The class of the error: always malformed input.
    pub open spec fn spec_kind(self) -> ErrorKind {
        ErrorKind::MalformedInput
    }

    /// The class of the error.
    #[verifier::when_used_as_spec(spec_kind)]
    pub fn kind(self) -> (k: ErrorKind)
        ensures
            k == self.spec_kind(),
    {
        ErrorKind::MalformedInput
    }
}

impl ParseError {
    /// The message that tells the user what is wrong with the line.
    pub open spec fn message_text(self) -> Seq<char> {
        match self {
            ParseError::EmptyLine => "No command given"@,
            ParseError::CommandIsOption => "First argument must be a command"@,
            ParseError::DanglingOption => "Every option needs an argument"@,
            ParseError::ValueIsOption => "Argument for an option cannot be an option"@,
            ParseError::DuplicateOption => "Every option can be given only once"@,
        }
    }

    /// The message that tells the user what is wrong with the line.
    pub fn message(self) -> (out: String)
        ensures
            out@ == self.message_text(),
    {
        match self {
            ParseError::EmptyLine => String::from_str("No command given"),
            ParseError::CommandIsOption => String::from_str("First argument must be a command"),
            ParseError::DanglingOption => String::from_str("Every option needs an argument"),
            ParseError::ValueIsOption => String::from_str(
                "Argument for an option cannot be an option",
            ),
            ParseError::DuplicateOption => String::from_str("Every option can be given only once"),
        }
    }
}

/// What a parsed line holds, as texts.
#[verifier::ext_equal]
pub struct ParsedCommand {
    /// The command word.
    pub command: Seq<char>,
    /// The positional arguments, in the order of the line.
    pub args: Seq<Seq<char>>,
    /// The options, key and value, in the order of the line.
    pub options: Seq<(Seq<char>, Seq<char>)>,
}

impl ParsedCommand {
    /// What the tokenizer guarantees of its result: the command word is no
    /// option, no option value is one, and no key occurs twice.
    pub open spec fn well_formed(self) -> bool {
        &&& !has_option_marker(self.command)
        &&& forall|k: int|
            0 <= k < self.options.len() ==> !has_option_marker(#[trigger] self.options[k].1)
        &&& distinct(keys_of(self.options))
    }

    /// The value of the option `key`, if the line has it.
    pub open spec fn option(self, key: Seq<char>) -> Option<Seq<char>> {
        lookup(self.options, key)
    }
}

/// The index of the first token after the command word that starts with the
/// option marker, searching from `from`; the number of tokens if there is none.
pub open spec fn option_boundary_from(tokens: Seq<Seq<char>>, from: int) -> int
    decreases tokens.len() - from,
{
    if from >= tokens.len() {
        tokens.len() as int
    } else if has_option_marker(tokens[from]) {
        from
    } else {
        option_boundary_from(tokens, from + 1)
    }
}

/// Where the option region of a line begins: see [`option_boundary_from`].
pub open spec fn option_boundary(tokens: Seq<Seq<char>>) -> int {
    option_boundary_from(tokens, 1)
}

/// The tokens of the option region taken two by two: key, then value.
pub open spec fn option_pairs(rest: Seq<Seq<char>>) -> Seq<(Seq<char>, Seq<char>)> {
    Seq::new(rest.len() / 2, |k: int| (rest[2 * k], rest[2 * k + 1]))
}

/// The meaning of a line. The tokens are the pieces between single spaces. The
/// first is the command word. Those that follow, up to the first that starts
/// with the option marker, are the arguments. The rest are options.
pub open spec fn parse_line(line: Seq<char>) -> Result<ParsedCommand, ParseError> {
    let tokens = fields(line, Separator::Space);
    let boundary = option_boundary(tokens);
    let rest = tokens.skip(boundary);
    let options = option_pairs(rest);
    if line.len() == 0 {
        Err(ParseError::EmptyLine)
    } else if has_option_marker(tokens[0]) {
        Err(ParseError::CommandIsOption)
    } else if rest.len() % 2 == 1 {
        Err(ParseError::DanglingOption)
    } else if exists|k: int| 0 <= k < options.len() && has_option_marker(#[trigger] options[k].1) {
        Err(ParseError::ValueIsOption)
    } else if !distinct(keys_of(options)) {
        Err(ParseError::DuplicateOption)
    } else {
        Ok(ParsedCommand { command: tokens[0], args: tokens.subrange(1, boundary), options })
    }
}

/// A parsed line of input.
#[derive(Debug, PartialEq, Eq)]
pub struct InputParser {
    /// The command word.
    pub command: String,
    /// The positional arguments.
    pub args: Vec<String>,
    /// The options, key and value, in the order of the line.
    pub options: Vec<(String, String)>,
}

impl View for InputParser {
    type V = ParsedCommand;

    open spec fn view(&self) -> ParsedCommand {
        ParsedCommand {
            command: self.command@,
            args: texts(self.args@),
            options: pair_texts(self.options@),
        }
    }
}

/// The result of the tokenizer with the parsed line replaced by its view.
pub open spec fn parsed_view(r: Result<InputParser, ParseError>) -> Result<
    ParsedCommand,
    ParseError,
> {
    match r {
        Ok(p) => Ok(p@),
        Err(e) => Err(e),
    }
}

/// The option boundary lies after the command word and within the tokens, and
/// no argument before it starts with the option marker.
pub proof fn lemma_option_boundary(tokens: Seq<Seq<char>>, from: int)
    requires
        1 <= from <= tokens.len(),
    ensures
        from <= option_boundary_from(tokens, from) <= tokens.len(),
        forall|i: int|
            from <= i < option_boundary_from(tokens, from) ==> !has_option_marker(
                #[trigger] tokens[i],
            ),
        option_boundary_from(tokens, from) < tokens.len() ==> has_option_marker(
            tokens[option_boundary_from(tokens, from)],
        ),
    decreases tokens.len() - from,
{
    if from < tokens.len() && !has_option_marker(tokens[from]) {
        lemma_option_boundary(tokens, from + 1);
    }
}

impl InputParser {
    /// Parses one line of input.
    pub fn new(input: &str) -> (r: Result<InputParser, ParseError>)
        ensures
            parsed_view(r) == parse_line(input@),
    {
        if input.is_empty() {
            return Err(ParseError::EmptyLine);
        }
        let tokens = split_fields(input, Separator::Space);
        let ghost all = texts(tokens@);
        proof {
            lemma_fields_nonempty(input@, Separator::Space);
        }
        if starts_with_marker(tokens[0].as_str()) {
            return Err(ParseError::CommandIsOption);
        }
        let mut offset: usize = 1;
        while offset < tokens.len() && !starts_with_marker(tokens[offset].as_str())
            invariant
                1 <= offset <= tokens.len(),
                all == texts(tokens@),
                option_boundary(all) == option_boundary_from(all, offset as int),
            decreases tokens.len() - offset,
        {
            offset += 1;
        }
        let ghost rest = all.skip(offset as int);
        let ghost wanted = option_pairs(rest);
        let count: usize = (tokens.len() - offset) / 2;
        if (tokens.len() - offset) % 2 == 1 {
            return Err(ParseError::DanglingOption);
        }
        let mut k: usize = 0;
        while k < count
            invariant
                k <= count,
                count == wanted.len(),
                offset + 2 * count == tokens.len(),
                all == texts(tokens@),
                rest == all.skip(offset as int),
                wanted == option_pairs(rest),
                input@.len() > 0,
                all == fields(input@, Separator::Space),
                !has_option_marker(all[0]),
                option_boundary(all) == offset,
                forall|j: int| 0 <= j < k ==> !has_option_marker(#[trigger] wanted[j].1),
            decreases count - k,
        {
            assert(wanted[k as int].1 == tokens@[offset + 2 * k + 1]@);
            if starts_with_marker(tokens[offset + 2 * k + 1].as_str()) {
                return Err(ParseError::ValueIsOption);
            }
            k += 1;
        }
        let mut options: Vec<(String, String)> = Vec::new();
        k = 0;
        while k < count
            invariant
                k <= count,
                count == wanted.len(),
                offset + 2 * count == tokens.len(),
                all == texts(tokens@),
                rest == all.skip(offset as int),
                wanted == option_pairs(rest),
                input@.len() > 0,
                all == fields(input@, Separator::Space),
                !has_option_marker(all[0]),
                option_boundary(all) == offset,
                forall|j: int| 0 <= j < count ==> !has_option_marker(#[trigger] wanted[j].1),
                pair_texts(options@) == wanted.take(k as int),
                distinct(keys_of(wanted.take(k as int))),
            decreases count - k,
        {
            let key = tokens[offset + 2 * k].clone();
            let value = tokens[offset + 2 * k + 1].clone();
            let ghost seen = keys_of(wanted.take(k as int));
            let found = find_key(&options, key.as_str());
            proof {
                lemma_first_index(seen, key@);
            }
            if found.is_some() {
                proof {
                    let i = first_index(seen, key@).unwrap();
                    assert(keys_of(wanted)[i] == seen[i]);
                    assert(keys_of(wanted)[k as int] == key@);
                }
                return Err(ParseError::DuplicateOption);
            }
            options.push((key, value));
            proof {
                let grown = keys_of(wanted.take(k + 1));
                assert forall|i: int, j: int| 0 <= i < j < grown.len() implies grown[i]
                    != grown[j] by {
                    assert(grown[i] == seen[i]);
                    if j < k {
                        assert(grown[j] == seen[j]);
                    }
                }
            }
            k += 1;
        }
        assert(wanted.take(count as int) == wanted);
        let mut args: Vec<String> = Vec::new();
        let mut i: usize = 1;
        while i < offset
            invariant
                1 <= i <= offset <= tokens.len(),
                all == texts(tokens@),
                texts(args@) == all.subrange(1, i as int),
            decreases offset - i,
        {
            args.push(tokens[i].clone());
            assert(all.subrange(1, i + 1) == all.subrange(1, i as int).push(all[i as int]));
            i += 1;
        }
        let command = tokens[0].clone();
        Ok(InputParser { command, args, options })
    }

    /// The value of the option `key`, if the line has it.
    pub fn option(&self, key: &str) -> (r: Option<String>)
        ensures
            match r {
                Some(value) => self@.option(key@) == Some(value@),
                None => self@.option(key@) is None,
            },
    {
        match find_key(&self.options, key) {
            Some(i) => {
                proof {
                    lemma_first_index(keys_of(pair_texts(self.options@)), key@);
                }
                Some(self.options[i].1.clone())
            },
            None => None,
        }
    }
}

/// A line in which no token starts with the option marker parses: its
/// arguments are all the tokens after the first, and it has no options.
pub proof fn lemma_line_without_options(line: Seq<char>)
    requires
        line.len() > 0,
        forall|i: int|
            0 <= i < fields(line, Separator::Space).len() ==> !has_option_marker(
                #[trigger] fields(line, Separator::Space)[i],
            ),
    ensures
        parse_line(line) == Ok::<ParsedCommand, ParseError>(
            ParsedCommand {
                command: fields(line, Separator::Space)[0],
                args: fields(line, Separator::Space).skip(1),
                options: Seq::empty(),
            },
        ),
{
    let tokens = fields(line, Separator::Space);
    lemma_fields_nonempty(line, Separator::Space);
    lemma_option_boundary(tokens, 1);
    let boundary = option_boundary(tokens);
    assert(boundary == tokens.len());
    assert(option_pairs(tokens.skip(boundary)) == Seq::<(Seq<char>, Seq<char>)>::empty());
    assert(tokens.subrange(1, boundary) == tokens.skip(1));
}

/// A line whose first token starts with the option marker is rejected as
/// malformed input.
pub proof fn lemma_leading_option_is_rejected(line: Seq<char>)
    requires
        has_option_marker(fields(line, Separator::Space)[0]),
    ensures
        parse_line(line) == Err::<ParsedCommand, ParseError>(ParseError::CommandIsOption),
        ParseError::CommandIsOption.kind() == ErrorKind::MalformedInput,
{
    if line.len() == 0 {
        assert(fields(line, Separator::Space)[0].len() == 0);
    }
}

/// Whatever the tokenizer accepts is well formed.
pub proof fn lemma_parsed_is_well_formed(line: Seq<char>)
    ensures
        parse_line(line) matches Ok(parsed) ==> parsed.well_formed(),
{
}

} // verus!
