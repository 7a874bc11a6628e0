//! The command grammar: one line of client input becomes either a
//! typed [`Command`] or a recoverable [`BadCommandError`].
//!
//! A line is split on whitespace; the first token picks the variant,
//! the remaining tokens are its arguments, and each variant checks its
//! own argument count before it is constructed.  The whole grammar is
//! captured by the spec function [`parse_line`], and [`Command::parse`]
//! is proved to agree with it on every input.

use vstd::prelude::*;

use crate::text::{
    dec_rep, join_strings, join_with, tokenize, tokens_of, u64_to_string,
};

verus! {

/// A fully validated command, one variant per verb.
#[derive(Debug, Eq, PartialEq)]
pub enum Command {
    Echo(Echo),
    Ls(Ls),
    Cd(Cd),
    Cat(Cat),
    Exit(Exit),
    Pwd(Pwd),
    Help(Help),
}

#[derive(Debug, Eq, PartialEq)]
pub struct Echo {
    pub message: String,
}

#[derive(Debug, Eq, PartialEq)]
pub struct Ls {
    pub target_directory: Option<String>,
}

#[derive(Debug, Eq, PartialEq)]
pub struct Cd {
    pub target_directory: String,
}

#[derive(Debug, Eq, PartialEq)]
pub struct Cat {
    pub file: String,
}

#[derive(Debug, Eq, PartialEq)]
pub struct Exit {}

#[derive(Debug, Eq, PartialEq)]
pub struct Pwd {}

#[derive(Debug, Eq, PartialEq)]
pub struct Help {}

/// The mathematical shape of a command: each text field as its
/// sequence of characters.
#[allow(inconsistent_fields)]
pub enum CommandModel {
    Echo { message: Seq<char> },
    Ls { target_directory: Option<Seq<char>> },
    Cd { target_directory: Seq<char> },
    Cat { file: Seq<char> },
    Exit,
    Pwd,
    Help,
}

impl View for Command {
    type V = CommandModel;

    open spec fn view(&self) -> CommandModel {
        match self {
            Command::Echo(c) => CommandModel::Echo { message: c.message@ },
            Command::Ls(c) => CommandModel::Ls {
                target_directory: match c.target_directory {
                    Some(d) => Some(d@),
                    None => None,
                },
            },
            Command::Cd(c) => CommandModel::Cd { target_directory: c.target_directory@ },
            Command::Cat(c) => CommandModel::Cat { file: c.file@ },
            Command::Exit(_) => CommandModel::Exit,
            Command::Pwd(_) => CommandModel::Pwd,
            Command::Help(_) => CommandModel::Help,
        }
    }
}

impl Echo {
    pub fn new(message: String) -> (r: Self)
        ensures
            r.message == message,
    {
        Echo { message }
    }

    fn expected_arguments() -> (r: ExpectedArguments)
        ensures
            r == ExpectedArguments::Any,
    {
        ExpectedArguments::Any
    }
}

impl Ls {
    pub fn new(target_directory: Option<String>) -> (r: Self)
        ensures
            r.target_directory == target_directory,
    {
        Ls { target_directory }
    }

    fn expected_arguments() -> (r: ExpectedArguments)
        ensures
            r == ExpectedArguments::Maybe(1),
    {
        ExpectedArguments::Maybe(1)
    }
}

impl Cd {
    pub fn new(target_directory: String) -> (r: Self)
        ensures
            r.target_directory == target_directory,
    {
        Cd { target_directory }
    }

    fn expected_arguments() -> (r: ExpectedArguments)
        ensures
            r == ExpectedArguments::Exactly(1),
    {
        ExpectedArguments::Exactly(1)
    }
}

impl Cat {
    pub fn new(file: String) -> (r: Self)
        ensures
            r.file == file,
    {
        Cat { file }
    }

    fn expected_arguments() -> (r: ExpectedArguments)
        ensures
            r == ExpectedArguments::Exactly(1),
    {
        ExpectedArguments::Exactly(1)
    }
}

impl Exit {
    pub fn new() -> Self {
        Exit {  }
    }

    fn expected_arguments() -> (r: ExpectedArguments)
        ensures
            r == ExpectedArguments::Zero,
    {
        ExpectedArguments::Zero
    }
}

impl Pwd {
    pub fn new() -> Self {
        Pwd {  }
    }

    fn expected_arguments() -> (r: ExpectedArguments)
        ensures
            r == ExpectedArguments::Zero,
    {
        ExpectedArguments::Zero
    }
}

impl Help {
    pub fn new() -> Self {
        Help {  }
    }

    fn expected_arguments() -> (r: ExpectedArguments)
        ensures
            r == ExpectedArguments::Zero,
    {
        ExpectedArguments::Zero
    }
}

/// How many arguments a variant accepts.
#[derive(Clone, Copy)]
pub enum ExpectedArguments {
    Zero,
    Exactly(usize),
    Any,
    Maybe(usize),
}

/// A recoverable parse failure, reported to the client as one
/// response line; the session goes on.
#[derive(Debug, PartialEq, Eq)]
pub struct BadCommandError {
    pub msg: String,
}

impl View for BadCommandError {
    type V = Seq<char>;

    open spec fn view(&self) -> Seq<char> {
        self.msg@
    }
}

/// The message for a variant that takes exactly `expected` arguments.
pub open spec fn wrong_arg_number_msg(expected: nat, got: nat) -> Seq<char> {
    "Expected "@ + dec_rep(expected) + " arguments, but received "@ + dec_rep(got)
}

/// The message for a variant that takes `expected` or zero arguments.
pub open spec fn wrong_maybe_arg_number_msg(expected: nat, got: nat) -> Seq<char> {
    "Expected "@ + dec_rep(expected) + " or 0 arguments, but received "@ + dec_rep(got)
}

/// The message for an empty line.
pub open spec fn missing_command_msg() -> Seq<char> {
    "Missing command"@
}

/// The message for a first token that is no verb.
pub open spec fn unknown_command_msg(cmd: Seq<char>) -> Seq<char> {
    "Unknown command "@ + cmd
}

impl BadCommandError {
    pub fn from_string(msg: String) -> (r: Self)
        ensures
            r.msg == msg,
    {
        BadCommandError { msg }
    }

    pub fn from_str(msg: &str) -> (r: Self)
        ensures
            r.msg@ == msg@,
    {
        BadCommandError::from_string(String::from_str(msg))
    }

    pub fn wrong_arg_number(expected: usize, got: usize) -> (r: Self)
        ensures
            r.msg@ == wrong_arg_number_msg(expected as nat, got as nat),
    {
        let s = String::from_str("Expected ").concat(u64_to_string(expected as u64).as_str())
            .concat(" arguments, but received ").concat(u64_to_string(got as u64).as_str());
        BadCommandError::from_string(s)
    }

    pub fn wrong_maybe_arg_number(expected: usize, got: usize) -> (r: Self)
        ensures
            r.msg@ == wrong_maybe_arg_number_msg(expected as nat, got as nat),
    {
        let s = String::from_str("Expected ").concat(u64_to_string(expected as u64).as_str())
            .concat(" or 0 arguments, but received ").concat(u64_to_string(got as u64).as_str());
        BadCommandError::from_string(s)
    }
}

/// Checks an argument list against a variant's arity rule: the list
/// passes through unchanged when the count fits, and the rule's error
/// message comes back when it does not.
pub fn parse_arguments(args: Vec<String>, expected_arguments: ExpectedArguments) -> (r: Result<
    Vec<String>,
    BadCommandError,
>)
    ensures
        match expected_arguments {
            ExpectedArguments::Zero => if args@.len() == 0 {
                r matches Ok(v) && v@.len() == 0
            } else {
                r matches Err(e) && e@ == wrong_arg_number_msg(0, args@.len())
            },
            ExpectedArguments::Any => r matches Ok(v) && v == args,
            ExpectedArguments::Exactly(n) => if args@.len() == n {
                r matches Ok(v) && v == args
            } else {
                r matches Err(e) && e@ == wrong_arg_number_msg(n as nat, args@.len())
            },
            ExpectedArguments::Maybe(n) => if args@.len() == 0 || args@.len() == n {
                r matches Ok(v) && v == args
            } else {
                r matches Err(e) && e@ == wrong_maybe_arg_number_msg(n as nat, args@.len())
            },
        },
{
    match expected_arguments {
        ExpectedArguments::Zero => {
            if args.len() == 0 {
                Ok(Vec::new())
            } else {
                Err(BadCommandError::wrong_arg_number(0, args.len()))
            }
        },
        ExpectedArguments::Any => Ok(args),
        ExpectedArguments::Exactly(n) => {
            if args.len() == n {
                Ok(args)
            } else {
                Err(BadCommandError::wrong_arg_number(n, args.len()))
            }
        },
        ExpectedArguments::Maybe(n) => {
            if args.is_empty() || args.len() == n {
                Ok(args)
            } else {
                Err(BadCommandError::wrong_maybe_arg_number(n, args.len()))
            }
        },
    }
}

/// What parsing one line yields: the command's model, or the exact
/// text of the error line sent back.
pub open spec fn parse_line(s: Seq<char>) -> Result<CommandModel, Seq<char>> {
    let toks = tokens_of(s);
    if toks.len() == 0 {
        Err(missing_command_msg())
    } else {
        let cmd = toks[0];
        let args = toks.drop_first();
        if cmd == "echo"@ {
            Ok(CommandModel::Echo { message: join_with(args, " "@) })
        } else if cmd == "ls"@ {
            if args.len() == 0 {
                Ok(CommandModel::Ls { target_directory: None })
            } else if args.len() == 1 {
                Ok(CommandModel::Ls { target_directory: Some(args[0]) })
            } else {
                Err(wrong_maybe_arg_number_msg(1, args.len()))
            }
        } else if cmd == "cd"@ {
            if args.len() == 1 {
                Ok(CommandModel::Cd { target_directory: args[0] })
            } else {
                Err(wrong_arg_number_msg(1, args.len()))
            }
        } else if cmd == "cat"@ {
            if args.len() == 1 {
                Ok(CommandModel::Cat { file: args[0] })
            } else {
                Err(wrong_arg_number_msg(1, args.len()))
            }
        } else if cmd == "exit"@ {
            if args.len() == 0 {
                Ok(CommandModel::Exit)
            } else {
                Err(wrong_arg_number_msg(0, args.len()))
            }
        } else if cmd == "pwd"@ {
            if args.len() == 0 {
                Ok(CommandModel::Pwd)
            } else {
                Err(wrong_arg_number_msg(0, args.len()))
            }
        } else if cmd == "help"@ {
            if args.len() == 0 {
                Ok(CommandModel::Help)
            } else {
                Err(wrong_arg_number_msg(0, args.len()))
            }
        } else {
            Err(unknown_command_msg(cmd))
        }
    }
}

/// A line whose first word is longer than any verb parses to an
/// error: every verb has at most four characters.
proof fn lemma_long_head_is_no_verb(m: Seq<char>, j: int)
    requires
        4 < j <= m.len(),
        forall|k: int| 0 <= k < j ==> !crate::text::is_space(m[k]),
        j == m.len() || crate::text::is_space(m[j]),
    ensures
        parse_line(m) is Err,
{
    crate::text::lemma_tokens_step(m, 0, j);
    assert(m.skip(0) =~= m);
    let toks = tokens_of(m);
    assert(toks[0] == m.subrange(0, j));
    assert(toks[0].len() == j);
    reveal_strlit("echo");
    reveal_strlit("ls");
    reveal_strlit("cd");
    reveal_strlit("cat");
    reveal_strlit("exit");
    reveal_strlit("pwd");
    reveal_strlit("help");
    assert(toks[0] != "echo"@ && toks[0] != "ls"@ && toks[0] != "cd"@ && toks[0] != "cat"@
        && toks[0] != "exit"@ && toks[0] != "pwd"@ && toks[0] != "help"@);
}

/// Whatever line failed to parse, the error line it produced does
/// not itself parse as a command: the error and command domains do
/// not round-trip.  Every error message opens with a word —
/// `Missing`, `Unknown` or `Expected` — that is no verb.
pub proof fn lemma_error_message_reparses_as_error(s: Seq<char>)
    ensures
        parse_line(s) matches Err(msg) ==> parse_line(msg) is Err,
{
    if parse_line(s) is Err {
        let msg = parse_line(s)->Err_0;
        let toks = tokens_of(s);
        if toks.len() == 0 {
            reveal_strlit("Missing command");
            assert(forall|k: int| 0 <= k < 7 ==> !crate::text::is_space(msg[k]));
            assert(crate::text::is_space(msg[7]));
            lemma_long_head_is_no_verb(msg, 7);
        } else {
            let cmd = toks[0];
            let args = toks.drop_first();
            if cmd == "echo"@ || cmd == "ls"@ || cmd == "cd"@ || cmd == "cat"@ || cmd == "exit"@
                || cmd == "pwd"@ || cmd == "help"@ {
                lemma_arity_message(0, args.len());
                lemma_arity_message(1, args.len());
            } else {
                reveal_strlit("Unknown command ");
                assert(msg == unknown_command_msg(cmd));
                assert(forall|k: int| 0 <= k < 16 ==> msg[k] == "Unknown command "@[k]);
                assert(forall|k: int| 0 <= k < 7 ==> !crate::text::is_space(msg[k]));
                assert(crate::text::is_space(msg[7]));
                lemma_long_head_is_no_verb(msg, 7);
            }
        }
    }
}

/// An arity message opens with the word `Expected`, which is no verb.
proof fn lemma_arity_message(e: nat, g: nat)
    ensures
        parse_line(wrong_arg_number_msg(e, g)) is Err,
        parse_line(wrong_maybe_arg_number_msg(e, g)) is Err,
{
    reveal_strlit("Expected ");
    assert("Expected "@.len() == 9);
    let m1 = wrong_arg_number_msg(e, g);
    assert(forall|k: int| 0 <= k < 9 ==> m1[k] == "Expected "@[k]);
    assert(forall|k: int| 0 <= k < 8 ==> !crate::text::is_space(m1[k]));
    assert(crate::text::is_space(m1[8]));
    lemma_long_head_is_no_verb(m1, 8);
    let m2 = wrong_maybe_arg_number_msg(e, g);
    assert(forall|k: int| 0 <= k < 9 ==> m2[k] == "Expected "@[k]);
    assert(forall|k: int| 0 <= k < 8 ==> !crate::text::is_space(m2[k]));
    assert(crate::text::is_space(m2[8]));
    lemma_long_head_is_no_verb(m2, 8);
}

/// The tokens after the verb, cloned out of the token list.
fn rest_arguments(tokens: &Vec<String>) -> (r: Vec<String>)
    requires
        tokens@.len() >= 1,
    ensures
        r.deep_view() == tokens.deep_view().drop_first(),
{
    let mut args: Vec<String> = Vec::new();
    let mut k: usize = 1;
    while k < tokens.len()
        invariant
            1 <= k <= tokens@.len(),
            args.deep_view() =~= tokens.deep_view().subrange(1, k as int),
        decreases tokens@.len() - k,
    {
        let ghost before = args.deep_view();
        args.push(tokens[k].clone());
        proof {
            assert(args.deep_view() =~= before.push(tokens.deep_view()[k as int]));
            assert(args.deep_view() =~= tokens.deep_view().subrange(1, k + 1));
        }
        k = k + 1;
    }
    proof {
        assert(tokens.deep_view().subrange(1, tokens.deep_view().len() as int)
            =~= tokens.deep_view().drop_first());
    }
    args
}

impl Command {
    /// Parses one line, exactly as [`parse_line`] says.
    pub fn parse(command_string: &str) -> (r: Result<Self, BadCommandError>)
        ensures
            parse_line(command_string@) matches Ok(m) ==> r matches Ok(c) && c@ == m,
            parse_line(command_string@) matches Err(msg) ==> r matches Err(e) && e@ == msg,
    {
        let tokens = tokenize(command_string);
        if tokens.len() == 0 {
            return Err(BadCommandError::from_str("Missing command"));
        }
        let ghost toks = tokens_of(command_string@);
        let ghost margs = toks.drop_first();
        let command = &tokens[0];
        proof {
            assert(command@ == toks[0]);
        }
        let args = rest_arguments(&tokens);
        proof {
            assert(args@.len() == margs.len());
            assert(forall|k: int| 0 <= k < margs.len() ==> args.deep_view()[k] == margs[k]);
        }
        if crate::text::str_eq(command, "echo") {
            match parse_arguments(args, Echo::expected_arguments()) {
                Ok(parsed_args) => Ok(Command::Echo(Echo::new(join_strings(&parsed_args, " ")))),
                Err(e) => Err(e),
            }
        } else if crate::text::str_eq(command, "ls") {
            match parse_arguments(args, Ls::expected_arguments()) {
                Ok(parsed_args) => {
                    let target = if parsed_args.len() == 0 {
                        None
                    } else {
                        Some(parsed_args[0].clone())
                    };
                    Ok(Command::Ls(Ls::new(target)))
                },
                Err(e) => Err(e),
            }
        } else if crate::text::str_eq(command, "cd") {
            match parse_arguments(args, Cd::expected_arguments()) {
                Ok(mut parsed_args) => Ok(Command::Cd(Cd::new(parsed_args.remove(0)))),
                Err(e) => Err(e),
            }
        } else if crate::text::str_eq(command, "cat") {
            match parse_arguments(args, Cat::expected_arguments()) {
                Ok(mut parsed_args) => Ok(Command::Cat(Cat::new(parsed_args.remove(0)))),
                Err(e) => Err(e),
            }
        } else if crate::text::str_eq(command, "exit") {
            match parse_arguments(args, Exit::expected_arguments()) {
                Ok(_) => Ok(Command::Exit(Exit::new())),
                Err(e) => Err(e),
            }
        } else if crate::text::str_eq(command, "pwd") {
            match parse_arguments(args, Pwd::expected_arguments()) {
                Ok(_) => Ok(Command::Pwd(Pwd::new())),
                Err(e) => Err(e),
            }
        } else if crate::text::str_eq(command, "help") {
            match parse_arguments(args, Help::expected_arguments()) {
                Ok(_) => Ok(Command::Help(Help::new())),
                Err(e) => Err(e),
            }
        } else {
            Err(BadCommandError::from_string(
                String::from_str("Unknown command ").concat(command.as_str()),
            ))
        }
    }
}

} // verus!
