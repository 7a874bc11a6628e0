//! The per-connection session: an authentication gate with three
//! tries, then a command loop.
//!
//! The session engine here is pure decision logic.  The embedding
//! program owns the byte stream and the filesystem: it reads a line,
//! hands it in, gets back an [`Action`], performs whatever transport
//! or filesystem work the action names, and hands the outcome back to
//! a `finish_*` function.  Every decision — what to answer, when to
//! count a failed guess, when to drop the connection — is made and
//! proved here.
//!
//! The working directory is a value owned by the session and resolved
//! against by `ls`, `cat` and `cd`.  The alternative, mutating the
//! process-wide directory, would let concurrent sessions interfere
//! with one another, so it is deliberately not modelled.

use vstd::prelude::*;

use itertools::Itertools;

use crate::command::{Command, CommandModel, parse_line};
use crate::text::{join_with, trim, trim_spec};

verus! {

/// Where a session stands: still guessing, accepted, or done.
#[derive(Clone, Copy, Debug, PartialEq, Eq, Structural)]
pub enum Phase {
    Unauthenticated { guesses_used: u8 },
    Authenticated,
    Terminated,
}

/// What one password submission led to.
#[derive(Clone, Copy, Debug, PartialEq, Eq, Structural)]
pub enum AuthOutcome {
    Accepted,
    Rejected,
    LockedOut,
}

/// What the embedding program must do next with a command's result:
/// send a line, send a line and drop the connection, or perform a
/// filesystem request and report back.
#[derive(Debug, PartialEq, Eq)]
pub enum Action {
    Reply(String),
    ReplyAndClose(String),
    ListDir(String),
    ReadFile(String),
}

/// The mathematical shape of an [`Action`].
pub enum ActionModel {
    Reply(Seq<char>),
    ReplyAndClose(Seq<char>),
    ListDir(Seq<char>),
    ReadFile(Seq<char>),
}

impl View for Action {
    type V = ActionModel;

    open spec fn view(&self) -> ActionModel {
        match self {
            Action::Reply(s) => ActionModel::Reply(s@),
            Action::ReplyAndClose(s) => ActionModel::ReplyAndClose(s@),
            Action::ListDir(s) => ActionModel::ListDir(s@),
            Action::ReadFile(s) => ActionModel::ReadFile(s@),
        }
    }
}

/// How `cat`'s filesystem request ended: the decoded text, a failure
/// to open reported as text, or content that was no valid text.
#[derive(Debug, PartialEq, Eq)]
pub enum CatOutcome {
    Content(String),
    OpenFailed(String),
    NotText,
}

/// The line sent as soon as a connection is accepted.
pub open spec fn greeting_msg() -> Seq<char> {
    "Please provide the password"@
}

/// The two bytes sent, unterminated, before each read.
pub open spec fn prompt_marker_msg() -> Seq<char> {
    "> "@
}

/// The line sent after a wrong password.
pub open spec fn incorrect_password_msg() -> Seq<char> {
    "Incorrect password"@
}

/// The line sent when the third guess fails, just before the drop.
pub open spec fn lockout_msg() -> Seq<char> {
    "Too many incorrect guesses. Kicking you out"@
}

/// The line sent when the password is accepted.
pub open spec fn invite_msg() -> Seq<char> {
    "Enter your command"@
}

/// The farewell line of `exit`.
pub open spec fn bye_msg() -> Seq<char> {
    "Bye"@
}

/// The acknowledgement line of `cd`.
pub open spec fn cd_ack_msg(target: Seq<char>) -> Seq<char> {
    "Changed directory to "@ + target
}

/// The usage summary that `help` prints.
pub open spec fn help_msg() -> Seq<char> {
    "\n    pwd - Print current directory\n    cd - Change directory\n    ls [dir] - List contents of [dir], or current directory\n    cat file - Print contents of file\n    echo [msg] - Print msg\n    exit - Leave shell\n    help - Print this helpful message\n"@
}

/// A path argument against the session's directory: an absolute
/// target stands alone, a relative one goes under the directory.
pub open spec fn resolve_spec(base: Seq<char>, target: Seq<char>) -> Seq<char> {
    if target.len() > 0 && target[0] == '/' {
        target
    } else {
        base + "/"@ + target
    }
}

/// What one password submission does: the next phase, the outcome,
/// and the exact lines sent back, in order.
pub struct AuthTransition {
    pub phase: Phase,
    pub outcome: AuthOutcome,
    pub lines: Seq<Seq<char>>,
}

/// The authentication step.  A match (after trimming surrounding
/// whitespace) is accepted at once; a mismatch warns, and the third
/// mismatch locks the client out.
pub open spec fn auth_step(phase: Phase, password: Seq<char>, attempt: Seq<char>) -> AuthTransition
    recommends
        phase matches Phase::Unauthenticated { .. },
{
    match phase {
        Phase::Unauthenticated { guesses_used } => {
            if trim_spec(attempt) == password {
                AuthTransition {
                    phase: Phase::Authenticated,
                    outcome: AuthOutcome::Accepted,
                    lines: seq![invite_msg()],
                }
            } else if guesses_used >= 2 {
                AuthTransition {
                    phase: Phase::Terminated,
                    outcome: AuthOutcome::LockedOut,
                    lines: seq![incorrect_password_msg(), lockout_msg()],
                }
            } else {
                AuthTransition {
                    phase: Phase::Unauthenticated { guesses_used: (guesses_used + 1) as u8 },
                    outcome: AuthOutcome::Rejected,
                    lines: seq![incorrect_password_msg()],
                }
            }
        },
        _ => AuthTransition { phase, outcome: AuthOutcome::Rejected, lines: Seq::empty() },
    }
}

/// What dispatching one command does: the next phase, the next
/// working directory, and the action handed to the embedding program.
pub struct CommandStep {
    pub phase: Phase,
    pub cwd: Seq<char>,
    pub action: ActionModel,
}

/// The command-phase step, one case per variant.
pub open spec fn dispatch_step(cwd: Seq<char>, c: CommandModel) -> CommandStep {
    match c {
        CommandModel::Echo { message } => CommandStep {
            phase: Phase::Authenticated,
            cwd,
            action: ActionModel::Reply(message),
        },
        CommandModel::Ls { target_directory } => CommandStep {
            phase: Phase::Authenticated,
            cwd,
            action: ActionModel::ListDir(
                match target_directory {
                    Some(t) => resolve_spec(cwd, t),
                    None => cwd,
                },
            ),
        },
        CommandModel::Cd { target_directory } => CommandStep {
            phase: Phase::Authenticated,
            cwd: resolve_spec(cwd, target_directory),
            action: ActionModel::Reply(cd_ack_msg(target_directory)),
        },
        CommandModel::Cat { file } => CommandStep {
            phase: Phase::Authenticated,
            cwd,
            action: ActionModel::ReadFile(resolve_spec(cwd, file)),
        },
        CommandModel::Exit => CommandStep {
            phase: Phase::Terminated,
            cwd,
            action: ActionModel::ReplyAndClose(bye_msg()),
        },
        CommandModel::Pwd => CommandStep {
            phase: Phase::Authenticated,
            cwd,
            action: ActionModel::Reply(cwd),
        },
        CommandModel::Help => CommandStep {
            phase: Phase::Authenticated,
            cwd,
            action: ActionModel::Reply(help_msg()),
        },
    }
}

/// One connection's state: its phase, the shared password it checks
/// against, and its own working directory.
pub struct Session {
    pub phase: Phase,
    pub password: String,
    pub cwd: String,
}

impl Session {
    /// A fresh session: no guesses used, standing in the directory the
    /// embedding program started it in.
    pub fn new(password: String, current_directory: String) -> (s: Session)
        ensures
            s.phase == (Phase::Unauthenticated { guesses_used: 0u8 }),
            s.password == password,
            s.cwd == current_directory,
    {
        Session { phase: Phase::Unauthenticated { guesses_used: 0 }, password, cwd: current_directory }
    }

    /// Checks one password attempt, as [`auth_step`] says: the
    /// returned lines go to the client in order.
    pub fn submit_password(&mut self, attempt: &str) -> (r: (AuthOutcome, Vec<String>))
        requires
            old(self).phase matches Phase::Unauthenticated { .. },
        ensures
            ({
                let t = auth_step(old(self).phase, old(self).password@, attempt@);
                &&& final(self).phase == t.phase
                &&& final(self).password == old(self).password
                &&& final(self).cwd == old(self).cwd
                &&& r.0 == t.outcome
                &&& r.1.deep_view() =~= t.lines
            }),
    {
        let trimmed = trim(attempt);
        if trimmed.eq(&self.password) {
            self.phase = Phase::Authenticated;
            let lines = vec![String::from_str("Enter your command")];
            proof {
                assert(lines.deep_view() =~= seq![invite_msg()]);
            }
            (AuthOutcome::Accepted, lines)
        } else {
            let guesses_used = match self.phase {
                Phase::Unauthenticated { guesses_used } => guesses_used,
                _ => 0,
            };
            if guesses_used >= 2 {
                self.phase = Phase::Terminated;
                let lines = vec![
                    String::from_str("Incorrect password"),
                    String::from_str("Too many incorrect guesses. Kicking you out"),
                ];
                proof {
                    assert(lines.deep_view() =~= seq![incorrect_password_msg(), lockout_msg()]);
                }
                (AuthOutcome::LockedOut, lines)
            } else {
                self.phase = Phase::Unauthenticated { guesses_used: guesses_used + 1 };
                let lines = vec![String::from_str("Incorrect password")];
                proof {
                    assert(lines.deep_view() =~= seq![incorrect_password_msg()]);
                }
                (AuthOutcome::Rejected, lines)
            }
        }
    }

    /// Dispatches one parsed command, as [`dispatch_step`] says.
    pub fn dispatch(&mut self, command: Command) -> (a: Action)
        requires
            old(self).phase == Phase::Authenticated,
        ensures
            ({
                let t = dispatch_step(old(self).cwd@, command@);
                &&& final(self).phase == t.phase
                &&& final(self).cwd@ == t.cwd
                &&& final(self).password == old(self).password
                &&& a@ == t.action
            }),
    {
        match command {
            Command::Echo(echo) => Action::Reply(echo.message),
            Command::Ls(ls) => Action::ListDir(
                match ls.target_directory {
                    Some(target) => self.resolve(target),
                    None => self.cwd.clone(),
                },
            ),
            Command::Cd(cd) => {
                let new_cwd = self.resolve(cd.target_directory.clone());
                self.cwd = new_cwd;
                Action::Reply(
                    String::from_str("Changed directory to ").concat(cd.target_directory.as_str()),
                )
            },
            Command::Cat(cat) => Action::ReadFile(self.resolve(cat.file)),
            Command::Exit(_) => {
                self.phase = Phase::Terminated;
                Action::ReplyAndClose(String::from_str("Bye"))
            },
            Command::Pwd(_) => Action::Reply(self.cwd.clone()),
            Command::Help(_) => Action::Reply(
                String::from_str(
                    "\n    pwd - Print current directory\n    cd - Change directory\n    ls [dir] - List contents of [dir], or current directory\n    cat file - Print contents of file\n    echo [msg] - Print msg\n    exit - Leave shell\n    help - Print this helpful message\n",
                ),
            ),
        }
    }

    /// Parses and dispatches one line of the command phase: a parse
    /// failure becomes its message as the reply, with nothing changed;
    /// a parsed command goes through [`dispatch_step`].
    pub fn handle_line(&mut self, line: &str) -> (a: Action)
        requires
            old(self).phase == Phase::Authenticated,
        ensures
            ({
                match parse_line(line@) {
                    Err(msg) => {
                        &&& *final(self) == *old(self)
                        &&& a@ matches ActionModel::Reply(m) && m == msg
                    },
                    Ok(c) => {
                        let t = dispatch_step(old(self).cwd@, c);
                        &&& final(self).phase == t.phase
                        &&& final(self).cwd@ == t.cwd
                        &&& final(self).password == old(self).password
                        &&& a@ == t.action
                    },
                }
            }),
    {
        match Command::parse(line) {
            Err(err) => Action::Reply(err.msg),
            Ok(command) => self.dispatch(command),
        }
    }

    /// Marks the session over: the stream hit end-of-file or failed,
    /// and no further transition exists.
    pub fn disconnect(&mut self)
        ensures
            final(self).phase == Phase::Terminated,
            final(self).password == old(self).password,
            final(self).cwd == old(self).cwd,
    {
        self.phase = Phase::Terminated;
    }

    /// Settles `cat` after the filesystem answered: content or an open
    /// failure become the reply line; content that was no valid text is
    /// fatal — no reply, the session is over.
    pub fn finish_cat(&mut self, outcome: CatOutcome) -> (r: Option<String>)
        requires
            old(self).phase == Phase::Authenticated,
        ensures
            match outcome {
                CatOutcome::Content(text) => r == Some(text) && *final(self) == *old(self),
                CatOutcome::OpenFailed(msg) => r == Some(msg) && *final(self) == *old(self),
                CatOutcome::NotText => {
                    &&& r is None
                    &&& final(self).phase == Phase::Terminated
                    &&& final(self).password == old(self).password
                    &&& final(self).cwd == old(self).cwd
                },
            },
    {
        match outcome {
            CatOutcome::Content(text) => Some(text),
            CatOutcome::OpenFailed(msg) => Some(msg),
            CatOutcome::NotText => {
                self.phase = Phase::Terminated;
                None
            },
        }
    }

    /// The path argument resolved against this session's directory.
    fn resolve(&self, target: String) -> (r: String)
        ensures
            r@ == resolve_spec(self.cwd@, target@),
    {
        let is_absolute = if target.unicode_len() > 0 {
            target.as_str().get_char(0) == '/'
        } else {
            false
        };
        if is_absolute {
            target
        } else {
            self.cwd.clone().concat("/").concat(target.as_str())
        }
    }
}

/// Settles `ls` after the filesystem answered: the entries joined
/// with newlines, or the failure's description, either way one reply
/// line.
pub fn finish_ls(outcome: Result<Vec<String>, String>) -> (r: String)
    ensures
        outcome matches Ok(entries) ==> r@ == join_with(entries.deep_view(), "\n"@),
        outcome matches Err(msg) ==> r == msg,
{
    match outcome {
        Ok(entries) => join_dir_entries(&entries),
        Err(msg) => msg,
    }
}

/// Relies on `itertools::Itertools::join`: the items in order, the
/// separator between each two of them, the empty string for no items.
#[verifier::external_body]
fn join_dir_entries(entries: &Vec<String>) -> (r: String)
    ensures
        r@ == join_with(entries.deep_view(), "\n"@),
{
    entries.iter().join("\n")
}

/// The line sent as soon as a connection is accepted.
pub fn greeting() -> (r: String)
    ensures
        r@ == greeting_msg(),
{
    String::from_str("Please provide the password")
}

/// The two bytes sent, unterminated, before each read.
pub fn prompt_marker() -> (r: String)
    ensures
        r@ == prompt_marker_msg(),
{
    String::from_str("> ")
}

/// Three wrong guesses in a row lock the session out: the first two
/// only warn and leave the session guessing, the third answers with
/// the warning and the lockout line and ends the session.
pub proof fn lemma_auth_lockout(password: Seq<char>, a1: Seq<char>, a2: Seq<char>, a3: Seq<char>)
    requires
        trim_spec(a1) != password,
        trim_spec(a2) != password,
        trim_spec(a3) != password,
    ensures
        ({
            let t1 = auth_step(Phase::Unauthenticated { guesses_used: 0u8 }, password, a1);
            let t2 = auth_step(t1.phase, password, a2);
            let t3 = auth_step(t2.phase, password, a3);
            &&& t1.outcome == AuthOutcome::Rejected
            &&& t1.phase == (Phase::Unauthenticated { guesses_used: 1u8 })
            &&& t1.lines =~= seq![incorrect_password_msg()]
            &&& t2.outcome == AuthOutcome::Rejected
            &&& t2.phase == (Phase::Unauthenticated { guesses_used: 2u8 })
            &&& t2.lines =~= seq![incorrect_password_msg()]
            &&& t3.outcome == AuthOutcome::LockedOut
            &&& t3.phase == Phase::Terminated
            &&& t3.lines =~= seq![incorrect_password_msg(), lockout_msg()]
        }),
{
}

/// A correct guess is accepted whatever went before, as long as the
/// session is still guessing: the phase turns authenticated and the
/// one line sent invites commands.
pub proof fn lemma_auth_accepts(phase: Phase, password: Seq<char>, attempt: Seq<char>)
    requires
        phase matches Phase::Unauthenticated { .. },
        trim_spec(attempt) == password,
    ensures
        auth_step(phase, password, attempt).phase == Phase::Authenticated,
        auth_step(phase, password, attempt).outcome == AuthOutcome::Accepted,
        auth_step(phase, password, attempt).lines =~= seq![invite_msg()],
{
}

/// `pwd` right after `cd` reports exactly the directory `cd` moved
/// to; in particular an absolute target is reported verbatim.
pub proof fn lemma_cd_then_pwd(cwd: Seq<char>, target: Seq<char>)
    ensures
        ({
            let t1 = dispatch_step(cwd, CommandModel::Cd { target_directory: target });
            let t2 = dispatch_step(t1.cwd, CommandModel::Pwd);
            &&& t1.phase == Phase::Authenticated
            &&& t1.cwd == resolve_spec(cwd, target)
            &&& t2.action == ActionModel::Reply(t1.cwd)
            &&& (target.len() > 0 && target[0] == '/' ==> t1.cwd == target)
        }),
{
}

} // verus!
