use super::re::RegexError;
use crate::text::texts;
use vstd::prelude::*;
use vstd::string::*;
use vstd::utf8::{decode_utf8, valid_utf8};

verus! {

/// A command line: the program and the arguments that follow it.
#[derive(Debug, Clone, PartialEq, Eq)]
pub struct Command {
    pub program: String,
    pub args: Vec<String>,
}

/// What a [`Command`] holds, as texts.
pub struct CommandView {
    pub program: Seq<char>,
    pub args: Seq<Seq<char>>,
}

impl View for Command {
    type V = CommandView;

    open spec fn view(&self) -> CommandView {
        CommandView { program: self.program@, args: texts(self.args@) }
    }
}

impl DeepView for Command {
    type V = CommandView;

    open spec fn deep_view(&self) -> CommandView {
        self@
    }
}

/// What a process left behind: whether it ended with success, and the bytes
/// that it wrote to its standard output.
#[derive(Debug, Clone, PartialEq, Eq)]
pub struct Output {
    pub success: bool,
    pub stdout: Vec<u8>,
}

/// What became of an attempt to run a command: the output of the process, or
/// the reason why no process could be started.
pub type Spawned = Result<Output, String>;

/// What a [`Spawned`] holds, as plain values.
pub open spec fn spawned_view(spawned: Spawned) -> Result<(bool, Seq<u8>), Seq<char>> {
    match spawned {
        Ok(output) => Ok((output.success, output.stdout@)),
        Err(reason) => Err(reason@),
    }
}

/// The ways in which an operation on the tool fails.
#[derive(Debug, Clone, PartialEq, Eq)]
pub enum CliError {
    /// No process could be started; the reason, as the system gave it.
    IoError(Command, String),
    /// The process ended without success.
    FailedCommand(Command),
    /// The process wrote bytes that are not UTF-8; the bytes.
    BadEncoding(Command, Vec<u8>),
    /// The process wrote none of the sentences that the operation knows.
    BadOutput(Command),
    /// The reply did not match its pattern, or lacks what a group should hold.
    RegexError(RegexError, Command),
    /// The tool knows no setting of this name.
    InvalidSettingName(String),
    /// The tool refused these values for the setting of this name.
    InvalidSettingValue(String, Vec<String>),
}

/// What a [`CliError`] holds, as texts.
pub enum CliErrorView {
    IoError(CommandView, Seq<char>),
    FailedCommand(CommandView),
    BadEncoding(CommandView, Seq<u8>),
    BadOutput(CommandView),
    RegexError(RegexError, CommandView),
    InvalidSettingName(Seq<char>),
    InvalidSettingValue(Seq<char>, Seq<Seq<char>>),
}

impl View for CliError {
    type V = CliErrorView;

    open spec fn view(&self) -> CliErrorView {
        match self {
            CliError::IoError(command, reason) => CliErrorView::IoError(command@, reason@),
            CliError::FailedCommand(command) => CliErrorView::FailedCommand(command@),
            CliError::BadEncoding(command, bytes) => CliErrorView::BadEncoding(command@, bytes@),
            CliError::BadOutput(command) => CliErrorView::BadOutput(command@),
            CliError::RegexError(error, command) => CliErrorView::RegexError(*error, command@),
            CliError::InvalidSettingName(name) => CliErrorView::InvalidSettingName(name@),
            CliError::InvalidSettingValue(name, values) => CliErrorView::InvalidSettingValue(
                name@,
                texts(values@),
            ),
        }
    }
}

/// The view of a command line that may be missing.
pub open spec fn command_view(command: Option<&Command>) -> Option<CommandView> {
    match command {
        Some(command) => Some(command@),
        None => None,
    }
}

impl CliErrorView {
    /// The command line that failed. The errors of a setting name the setting
    /// in its place.
    pub open spec fn command(self) -> Option<CommandView> {
        match self {
            CliErrorView::IoError(command, _) => Some(command),
            CliErrorView::FailedCommand(command) => Some(command),
            CliErrorView::BadEncoding(command, _) => Some(command),
            CliErrorView::BadOutput(command) => Some(command),
            CliErrorView::RegexError(_, command) => Some(command),
            CliErrorView::InvalidSettingName(_) => None,
            CliErrorView::InvalidSettingValue(_, _) => None,
        }
    }
}

impl CliError {
    /// The command line that failed. The errors of a setting name the setting
    /// in its place.
    pub fn command(&self) -> (command: Option<&Command>)
        ensures
            command_view(command) == self@.command(),
    {
        match self {
            CliError::IoError(command, _) => Some(command),
            CliError::FailedCommand(command) => Some(command),
            CliError::BadEncoding(command, _) => Some(command),
            CliError::BadOutput(command) => Some(command),
            CliError::RegexError(_, command) => Some(command),
            CliError::InvalidSettingName(_) => None,
            CliError::InvalidSettingValue(_, _) => None,
        }
    }

    /// The sentence that says what went wrong.
    pub open spec fn message(self) -> Seq<char> {
        match self {
            CliError::IoError(_, _) => "unable to create command"@,
            CliError::FailedCommand(_) => "command terminated unsuccessfully"@,
            CliError::BadEncoding(_, _) => "failed to get command output as UTF-8"@,
            CliError::BadOutput(_) => "command output did not match as expected"@,
            CliError::RegexError(_, _) => "a regex pattern failed to match"@,
            CliError::InvalidSettingName(_) => "setting does not exist"@,
            CliError::InvalidSettingValue(_, _) =>
                "the provided value for a setting is malformed or invalid"@,
        }
    }

    /// The sentence that says what went wrong.
    pub fn to_string(&self) -> (text: String)
        ensures
            text@ == self.message(),
    {
        match self {
            CliError::IoError(_, _) => String::from_str("unable to create command"),
            CliError::FailedCommand(_) => String::from_str("command terminated unsuccessfully"),
            CliError::BadEncoding(_, _) => String::from_str(
                "failed to get command output as UTF-8",
            ),
            CliError::BadOutput(_) => String::from_str("command output did not match as expected"),
            CliError::RegexError(_, _) => String::from_str("a regex pattern failed to match"),
            CliError::InvalidSettingName(_) => String::from_str("setting does not exist"),
            CliError::InvalidSettingValue(_, _) => String::from_str(
                "the provided value for a setting is malformed or invalid",
            ),
        }
    }
}

/// What an operation on the tool gives: its value, or why there is none.
pub type CliResult<T> = Result<T, CliError>;

/// What a result holds, as texts and plain values.
pub open spec fn result_view<T: DeepView>(result: CliResult<T>) -> Result<T::V, CliErrorView> {
    match result {
        Ok(value) => Ok(value.deep_view()),
        Err(error) => Err(error@),
    }
}

/// A command that ran, with what it wrote, read as text.
#[derive(Debug, Clone, PartialEq, Eq)]
pub struct Reply {
    pub command: Command,
    pub success: bool,
    pub stdout: String,
}

/// What a [`Reply`] holds, as texts.
pub struct ReplyView {
    pub command: CommandView,
    pub success: bool,
    pub stdout: Seq<char>,
}

impl View for Reply {
    type V = ReplyView;

    open spec fn view(&self) -> ReplyView {
        ReplyView { command: self.command@, success: self.success, stdout: self.stdout@ }
    }
}

impl DeepView for Reply {
    type V = ReplyView;

    open spec fn deep_view(&self) -> ReplyView {
        self@
    }
}

/// What running `command` came to: no process gives `IoError`, output that is
/// not UTF-8 gives `BadEncoding`, and anything else is the reply, whether the
/// process ended with success or not.
pub open spec fn reply_of(command: CommandView, spawned: Result<(bool, Seq<u8>), Seq<char>>) -> Result<
    ReplyView,
    CliErrorView,
> {
    match spawned {
        Err(reason) => Err(CliErrorView::IoError(command, reason)),
        Ok((success, bytes)) => if valid_utf8(bytes) {
            Ok(ReplyView { command, success, stdout: decode_utf8(bytes) })
        } else {
            Err(CliErrorView::BadEncoding(command, bytes))
        },
    }
}

/// `String::from_utf8`, with the bytes of `FromUtf8Error::into_bytes` in place
/// of the error. Believed, as std documents: the call succeeds where the bytes
/// are valid UTF-8, the string then holds the characters that they encode, and
/// the error gives back the bytes that were handed in.
#[verifier::external_body]
pub(crate) fn from_utf8(bytes: Vec<u8>) -> (decoded: Result<String, Vec<u8>>)
    ensures
        match decoded {
            Ok(text) => valid_utf8(bytes@) && text@ == decode_utf8(bytes@),
            Err(raw) => !valid_utf8(bytes@) && raw@ == bytes@,
        },
{
    String::from_utf8(bytes).map_err(|error| error.into_bytes())
}

/// Reads what became of `run` once it was run.
pub fn command(run: Command, spawned: Spawned) -> (reply: CliResult<Reply>)
    ensures
        result_view(reply) == reply_of(run@, spawned_view(spawned)),
{
    match spawned {
        Err(reason) => Err(CliError::IoError(run, reason)),
        Ok(output) => match from_utf8(output.stdout) {
            Ok(stdout) => Ok(Reply { command: run, success: output.success, stdout }),
            Err(bytes) => Err(CliError::BadEncoding(run, bytes)),
        },
    }
}

} // verus!
