//! Running a command for the guest: what is handed to the platform, and how
//! the platform's answer is reported back.

use crate::layout::Field;
use crate::roc_io_error::{IOErr, IOErrTag};
use vstd::layout::size_of;
use vstd::prelude::*;
use vstd::utf8::{decode_utf8, decode_utf8_encode_utf8, encode_utf8, valid_utf8};

verus! {

/// The message of the error that reports a process without an exit code.
pub const KILLED_BY_SIGNAL: &'static str = "Process was killed by signal";

/// A command as the guest describes it.
pub struct Command {
    pub args: Vec<String>,
    /// The environment to add, as a flat list: a name, its value, the next
    /// name, its value, and so on.
    pub envs: Vec<String>,
    pub program: String,
    /// Not 0 where the command starts from an empty environment.
    pub clear_envs: u8,
}

/// What the platform is asked to run.
pub struct StdCommand {
    pub program: String,
    pub args: Vec<String>,
    pub env_clear: bool,
    pub envs: Vec<(String, String)>,
}

/// The name and value pairs of a flat environment list. A name at the end
/// that has no value is left out.
pub open spec fn env_pairs_of(envs: Seq<String>) -> Seq<(String, String)> {
    Seq::new(envs.len() / 2, |i: int| (envs[2 * i], envs[2 * i + 1]))
}

fn clone_strings(items: &Vec<String>) -> (copy: Vec<String>)
    ensures
        copy@ == items@,
{
    let mut copy: Vec<String> = Vec::new();
    let mut i: usize = 0;
    while i < items.len()
        invariant
            i <= items.len(),
            copy@ == items@.subrange(0, i as int),
        decreases items.len() - i,
    {
        copy.push(items[i].clone());
        proof {
            assert(copy@ =~= items@.subrange(0, i + 1));
        }
        i = i + 1;
    }
    proof {
        assert(items@.subrange(0, items.len() as int) =~= items@);
    }
    copy
}

fn env_pairs(envs: &Vec<String>) -> (pairs: Vec<(String, String)>)
    ensures
        pairs@ == env_pairs_of(envs@),
{
    let mut pairs: Vec<(String, String)> = Vec::new();
    let mut i: usize = 0;
    while envs.len() - i >= 2
        invariant
            i <= envs.len(),
            i == 2 * pairs.len(),
            pairs@ == env_pairs_of(envs@).subrange(0, pairs.len() as int),
        decreases envs.len() - i,
    {
        pairs.push((envs[i].clone(), envs[i + 1].clone()));
        proof {
            assert(pairs@ =~= env_pairs_of(envs@).subrange(0, pairs.len() as int));
        }
        i = i + 2;
    }
    proof {
        assert(env_pairs_of(envs@).subrange(0, pairs.len() as int) =~= env_pairs_of(envs@));
    }
    pairs
}

impl Command {
    /// What the platform is asked to run for this command: the program, its
    /// arguments in their order, an empty environment to start from where
    /// `clear_envs` is not 0, and the environment pairs in their order.
    pub fn to_std_command(&self) -> (cmd: StdCommand)
        ensures
            cmd.program == self.program,
            cmd.args@ == self.args@,
            cmd.env_clear == (self.clear_envs != 0),
            cmd.envs@ == env_pairs_of(self.envs@),
    {
        StdCommand {
            program: self.program.clone(),
            args: clone_strings(&self.args),
            env_clear: self.clear_envs != 0,
            envs: env_pairs(&self.envs),
        }
    }
}

/// What a command wrote, where it ended with the exit code 0.
pub struct CommandOutputSuccess {
    pub stderr_utf8_lossy: String,
    pub stdout_utf8: String,
}

/// What a command wrote, and its exit code, where that is not 0.
pub struct CommandOutputFailure {
    pub stderr_utf8_lossy: String,
    pub stdout_utf8_lossy: String,
    pub exit_code: i32,
}

/// How running a command for its output ended.
pub enum CommandOutputResult {
    /// The command ended with the exit code 0.
    Success(CommandOutputSuccess),
    /// The command ended with another exit code.
    NonZeroExit(CommandOutputFailure),
    /// The command could not be run, or ended without an exit code.
    Error(IOErr),
}

/// What the platform reports of a process that has ended.
pub struct ProcessOutput {
    /// The exit code, or `None` where a signal ended the process.
    pub status: Option<i32>,
    pub stdout: Vec<u8>,
    pub stderr: Vec<u8>,
}

/// The text that `String::from_utf8_lossy` makes of a byte string.
pub uninterp spec fn utf8_lossy(bytes: Seq<u8>) -> Seq<char>;

/// The character that stands in for bytes that are not valid UTF-8.
pub const REPLACEMENT_CHARACTER: char = '\u{FFFD}';

/// Calls `String::from_utf8_lossy` and takes the text as a `String`. The
/// contract names the text and says what the documentation says of it: the
/// text of valid UTF-8 is the one that the bytes encode, and the text of
/// anything else holds the replacement character. Where the replacement
/// characters stand is not stated.
#[verifier::external_body]
fn string_from_utf8_lossy(bytes: &[u8]) -> (text: String)
    ensures
        text@ == utf8_lossy(bytes@),
        valid_utf8(bytes@) ==> text@ == decode_utf8(bytes@),
        !valid_utf8(bytes@) ==> text@.contains(REPLACEMENT_CHARACTER),
{
    String::from_utf8_lossy(bytes).into_owned()
}

/// Whether `text` is the lossy reading of `bytes`. Valid UTF-8 is read as the
/// text that it encodes, so that the bytes of the text are the bytes given;
/// the reading of anything else holds the replacement character.
pub open spec fn is_lossy_text(text: Seq<char>, bytes: Seq<u8>) -> bool {
    &&& text == utf8_lossy(bytes)
    &&& valid_utf8(bytes) ==> text == decode_utf8(bytes) && encode_utf8(text) == bytes
    &&& !valid_utf8(bytes) ==> text.contains(REPLACEMENT_CHARACTER)
}

/// The text of a byte string, with each part that is not valid UTF-8
/// replaced by the replacement character. The conversion cannot fail, and it
/// loses nothing of valid input.
pub fn bytes_to_str_lossy(bytes: &[u8]) -> (text: String)
    ensures
        is_lossy_text(text@, bytes@),
{
    proof {
        if valid_utf8(bytes@) {
            decode_utf8_encode_utf8(bytes@);
        }
    }
    string_from_utf8_lossy(bytes)
}

/// The error that reports a process which ended without an exit code.
pub fn killed_by_signal() -> (e: IOErr)
    ensures
        e.tag() == IOErrTag::Other,
        e.message_spec() == Some(KILLED_BY_SIGNAL@),
{
    IOErr::new_other(KILLED_BY_SIGNAL)
}

/// Reports how running a command for its exit code ended.
///
/// `status` is what the platform returned: the exit code, `None` where a
/// signal ended the process, or the error that kept the command from
/// running.
pub fn exit_code_result(status: Result<Option<i32>, std::io::Error>) -> (r: Result<i32, IOErr>)
    ensures
        match status {
            Ok(Some(code)) => r matches Ok(reported) && reported == code,
            Ok(None) => r matches Err(e) && e.tag() == IOErrTag::Other && e.message_spec() == Some(
                KILLED_BY_SIGNAL@,
            ),
            Err(error) => r matches Err(e) && e.reports(&error),
        },
{
    match status {
        Ok(Some(code)) => Ok(code),
        Ok(None) => Err(killed_by_signal()),
        Err(error) => Err(IOErr::from_io_error(&error)),
    }
}

/// Reports how running a command for its output ended.
///
/// Both streams are read as text, with what is not valid UTF-8 replaced. An
/// exit code of 0 is a success, another one a failure that still carries
/// both texts, and a process without an exit code is an error.
pub fn output_result(outcome: Result<ProcessOutput, std::io::Error>) -> (r: CommandOutputResult)
    ensures
        match outcome {
            Ok(output) => match output.status {
                Some(code) if code == 0 => {
                    &&& r matches CommandOutputResult::Success(success)
                    &&& is_lossy_text(success.stdout_utf8@, output.stdout@)
                    &&& is_lossy_text(success.stderr_utf8_lossy@, output.stderr@)
                },
                Some(code) => {
                    &&& r matches CommandOutputResult::NonZeroExit(failure)
                    &&& failure.exit_code == code
                    &&& is_lossy_text(failure.stdout_utf8_lossy@, output.stdout@)
                    &&& is_lossy_text(failure.stderr_utf8_lossy@, output.stderr@)
                },
                None => {
                    &&& r matches CommandOutputResult::Error(e)
                    &&& e.tag() == IOErrTag::Other
                    &&& e.message_spec() == Some(KILLED_BY_SIGNAL@)
                },
            },
            Err(error) => r matches CommandOutputResult::Error(e) && e.reports(&error),
        },
{
    match outcome {
        Ok(output) => {
            let stdout_utf8 = bytes_to_str_lossy(output.stdout.as_slice());
            let stderr_utf8_lossy = bytes_to_str_lossy(output.stderr.as_slice());
            match output.status {
                Some(0) => CommandOutputResult::Success(
                    CommandOutputSuccess { stderr_utf8_lossy, stdout_utf8 },
                ),
                Some(exit_code) => CommandOutputResult::NonZeroExit(
                    CommandOutputFailure {
                        stderr_utf8_lossy,
                        stdout_utf8_lossy: stdout_utf8,
                        exit_code,
                    },
                ),
                None => CommandOutputResult::Error(killed_by_signal()),
            }
        },
        Err(error) => CommandOutputResult::Error(IOErr::from_io_error(&error)),
    }
}

/// The size in bytes of a text or a list as the guest holds it: three machine
/// words.
pub fn text_size() -> (size: usize)
    ensures
        size == 3 * size_of::<usize>(),
{
    3 * core::mem::size_of::<usize>()
}

/// The fields of the command record, as the guest declares them.
pub fn command_fields() -> (fields: Vec<Field>)
    ensures
        fields@.len() == 4,
        fields[0].name@ == "args"@ && fields[0].size == 3 * size_of::<usize>(),
        fields[1].name@ == "clear_envs"@ && fields[1].size == 1,
        fields[2].name@ == "envs"@ && fields[2].size == 3 * size_of::<usize>(),
        fields[3].name@ == "program"@ && fields[3].size == 3 * size_of::<usize>(),
{
    let mut fields: Vec<Field> = Vec::new();
    fields.push(Field::new("args", text_size()));
    fields.push(Field::new("clear_envs", 1));
    fields.push(Field::new("envs", text_size()));
    fields.push(Field::new("program", text_size()));
    fields
}

/// The fields of the record for the output of a successful command, as the
/// guest declares them.
pub fn output_success_fields() -> (fields: Vec<Field>)
    ensures
        fields@.len() == 2,
        fields[0].name@ == "stdout_utf8"@ && fields[0].size == 3 * size_of::<usize>(),
        fields[1].name@ == "stderr_utf8_lossy"@ && fields[1].size == 3 * size_of::<usize>(),
{
    let mut fields: Vec<Field> = Vec::new();
    fields.push(Field::new("stdout_utf8", text_size()));
    fields.push(Field::new("stderr_utf8_lossy", text_size()));
    fields
}

/// The fields of the record for the output of a failed command, as the guest
/// declares them.
pub fn output_failure_fields() -> (fields: Vec<Field>)
    ensures
        fields@.len() == 3,
        fields[0].name@ == "exit_code"@ && fields[0].size == 4,
        fields[1].name@ == "stdout_utf8_lossy"@ && fields[1].size == 3 * size_of::<usize>(),
        fields[2].name@ == "stderr_utf8_lossy"@ && fields[2].size == 3 * size_of::<usize>(),
{
    let mut fields: Vec<Field> = Vec::new();
    fields.push(Field::new("exit_code", 4));
    fields.push(Field::new("stdout_utf8_lossy", text_size()));
    fields.push(Field::new("stderr_utf8_lossy", text_size()));
    fields
}

} // verus!
