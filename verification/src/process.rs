//! The child process: the command that launches the service, and the command
//! that ends it. The host runs the commands; this module says what they are.

use crate::text::{decimal_digits, decimal_string, join2};
use vstd::prelude::*;

verus! {

/// A command for the host to run: the program, its arguments in order, and
/// the environment variables to set for it on top of the host's own.
#[derive(Clone, Debug, PartialEq, Eq)]
pub struct CommandLine {
    pub program: String,
    pub args: Vec<String>,
    pub env: Vec<(String, String)>,
}

/// What a [`CommandLine`] holds, as plain text.
pub struct CommandLineView {
    pub program: Seq<char>,
    pub args: Seq<Seq<char>>,
    pub env: Seq<(Seq<char>, Seq<char>)>,
}

impl View for CommandLine {
    type V = CommandLineView;

    open spec fn view(&self) -> CommandLineView {
        CommandLineView {
            program: self.program@,
            args: self.args.deep_view(),
            env: self.env.deep_view(),
        }
    }
}

/// The operating systems that processes are ended on.
#[derive(Clone, Copy, Debug, PartialEq, Eq)]
pub enum Platform {
    /// Systems with POSIX signals.
    Posix,
    /// Windows.
    Windows,
}

/// The command that launches the service on `port`: the runtime with its
/// entry point, told through `PORT` and `HOST` where to listen.
pub open spec fn spawn_command_of(port: u16) -> CommandLineView {
    CommandLineView {
        program: "node"@,
        args: seq!["--import"@, "tsx"@, "../server/src/main.ts"@],
        env: seq![("PORT"@, decimal_digits(port as nat)), ("HOST"@, "127.0.0.1"@)],
    }
}

/// The command that ends the process `pid`: a `SIGTERM` where there are
/// signals, a forced kill on Windows.
pub open spec fn terminate_command_of(platform: Platform, pid: u32) -> CommandLineView {
    match platform {
        Platform::Posix => CommandLineView {
            program: "kill"@,
            args: seq!["-TERM"@, decimal_digits(pid as nat)],
            env: Seq::empty(),
        },
        Platform::Windows => CommandLineView {
            program: "taskkill"@,
            args: seq!["/PID"@, decimal_digits(pid as nat), "/F"@],
            env: Seq::empty(),
        },
    }
}

/// The message of a launch that failed for the reason `os_error`.
pub open spec fn spawn_error_message_of(os_error: Seq<char>) -> Seq<char> {
    "Failed to spawn server: "@ + os_error
}

/// Builds the command that launches the service on `port`.
pub fn spawn_command(port: u16) -> (command: CommandLine)
    ensures
        command@ == spawn_command_of(port),
{
    let mut args: Vec<String> = Vec::new();
    args.push(String::from_str("--import"));
    args.push(String::from_str("tsx"));
    args.push(String::from_str("../server/src/main.ts"));
    let mut env: Vec<(String, String)> = Vec::new();
    env.push((String::from_str("PORT"), decimal_string(port as u64)));
    env.push((String::from_str("HOST"), String::from_str("127.0.0.1")));
    let command: CommandLine = CommandLine { program: String::from_str("node"), args, env };
    assert(command@.args =~= spawn_command_of(port).args);
    assert(command@.env =~= spawn_command_of(port).env);
    command
}

/// Builds the command that ends the process `pid` on `platform`.
pub fn terminate_command(platform: Platform, pid: u32) -> (command: CommandLine)
    ensures
        command@ == terminate_command_of(platform, pid),
{
    let mut args: Vec<String> = Vec::new();
    let program: String = match platform {
        Platform::Posix => {
            args.push(String::from_str("-TERM"));
            args.push(decimal_string(pid as u64));
            String::from_str("kill")
        },
        Platform::Windows => {
            args.push(String::from_str("/PID"));
            args.push(decimal_string(pid as u64));
            args.push(String::from_str("/F"));
            String::from_str("taskkill")
        },
    };
    let command: CommandLine = CommandLine { program, args, env: Vec::new() };
    assert(command@.args =~= terminate_command_of(platform, pid).args);
    assert(command@.env =~= terminate_command_of(platform, pid).env);
    command
}

/// Builds the message of a launch that failed for the reason `os_error`.
pub fn spawn_error_message(os_error: &str) -> (message: String)
    ensures
        message@ == spawn_error_message_of(os_error@),
{
    join2("Failed to spawn server: ", os_error)
}

} // verus!
