//! The copy keystroke: which command, if any, makes the foreground
//! application copy its selection on a given platform.
//!
//! Injection is fire-and-forget. The driver runs the command, discards its
//! output and its failure, and goes on; on a platform without a command
//! nothing is injected and a selection capture comes back empty.

use vstd::prelude::*;

verus! {

/// Program that scripts the keystroke on macOS.
pub const MACOS_PROGRAM: &'static str = "osascript";

/// Flag that makes `osascript` run the script given as the next argument.
pub const MACOS_SCRIPT_FLAG: &'static str = "-e";

/// Script that presses Command+C.
pub const MACOS_COPY_SCRIPT: &'static str =
    "tell application \"System Events\" to keystroke \"c\" using {command down}";

/// Program that scripts the keystroke on Windows.
pub const WINDOWS_PROGRAM: &'static str = "powershell";

/// Flag that keeps PowerShell from loading the user's profile.
pub const WINDOWS_PROFILE_FLAG: &'static str = "-NoProfile";

/// Flag that makes PowerShell run the script given as the next argument.
pub const WINDOWS_SCRIPT_FLAG: &'static str = "-Command";

/// Script that sends Ctrl+C and then pauses for 50 milliseconds.
pub const WINDOWS_COPY_SCRIPT: &'static str =
    "Add-Type -AssemblyName System.Windows.Forms; [System.Windows.Forms.SendKeys]::SendWait('^c'); Start-Sleep -Milliseconds 50";

/// The platforms that differ in how a keystroke is injected.
#[derive(Clone, Copy, Debug, PartialEq, Eq, Structural)]
pub enum Platform {
    MacOs,
    Windows,
    Other,
}

/// A command for the driver to run.
#[derive(Clone, Debug, PartialEq, Eq)]
pub struct InjectionCommand {
    pub program: String,
    pub args: Vec<String>,
}

/// A command as plain text: the program and its arguments.
pub struct CommandLine {
    pub program: Seq<char>,
    pub args: Seq<Seq<char>>,
}

impl View for InjectionCommand {
    type V = CommandLine;

    open spec fn view(&self) -> CommandLine {
        CommandLine { program: self.program@, args: self.args@.map_values(|arg: String| arg@) }
    }
}

/// The command that injects the copy keystroke on `platform`, if there is
/// one.
pub open spec fn copy_command(platform: Platform) -> Option<CommandLine> {
    match platform {
        Platform::MacOs => Some(
            CommandLine {
                program: MACOS_PROGRAM@,
                args: seq![MACOS_SCRIPT_FLAG@, MACOS_COPY_SCRIPT@],
            },
        ),
        Platform::Windows => Some(
            CommandLine {
                program: WINDOWS_PROGRAM@,
                args: seq![WINDOWS_PROFILE_FLAG@, WINDOWS_SCRIPT_FLAG@, WINDOWS_COPY_SCRIPT@],
            },
        ),
        Platform::Other => None,
    }
}

/// The view of an optional command.
pub open spec fn command_line(command: Option<InjectionCommand>) -> Option<CommandLine> {
    match command {
        Some(command) => Some(command@),
        None => None,
    }
}

/// Picks the command that triggers the copy shortcut on `platform`. Nothing
/// is to be run where the platform has none.
pub fn trigger_copy_shortcut(platform: Platform) -> (command: Option<InjectionCommand>)
    ensures
        command_line(command) == copy_command(platform),
{
    match platform {
        Platform::MacOs => {
            let mut args: Vec<String> = Vec::new();
            args.push(MACOS_SCRIPT_FLAG.to_owned());
            args.push(MACOS_COPY_SCRIPT.to_owned());
            let command = InjectionCommand { program: MACOS_PROGRAM.to_owned(), args };
            assert(command@.args =~= seq![MACOS_SCRIPT_FLAG@, MACOS_COPY_SCRIPT@]);
            Some(command)
        },
        Platform::Windows => {
            let mut args: Vec<String> = Vec::new();
            args.push(WINDOWS_PROFILE_FLAG.to_owned());
            args.push(WINDOWS_SCRIPT_FLAG.to_owned());
            args.push(WINDOWS_COPY_SCRIPT.to_owned());
            let command = InjectionCommand { program: WINDOWS_PROGRAM.to_owned(), args };
            assert(command@.args =~= seq![
                WINDOWS_PROFILE_FLAG@,
                WINDOWS_SCRIPT_FLAG@,
                WINDOWS_COPY_SCRIPT@,
            ]);
            Some(command)
        },
        Platform::Other => None,
    }
}

} // verus!
