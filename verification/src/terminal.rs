//! The companion terminal that follows the log of a run: which program is
//! started on which platform, and with which arguments. Starting it is the
//! caller's part, and so is finding out which terminals are installed.

use vstd::prelude::*;
use vstd::string::StringExecFns;
use crate::text::{replace_char, replaced, texts};

verus! {

/// The kind of system that the shell runs on.
#[derive(Clone, Copy, Debug, PartialEq, Eq, Structural)]
pub enum Platform {
    Windows,
    MacOs,
    Linux,
    Other,
}

/// A program and the arguments to start it with.
#[derive(Debug, PartialEq, Eq)]
pub struct TerminalCommand {
    pub program: String,
    pub arguments: Vec<String>,
}

/// A command as plain data.
#[verifier::ext_equal]
pub struct CommandView {
    pub program: Seq<char>,
    pub arguments: Seq<Seq<char>>,
}

impl View for TerminalCommand {
    type V = CommandView;

    open spec fn view(&self) -> CommandView {
        CommandView { program: self.program@, arguments: texts(self.arguments@) }
    }
}

/// The terminal programs that are tried on Linux, in order.
pub open spec fn spec_linux_terminals() -> Seq<Seq<char>> {
    seq![
        "x-terminal-emulator"@,
        "gnome-terminal"@,
        "konsole"@,
        "xfce4-terminal"@,
        "mate-terminal"@,
        "xterm"@,
    ]
}

pub fn linux_terminals() -> (names: Vec<&'static str>)
    ensures
        names@.map_values(|n: &'static str| n@) == spec_linux_terminals(),
{
    let names = vec![
        "x-terminal-emulator",
        "gnome-terminal",
        "konsole",
        "xfce4-terminal",
        "mate-terminal",
        "xterm",
    ];
    assert(names@.map_values(|n: &'static str| n@) =~= spec_linux_terminals());
    names
}

/// The shell command that follows the log and then waits for a key.
pub open spec fn tail_command(log_path: Seq<char>) -> Seq<char> {
    "tail -n +1 -f '"@ + log_path + "' ; read -p \"Press Enter to close...\" _"@
}

/// The PowerShell command that opens a second PowerShell on the log.
pub open spec fn powershell_command(log_path: Seq<char>) -> Seq<char> {
    "Start-Process powershell -ArgumentList '-NoExit','-Command','Get-Content -Path \""@ + log_path
        + "\" -Wait'"@
}

/// The AppleScript that opens Terminal on the log. Double quotes in the
/// path are escaped.
pub open spec fn terminal_script(log_path: Seq<char>) -> Seq<char> {
    "tell application \"Terminal\" to do script \"tail -n +1 -f "@ + replaced(
        log_path,
        '"',
        "\\\""@,
    ) + "\""@
}

/// What a Linux terminal is told before the shell command, by its position
/// in the list of terminals.
pub open spec fn terminal_options(terminal: usize) -> Seq<Seq<char>> {
    if terminal == 1 || terminal == 4 {
        seq!["--"@]
    } else if terminal == 2 {
        seq!["--noclose"@, "-e"@]
    } else if terminal == 3 {
        seq!["--hold"@, "-e"@]
    } else if terminal == 5 {
        seq!["-hold"@, "-e"@]
    } else {
        seq!["-e"@]
    }
}

/// The command that opens the companion terminal on `log_path`, or why
/// there is none. `terminal` is the position of the first installed
/// terminal in the list of Linux terminals; other platforms ignore it.
pub open spec fn terminal_plan(platform: Platform, log_path: Seq<char>, terminal: Option<usize>)
    -> Result<CommandView, Seq<char>> {
    match platform {
        Platform::Windows => Ok(
            CommandView {
                program: "powershell"@,
                arguments: seq!["-NoProfile"@, "-Command"@, powershell_command(log_path)],
            },
        ),
        Platform::MacOs => Ok(
            CommandView { program: "osascript"@, arguments: seq!["-e"@, terminal_script(log_path)] },
        ),
        Platform::Linux => match terminal {
            Some(at) if at < spec_linux_terminals().len() => Ok(
                CommandView {
                    program: spec_linux_terminals()[at as int],
                    arguments: terminal_options(at) + seq![
                        "bash"@,
                        "-lc"@,
                        tail_command(log_path),
                    ],
                },
            ),
            _ => Err("No compatible terminal found"@),
        },
        Platform::Other => Err("Unsupported platform"@),
    }
}

fn push_text(list: &mut Vec<String>, text: &str)
    ensures
        texts(final(list)@) == texts(old(list)@).push(text@),
{
    list.push(String::from_str(text));
    assert(texts(final(list)@) =~= texts(old(list)@).push(text@));
}

fn linux_options(terminal: usize) -> (options: Vec<String>)
    ensures
        texts(options@) == terminal_options(terminal),
{
    let mut options: Vec<String> = Vec::new();
    assert(texts(options@) =~= Seq::<Seq<char>>::empty());
    if terminal == 1 || terminal == 4 {
        push_text(&mut options, "--");
    } else if terminal == 2 {
        push_text(&mut options, "--noclose");
        push_text(&mut options, "-e");
    } else if terminal == 3 {
        push_text(&mut options, "--hold");
        push_text(&mut options, "-e");
    } else if terminal == 5 {
        push_text(&mut options, "-hold");
        push_text(&mut options, "-e");
    } else {
        push_text(&mut options, "-e");
    }
    assert(texts(options@) =~= terminal_options(terminal));
    options
}

/// Plans the start of the companion terminal.
pub fn terminal_command(platform: Platform, log_path: &str, terminal: Option<usize>) -> (plan:
    Result<TerminalCommand, String>)
    ensures
        match plan {
            Ok(command) => terminal_plan(platform, log_path@, terminal) == Ok::<
                CommandView,
                Seq<char>,
            >(command@),
            Err(reason) => terminal_plan(platform, log_path@, terminal) == Err::<
                CommandView,
                Seq<char>,
            >(reason@),
        },
{
    match platform {
        Platform::Windows => {
            let mut command = String::from_str(
                "Start-Process powershell -ArgumentList '-NoExit','-Command','Get-Content -Path \"",
            );
            command.append(log_path);
            command.append("\" -Wait'");
            let mut arguments: Vec<String> = Vec::new();
            assert(texts(arguments@) =~= Seq::<Seq<char>>::empty());
            push_text(&mut arguments, "-NoProfile");
            push_text(&mut arguments, "-Command");
            push_text(&mut arguments, command.as_str());
            let planned = TerminalCommand { program: String::from_str("powershell"), arguments };
            assert(planned@ =~~= terminal_plan(platform, log_path@, terminal)->Ok_0);
            Ok(planned)
        },
        Platform::MacOs => {
            let escaped = replace_char(log_path, '"', "\\\"");
            let mut script = String::from_str(
                "tell application \"Terminal\" to do script \"tail -n +1 -f ",
            );
            script.append(escaped.as_str());
            script.append("\"");
            let mut arguments: Vec<String> = Vec::new();
            assert(texts(arguments@) =~= Seq::<Seq<char>>::empty());
            push_text(&mut arguments, "-e");
            push_text(&mut arguments, script.as_str());
            let planned = TerminalCommand { program: String::from_str("osascript"), arguments };
            assert(planned@ =~~= terminal_plan(platform, log_path@, terminal)->Ok_0);
            Ok(planned)
        },
        Platform::Linux => {
            let names = linux_terminals();
            match terminal {
                Some(at) => {
                    if at < names.len() {
                        let mut tail = String::from_str("tail -n +1 -f '");
                        tail.append(log_path);
                        tail.append("' ; read -p \"Press Enter to close...\" _");
                        let mut arguments = linux_options(at);
                        push_text(&mut arguments, "bash");
                        push_text(&mut arguments, "-lc");
                        push_text(&mut arguments, tail.as_str());
                        let name: &str = names[at];
                        assert(name@ == spec_linux_terminals()[at as int]);
                        let planned = TerminalCommand { program: String::from_str(name), arguments };
                        assert(planned@ =~~= terminal_plan(platform, log_path@, terminal)->Ok_0);
                        Ok(planned)
                    } else {
                        Err(String::from_str("No compatible terminal found"))
                    }
                },
                None => Err(String::from_str("No compatible terminal found")),
            }
        },
        Platform::Other => Err(String::from_str("Unsupported platform")),
    }
}

} // verus!
