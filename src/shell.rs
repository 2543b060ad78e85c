//! The closed set of supported shells and what each one needs.
use vstd::prelude::*;

use crate::argument::{Argument, Platform};
use crate::errors::ShellError;
use crate::text::same_text;

verus! {

/// A supported shell.
#[derive(Debug, Clone, Copy, PartialEq, Eq, Structural)]
pub enum Shell {
    Zsh,
    Bash,
    Sh,
    Cmd,
    Powershell,
    Wsl,
}

impl Shell {
    /// The name of the shell, which is also the program that is started.
    pub open spec fn spec_name(self) -> Seq<char> {
        match self {
            Shell::Zsh => "zsh"@,
            Shell::Bash => "bash"@,
            Shell::Sh => "sh"@,
            Shell::Cmd => "cmd"@,
            Shell::Powershell => "powershell"@,
            Shell::Wsl => "wsl"@,
        }
    }

    /// The arguments that come before the script argument.
    pub open spec fn leading_args(self) -> Seq<Seq<char>> {
        match self {
            Shell::Cmd => seq!["/C"@],
            Shell::Powershell => seq!["-Command"@],
            Shell::Wsl => seq!["bash"@, "-c"@],
            _ => seq!["-c"@],
        }
    }

    /// Whether scripts for this shell are passed as a file rather than inline.
    pub open spec fn file_backed(self) -> bool {
        self == Shell::Cmd
    }

    /// The line ending that script text is normalized into.
    pub open spec fn spec_line_ending(self) -> Seq<char> {
        match self {
            Shell::Cmd | Shell::Powershell => "\r\n"@,
            _ => "\n"@,
        }
    }

    /// What follows an initialization line so that its standard error is discarded.
    pub open spec fn spec_discard_stderr(self) -> Seq<char> {
        match self {
            Shell::Cmd => " 2> nul"@,
            Shell::Powershell => " 2>$null"@,
            _ => " > /dev/null 2>&1"@,
        }
    }

    /// The program to start.
    pub fn name(&self) -> (r: &'static str)
        ensures
            r@ == self.spec_name(),
    {
        match self {
            Shell::Zsh => "zsh",
            Shell::Bash => "bash",
            Shell::Sh => "sh",
            Shell::Cmd => "cmd",
            Shell::Powershell => "powershell",
            Shell::Wsl => "wsl",
        }
    }

    /// Looks a shell up by its name.
    pub fn from_name(s: &str) -> (r: Result<Shell, ShellError>)
        ensures
            r matches Ok(sh) ==> sh.spec_name() == s@,
            r is Err <==> (forall|sh: Shell| sh.spec_name() != s@),
            r matches Err(e) ==> e matches ShellError::UnsupportedShell(n) && n@ == s@,
    {
        if same_text(s, "zsh") {
            assert(Shell::Zsh.spec_name() == s@);
            Ok(Shell::Zsh)
        } else if same_text(s, "bash") {
            assert(Shell::Bash.spec_name() == s@);
            Ok(Shell::Bash)
        } else if same_text(s, "sh") {
            assert(Shell::Sh.spec_name() == s@);
            Ok(Shell::Sh)
        } else if same_text(s, "cmd") {
            assert(Shell::Cmd.spec_name() == s@);
            Ok(Shell::Cmd)
        } else if same_text(s, "powershell") {
            assert(Shell::Powershell.spec_name() == s@);
            Ok(Shell::Powershell)
        } else if same_text(s, "wsl") {
            assert(Shell::Wsl.spec_name() == s@);
            Ok(Shell::Wsl)
        } else {
            assert forall|sh: Shell| sh.spec_name() != s@ by {
                match sh {
                    Shell::Zsh => {},
                    Shell::Bash => {},
                    Shell::Sh => {},
                    Shell::Cmd => {},
                    Shell::Powershell => {},
                    Shell::Wsl => {},
                }
            }
            Err(ShellError::UnsupportedShell(s.to_owned()))
        }
    }

    /// The shell used when none is named: Windows' command interpreter on
    /// Windows, bash elsewhere.
    pub fn platform_default(platform: Platform) -> (r: Shell)
        ensures
            platform == Platform::Windows ==> r == Shell::Cmd,
            platform != Platform::Windows ==> r == Shell::Bash,
    {
        match platform {
            Platform::Windows => Shell::Cmd,
            Platform::Unix => Shell::Bash,
        }
    }

    /// The arguments that come before the script argument, all delivered as
    /// normal text.
    pub fn command_args(&self) -> (r: Vec<Argument<'static>>)
        ensures
            r@.len() == self.leading_args().len(),
            forall|i: int|
                0 <= i < r@.len() ==> (#[trigger] r@[i] matches Argument::Normal(t) && t@
                    == self.leading_args()[i]),
    {
        let mut r: Vec<Argument<'static>> = Vec::new();
        match self {
            Shell::Cmd => {
                r.push(Argument::Normal("/C"));
            },
            Shell::Powershell => {
                r.push(Argument::Normal("-Command"));
            },
            Shell::Wsl => {
                r.push(Argument::Normal("bash"));
                r.push(Argument::Normal("-c"));
            },
            _ => {
                r.push(Argument::Normal("-c"));
            },
        }
        r
    }

    /// Whether scripts for this shell are written to a file first.
    pub fn is_file_backed(&self) -> (r: bool)
        ensures
            r == self.file_backed(),
    {
        match self {
            Shell::Cmd => true,
            _ => false,
        }
    }

    /// The suffix of the script file, for the shells that need one.
    pub fn script_suffix(&self) -> (r: Option<&'static str>)
        ensures
            r is Some <==> self.file_backed(),
            r matches Some(t) ==> t@ == ".bat"@,
    {
        match self {
            Shell::Cmd => Some(".bat"),
            _ => None,
        }
    }

    /// The line ending that script text is normalized into.
    pub fn line_ending(&self) -> (r: &'static str)
        ensures
            r@ == self.spec_line_ending(),
    {
        match self {
            Shell::Cmd | Shell::Powershell => "\r\n",
            _ => "\n",
        }
    }

    /// What follows an initialization line so that its standard error is discarded.
    pub fn discard_stderr(&self) -> (r: &'static str)
        ensures
            r@ == self.spec_discard_stderr(),
    {
        match self {
            Shell::Cmd => " 2> nul",
            Shell::Powershell => " 2>$null",
            _ => " > /dev/null 2>&1",
        }
    }
}

} // verus!
