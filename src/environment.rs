//! Collecting the names of the environment variables that a nested
//! environment must receive.
use vstd::prelude::*;
use vstd::string::*;

use crate::shell::Shell;

verus! {

/// The names collected so far, each followed by a colon.
pub open spec fn appended(pending: Option<Seq<char>>, key: Seq<char>) -> Seq<char> {
    match pending {
        Some(b) => b + key + ":"@,
        None => key + ":"@,
    }
}

/// Accumulates the names of forwarded variables for the shell that needs
/// them passed on, the Linux subsystem bridge.
pub struct EnvCollector {
    shell: Shell,
    buffer: Option<String>,
}

impl View for EnvCollector {
    /// The shell, and the accumulated names if any were recorded.
    type V = (Shell, Option<Seq<char>>);

    closed spec fn view(&self) -> (Shell, Option<Seq<char>>) {
        (
            self.shell,
            match self.buffer {
                Some(b) => Some(b@),
                None => None,
            },
        )
    }
}

impl EnvCollector {
    /// A collector that has recorded nothing.
    pub fn new(shell: Shell) -> (r: Self)
        ensures
            r@ == (shell, None::<Seq<char>>),
    {
        EnvCollector { shell, buffer: None }
    }

    /// Records one variable: its name and a colon are appended for the
    /// bridge shell; nothing changes for the other shells.
    pub fn acc(&mut self, key: &str, _val: &str)
        ensures
            final(self)@.0 == old(self)@.0,
            final(self)@.1 == if old(self)@.0 == Shell::Wsl {
                Some(appended(old(self)@.1, key@))
            } else {
                old(self)@.1
            },
    {
        match self.shell {
            Shell::Wsl => {
                let mut b = match self.buffer.take() {
                    Some(b) => b,
                    None => String::new(),
                };
                b.append(key);
                b.append(":");
                proof {
                    match old(self)@.1 {
                        Some(p) => {},
                        None => {
                            assert(b@ =~= key@ + ":"@);
                        },
                    }
                }
                self.buffer = Some(b);
            },
            _ => {},
        }
    }

    /// The extra environment entry, `WSLENV` set to the recorded names, for
    /// the bridge shell when anything was recorded; nothing otherwise.
    pub fn collect(self) -> (r: Option<(String, String)>)
        ensures
            (self@.0 == Shell::Wsl && self@.1 is Some) ==> (r matches Some(e) && e.0@ == "WSLENV"@
                && e.1@ == self@.1->0),
            !(self@.0 == Shell::Wsl && self@.1 is Some) ==> r is None,
    {
        match self.shell {
            Shell::Wsl => match self.buffer {
                Some(b) => Some((String::from_str("WSLENV"), b)),
                None => None,
            },
            _ => None,
        }
    }
}

} // verus!
