//! The request for one run, and the verified steps of a run: the process
//! invocation, its environment, and the outcome of the child process.
use vstd::prelude::*;

use crate::argument::Argument;
use crate::environment::EnvCollector;
use crate::errors::ShellError;
use crate::script::{script_body, script_text, trimmed, Script};
use crate::shell::Shell;

verus! {

/// What `bstr::ByteSlice::trim_end` returns for the given bytes: the bytes
/// without their trailing whitespace.
pub uninterp spec fn trimmed_end(b: Seq<u8>) -> Seq<u8>;

/// What `String::from_utf8_lossy` returns for the given bytes: their UTF-8
/// decoding, with each invalid sequence replaced.
pub uninterp spec fn lossy_text(b: Seq<u8>) -> Seq<char>;

/// Relies on `bstr::ByteSlice::trim_end`, which returns the input without
/// its trailing whitespace: a prefix of the input.
#[verifier::external_body]
fn trim_end(b: &[u8]) -> (r: Vec<u8>)
    ensures
        r@ == trimmed_end(b@),
        r@.len() <= b@.len(),
        r@ == b@.subrange(0, r@.len() as int),
{
    bstr::ByteSlice::trim_end(b).to_vec()
}

/// Relies on `String::from_utf8_lossy`, which decodes UTF-8 and replaces
/// each invalid sequence with U+FFFD.
#[verifier::external_body]
fn lossy_decode(b: &[u8]) -> (r: String)
    ensures
        r@ == lossy_text(b@),
{
    String::from_utf8_lossy(b).into_owned()
}

/// The names of the given environment entries, in order.
pub open spec fn env_names(envs: Seq<(String, String)>) -> Seq<Seq<char>> {
    envs.map_values(|e: (String, String)| e.0@)
}

/// Every name followed by a colon, in order.
pub open spec fn forwarded_list(names: Seq<Seq<char>>) -> Seq<char>
    decreases names.len(),
{
    if names.len() == 0 {
        Seq::empty()
    } else {
        forwarded_list(names.drop_last()) + names.last() + ":"@
    }
}

/// Whether the run adds the forwarding entry to the environment.
pub open spec fn adds_forwarding(shell: Shell, n: nat) -> bool {
    shell == Shell::Wsl && n > 0
}

/// The request for one run: the shell, how long the process may take, the
/// command text and an optional initialization text.
pub struct Execution {
    shell: Shell,
    timeout: std::time::Duration,
    cmd: String,
    init: Option<String>,
}

impl Execution {
    pub closed spec fn spec_shell(&self) -> Shell {
        self.shell
    }

    pub closed spec fn spec_timeout(&self) -> std::time::Duration {
        self.timeout
    }

    pub closed spec fn spec_cmd(&self) -> Seq<char> {
        self.cmd@
    }

    pub closed spec fn spec_init(&self) -> Option<Seq<char>> {
        match self.init {
            Some(i) => Some(i@),
            None => None,
        }
    }

    /// A request without an initialization text.
    pub fn new(shell: Shell, timeout: std::time::Duration, cmd: String) -> (r: Self)
        ensures
            r.spec_shell() == shell,
            r.spec_timeout() == timeout,
            r.spec_cmd() == cmd@,
            r.spec_init() is None,
    {
        Execution { shell, timeout, cmd, init: None }
    }

    /// The same request with the given initialization text.
    pub fn with_init(self, init: Option<String>) -> (r: Self)
        ensures
            r.spec_shell() == self.spec_shell(),
            r.spec_timeout() == self.spec_timeout(),
            r.spec_cmd() == self.spec_cmd(),
            r.spec_init() == (match init {
                Some(i) => Some(i@),
                None => None::<Seq<char>>,
            }),
    {
        Execution { init, ..self }
    }

    pub fn shell(&self) -> (r: Shell)
        ensures
            r == self.spec_shell(),
    {
        self.shell
    }

    pub fn timeout(&self) -> (r: std::time::Duration)
        ensures
            r == self.spec_timeout(),
    {
        self.timeout
    }

    /// The script text of the run, normalized for its shell.
    pub fn script_text(&self) -> (r: String)
        ensures
            r@ == script_body(
                self.spec_shell(),
                self.spec_cmd(),
                match self.spec_init() {
                    Some(i) => Some(trimmed(i)),
                    None => None,
                },
            ),
    {
        match &self.init {
            Some(i) => script_text(self.shell, self.cmd.as_str(), Some(i.as_str())),
            None => script_text(self.shell, self.cmd.as_str(), None),
        }
    }

    /// The arguments after the program name: the shell's leading arguments,
    /// then the script argument.
    pub fn arguments<'a>(&self, script: &'a Script) -> (r: Vec<Argument<'a>>)
        ensures
            r@.len() == self.spec_shell().leading_args().len() + 1,
            forall|i: int|
                0 <= i < self.spec_shell().leading_args().len() ==> (#[trigger] r@[i] matches Argument::Normal(
                    t,
                ) && t@ == self.spec_shell().leading_args()[i]),
            script.delivered_by(r@.last()),
    {
        let mut r: Vec<Argument<'a>> = Vec::new();
        let lead = self.shell.command_args();
        let mut i: usize = 0;
        while i < lead.len()
            invariant
                i <= lead@.len(),
                lead@.len() == self.spec_shell().leading_args().len(),
                forall|j: int|
                    0 <= j < lead@.len() ==> (#[trigger] lead@[j] matches Argument::Normal(t) && t@
                        == self.spec_shell().leading_args()[j]),
                r@ == lead@.subrange(0, i as int),
            decreases lead@.len() - i,
        {
            r.push(lead[i]);
            assert(r@ =~= lead@.subrange(0, i + 1));
            i = i + 1;
        }
        r.push(script.argument());
        r
    }

    /// The environment of the child process: the given entries in order, then,
    /// for the Linux subsystem bridge and at least one entry, `WSLENV` listing
    /// every given name followed by a colon.
    pub fn environment(&self, envs: &Vec<(String, String)>) -> (r: Vec<(String, String)>)
        ensures
            r@.len() == envs@.len() + if adds_forwarding(self.spec_shell(), envs@.len()) {
                1int
            } else {
                0
            },
            forall|i: int|
                0 <= i < envs@.len() ==> (#[trigger] r@[i]).0@ == envs@[i].0@ && r@[i].1@
                    == envs@[i].1@,
            adds_forwarding(self.spec_shell(), envs@.len()) ==> r@.last().0@ == "WSLENV"@
                && r@.last().1@ == forwarded_list(env_names(envs@)),
    {
        let mut collector = EnvCollector::new(self.shell);
        let mut r: Vec<(String, String)> = Vec::new();
        let mut i: usize = 0;
        while i < envs.len()
            invariant
                i <= envs@.len(),
                r@.len() == i,
                forall|j: int|
                    0 <= j < i ==> (#[trigger] r@[j]).0@ == envs@[j].0@ && r@[j].1@ == envs@[j].1@,
                collector@.0 == self.spec_shell(),
                collector@.1 == if adds_forwarding(self.spec_shell(), i as nat) {
                    Some(forwarded_list(env_names(envs@.take(i as int))))
                } else {
                    None
                },
            decreases envs@.len() - i,
        {
            let key = &envs[i].0;
            let val = &envs[i].1;
            collector.acc(key.as_str(), val.as_str());
            r.push((key.clone(), val.clone()));
            proof {
                let names = env_names(envs@.take(i + 1));
                assert(names.drop_last() =~= env_names(envs@.take(i as int)));
                assert(names.last() == key@);
                if i == 0 {
                    assert(forwarded_list(names.drop_last()) =~= Seq::<char>::empty());
                    assert(forwarded_list(names) =~= key@ + ":"@);
                }
            }
            i = i + 1;
        }
        assert(envs@.take(envs@.len() as int) =~= envs@);
        match collector.collect() {
            Some(extra) => {
                let ghost before = r@;
                r.push(extra);
                assert(forall|j: int| 0 <= j < before.len() ==> r@[j] == #[trigger] before[j]);
            },
            None => {},
        }
        r
    }
}

/// How waiting for the child process ended.
pub enum WaitOutcome {
    /// The configured duration elapsed first.
    TimedOut,
    /// Reading the output streams failed.
    ReadFailed(std::io::Error),
    /// The process exited, with its exit status and what it wrote.
    Exited { success: bool, stdout: Vec<u8>, stderr: Vec<u8> },
}

impl WaitOutcome {
    /// The result of the run: the standard output without trailing
    /// whitespace when the process succeeded, its decoded standard error
    /// when it failed, `Timeout` or the read error otherwise.
    pub fn resolve(self) -> (r: Result<Vec<u8>, ShellError>)
        ensures
            self is TimedOut ==> r matches Err(ShellError::Timeout),
            self matches WaitOutcome::ReadFailed(e) ==> r matches Err(ShellError::FailedOutput(f))
                && f == e,
            self matches WaitOutcome::Exited { success, stdout, stderr } ==> if success {
                r matches Ok(o) && o@ == trimmed_end(stdout@)
            } else {
                r matches Err(ShellError::Failure(m)) && m@ == lossy_text(stderr@)
            },
    {
        match self {
            WaitOutcome::TimedOut => Err(ShellError::Timeout),
            WaitOutcome::ReadFailed(e) => Err(ShellError::FailedOutput(e)),
            WaitOutcome::Exited { success, stdout, stderr } => {
                if success {
                    Ok(trim_end(stdout.as_slice()))
                } else {
                    Err(ShellError::Failure(lossy_decode(stderr.as_slice())))
                }
            },
        }
    }
}

} // verus!
