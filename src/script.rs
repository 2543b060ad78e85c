//! Assembling a script body for a shell.
use vstd::prelude::*;
use vstd::string::*;

use crate::argument::Argument;
use crate::shell::Shell;

verus! {

/// A temporary file that is deleted when its handle is dropped.
#[verifier::external_type_specification]
#[verifier::external_body]
pub struct ExTempPath(tempfile::TempPath);

/// What `str::trim` returns for the given text: the text without its leading
/// and trailing whitespace.
pub uninterp spec fn trimmed(s: Seq<char>) -> Seq<char>;

/// `s` with every line ending (a line feed, or a carriage return followed by
/// a line feed) replaced by `sep`, and a line ending at the very end dropped.
pub open spec fn normalized(s: Seq<char>, sep: Seq<char>) -> Seq<char>
    decreases s.len(),
{
    if s.len() == 0 {
        Seq::empty()
    } else if s[0] == '\n' {
        if s.len() == 1 {
            Seq::empty()
        } else {
            sep + normalized(s.skip(1), sep)
        }
    } else if s[0] == '\r' && s.len() >= 2 && s[1] == '\n' {
        if s.len() == 2 {
            Seq::empty()
        } else {
            sep + normalized(s.skip(2), sep)
        }
    } else {
        seq![s[0]] + normalized(s.skip(1), sep)
    }
}

/// An initialization line whose standard error is discarded.
pub open spec fn quiet_line(script: Seq<char>, shell: Shell) -> Seq<char> {
    script + shell.spec_discard_stderr()
}

/// The initialization line used when the caller gives none.
pub open spec fn default_init(shell: Shell) -> Seq<char> {
    match shell {
        Shell::Bash => quiet_line("source ~/.bashrc"@, shell),
        Shell::Zsh => quiet_line("source ~/.zshrc"@, shell),
        Shell::Cmd => "@echo off"@,
        _ => Seq::empty(),
    }
}

/// The initialization line for an already trimmed initialization text.
pub open spec fn init_part(shell: Shell, init: Option<Seq<char>>) -> Seq<char> {
    match init {
        Some(t) => if t.len() > 0 {
            quiet_line(t, shell)
        } else {
            default_init(shell)
        },
        None => default_init(shell),
    }
}

/// The whole script text: the initialization line, a line feed, the command,
/// with line endings normalized for the shell.
pub open spec fn script_body(shell: Shell, cmd: Seq<char>, init: Option<Seq<char>>) -> Seq<char> {
    normalized(init_part(shell, init) + "\n"@ + cmd, shell.spec_line_ending())
}

/// The characters of an optional string.
pub open spec fn opt_view(o: Option<&str>) -> Option<Seq<char>> {
    match o {
        Some(t) => Some(t@),
        None => None,
    }
}

/// Whether `s` holds no line-ending character.
pub open spec fn single_line(s: Seq<char>) -> bool {
    forall|i: int| 0 <= i < s.len() ==> #[trigger] s[i] != '\n' && s[i] != '\r'
}

/// Text without line-ending characters passes through normalization unchanged.
pub proof fn lemma_single_line_prefix(a: Seq<char>, rest: Seq<char>, sep: Seq<char>)
    requires
        single_line(a),
    ensures
        normalized(a + rest, sep) == a + normalized(rest, sep),
    decreases a.len(),
{
    if a.len() == 0 {
        assert(a + rest =~= rest);
        assert(a + normalized(rest, sep) =~= normalized(rest, sep));
    } else {
        let s = a + rest;
        assert(s[0] == a[0]);
        assert(s.skip(1) =~= a.skip(1) + rest);
        assert(single_line(a.skip(1))) by {
            assert forall|i: int| 0 <= i < a.skip(1).len() implies #[trigger] a.skip(1)[i] != '\n'
                && a.skip(1)[i] != '\r' by {
                assert(a.skip(1)[i] == a[i + 1]);
            }
        }
        lemma_single_line_prefix(a.skip(1), rest, sep);
        assert(a =~= seq![a[0]] + a.skip(1));
        assert(normalized(s, sep) == seq![a[0]] + normalized(a.skip(1) + rest, sep));
        assert(seq![a[0]] + (a.skip(1) + normalized(rest, sep)) =~= a + normalized(rest, sep));
    }
}

/// A non-blank initialization text on one line opens the script on a line of
/// its own, with its standard error discarded, ahead of the command.
pub proof fn init_line_opens_script(shell: Shell, cmd: Seq<char>, init: Seq<char>)
    requires
        init.len() > 0,
        single_line(init),
        cmd.len() > 0,
    ensures
        script_body(shell, cmd, Some(init)) == quiet_line(init, shell) + shell.spec_line_ending()
            + normalized(cmd, shell.spec_line_ending()),
{
    reveal_strlit("\n");
    reveal_strlit(" 2> nul");
    reveal_strlit(" 2>$null");
    reveal_strlit(" > /dev/null 2>&1");
    let sep = shell.spec_line_ending();
    let q = quiet_line(init, shell);
    let d = shell.spec_discard_stderr();
    assert(single_line(q)) by {
        assert forall|i: int| 0 <= i < q.len() implies #[trigger] q[i] != '\n' && q[i] != '\r' by {
            if i >= init.len() {
                assert(q[i] == d[i - init.len()]);
            }
        }
    }
    let tail = "\n"@ + cmd;
    assert(q + "\n"@ + cmd =~= q + tail);
    lemma_single_line_prefix(q, tail, sep);
    assert(tail[0] == '\n');
    assert(tail.skip(1) =~= cmd);
    assert(q + (sep + normalized(cmd, sep)) =~= q + sep + normalized(cmd, sep));
}

/// Relies on `str::trim`, which removes leading and trailing whitespace; the
/// result depends on the text alone.
#[verifier::external_body]
fn trim(s: &str) -> (r: &str)
    ensures
        r@ == trimmed(s@),
{
    s.trim()
}

/// Relies on the `Deref` of `tempfile::TempPath`, which gives the path of
/// the file.
#[verifier::external_body]
fn temp_file_path(p: &tempfile::TempPath) -> (r: &std::path::Path) {
    p
}

/// Wraps `script` so that whatever it writes to standard error is discarded.
pub fn init_line(script: &str, shell: Shell) -> (r: String)
    ensures
        r@ == quiet_line(script@, shell),
{
    let mut r = String::from_str(script);
    r.append(shell.discard_stderr());
    r
}

/// Rewrites every line ending of `script` into the shell's convention.
pub fn fix_newlines(shell: Shell, script: &str) -> (r: String)
    ensures
        r@ == normalized(script@, shell.spec_line_ending()),
{
    let sep = shell.line_ending();
    let n = script.unicode_len();
    let mut out = String::new();
    let mut i: usize = 0;
    assert(script@.skip(0) =~= script@);
    assert(out@ + normalized(script@, sep@) =~= normalized(script@, sep@));
    while i < n
        invariant
            n == script@.len(),
            i <= n,
            sep@ == shell.spec_line_ending(),
            normalized(script@, sep@) == out@ + normalized(script@.skip(i as int), sep@),
        decreases n - i,
    {
        let ghost rest = script@.skip(i as int);
        let c = script.get_char(i);
        assert(rest[0] == c);
        if c == '\n' {
            assert(rest.skip(1) =~= script@.skip(i + 1));
            if i + 1 < n {
                out.append(sep);
            } else {
                assert(out@ + normalized(script@.skip(i + 1), sep@) =~= out@);
            }
            i = i + 1;
        } else if c == '\r' && i + 1 < n && script.get_char(i + 1) == '\n' {
            assert(rest[1] == '\n');
            assert(rest.skip(2) =~= script@.skip(i + 2));
            if i + 2 < n {
                out.append(sep);
            } else {
                assert(out@ + normalized(script@.skip(i + 2), sep@) =~= out@);
            }
            i = i + 2;
        } else {
            assert(rest.skip(1) =~= script@.skip(i + 1));
            let one = script.substring_char(i, i + 1);
            assert(one@ =~= seq![c]);
            out.append(one);
            i = i + 1;
        }
        assert(normalized(script@, sep@) =~= out@ + normalized(script@.skip(i as int), sep@));
    }
    assert(out@ + normalized(script@.skip(n as int), sep@) =~= out@);
    out
}

/// The initialization line used when the caller gives none.
fn default_init_line(shell: Shell) -> (r: String)
    ensures
        r@ == default_init(shell),
{
    match shell {
        Shell::Bash => init_line("source ~/.bashrc", shell),
        Shell::Zsh => init_line("source ~/.zshrc", shell),
        Shell::Cmd => String::from_str("@echo off"),
        _ => String::new(),
    }
}

/// The script text for a command and an initialization text that is already
/// trimmed: a blank one counts as none.
pub fn compose(shell: Shell, cmd: &str, trimmed_init: Option<&str>) -> (r: String)
    ensures
        r@ == script_body(shell, cmd@, opt_view(trimmed_init)),
{
    let mut raw = match trimmed_init {
        Some(t) => if t.is_empty() {
            default_init_line(shell)
        } else {
            init_line(t, shell)
        },
        None => default_init_line(shell),
    };
    raw.append("\n");
    raw.append(cmd);
    fix_newlines(shell, raw.as_str())
}

/// The script text for a command and an optional initialization text, which
/// is trimmed first.
pub fn script_text(shell: Shell, cmd: &str, init: Option<&str>) -> (r: String)
    ensures
        r@ == script_body(
            shell,
            cmd@,
            match init {
                Some(i) => Some(trimmed(i@)),
                None => None,
            },
        ),
{
    match init {
        Some(i) => compose(shell, cmd, Some(trim(i))),
        None => compose(shell, cmd, None),
    }
}

/// A script ready to be handed to the shell.
pub enum Script {
    /// Normalized text passed as one argument.
    Inline { raw: String, shell: Shell },
    /// A temporary file holding the normalized text; deleted when dropped.
    File(tempfile::TempPath),
}

impl Script {
    /// Whether `a` is the argument that hands this script to the shell.
    pub open spec fn delivered_by(&self, a: Argument<'_>) -> bool {
        match self {
            Script::Inline { raw, shell } => if *shell == Shell::Wsl {
                a matches Argument::Raw(t) && t@ == raw@
            } else {
                a matches Argument::Normal(t) && t@ == raw@
            },
            Script::File(_) => a is Path,
        }
    }

    /// The script argument: raw text for the Linux subsystem bridge, whose
    /// argument layer would otherwise re-escape embedded quotes; normal text
    /// for the other inline scripts; the file's path otherwise.
    pub fn argument(&self) -> (r: Argument<'_>)
        ensures
            self.delivered_by(r),
    {
        match self {
            Script::Inline { raw, shell } => match shell {
                Shell::Wsl => Argument::Raw(raw.as_str()),
                _ => Argument::Normal(raw.as_str()),
            },
            Script::File(path) => Argument::Path(temp_file_path(path)),
        }
    }
}

} // verus!
