//! The command line: what the arguments ask for.
use vstd::prelude::*;

use crate::text::chars_of;

verus! {

/// What the program is asked to do.
#[derive(Debug, Clone, Copy, PartialEq, Eq, Structural)]
pub enum CliCommand {
    /// Send the toggle signal to the running applet (`--toggle` or `-t`).
    Toggle,
    /// Print the usage (`--help` or `-h`).
    Help,
    /// Run the applet.
    Run,
}

/// The command that one argument asks for, if any.
pub open spec fn command_of_arg(a: Seq<char>) -> Option<CliCommand> {
    if a == seq!['-', '-', 't', 'o', 'g', 'g', 'l', 'e'] || a == seq!['-', 't'] {
        Some(CliCommand::Toggle)
    } else if a == seq!['-', 'h'] || a == seq!['-', '-', 'h', 'e', 'l', 'p'] {
        Some(CliCommand::Help)
    } else {
        None
    }
}

/// The command of the first argument at or after `i` that asks for one, or `Run`.
pub open spec fn command_from(args: Seq<String>, i: int) -> CliCommand
    decreases args.len() - i,
{
    if i < 0 || i >= args.len() {
        CliCommand::Run
    } else {
        match command_of_arg(args[i]@) {
            Some(c) => c,
            None => command_from(args, i + 1),
        }
    }
}

/// Whether the characters of `a` are exactly those of `lit`.
fn is_arg(a: &[char], lit: &str) -> (r: bool)
    ensures
        r == (a@ == lit@),
{
    let l = chars_of(lit);
    if a.len() != l.len() {
        return false;
    }
    let mut i: usize = 0;
    while i < a.len()
        invariant
            a@.len() == l@.len(),
            l@ == lit@,
            i <= a@.len(),
            forall|k: int| 0 <= k < i ==> a@[k] == l@[k],
        decreases a@.len() - i,
    {
        if a[i] != l[i] {
            return false;
        }
        i = i + 1;
    }
    assert(a@ =~= l@);
    true
}

/// The command one argument asks for.
fn command_of(arg: &String) -> (r: Option<CliCommand>)
    ensures
        r == command_of_arg(arg@),
{
    proof {
        reveal_strlit("--toggle");
        reveal_strlit("-t");
        reveal_strlit("-h");
        reveal_strlit("--help");
        assert("--toggle"@ =~= seq!['-', '-', 't', 'o', 'g', 'g', 'l', 'e']);
        assert("-t"@ =~= seq!['-', 't']);
        assert("-h"@ =~= seq!['-', 'h']);
        assert("--help"@ =~= seq!['-', '-', 'h', 'e', 'l', 'p']);
    }
    let a = chars_of(arg.as_str());
    if is_arg(a.as_slice(), "--toggle") || is_arg(a.as_slice(), "-t") {
        Some(CliCommand::Toggle)
    } else if is_arg(a.as_slice(), "-h") || is_arg(a.as_slice(), "--help") {
        Some(CliCommand::Help)
    } else {
        None
    }
}

/// What the arguments (without the program name) ask for: the first one
/// that is `--toggle`, `-t`, `-h` or `--help` decides; otherwise the applet runs.
pub fn cli_command(args: &Vec<String>) -> (r: CliCommand)
    ensures
        r == command_from(args@, 0),
{
    let mut i: usize = 0;
    while i < args.len()
        invariant
            i <= args@.len(),
            command_from(args@, 0) == command_from(args@, i as int),
        decreases args@.len() - i,
    {
        match command_of(&args[i]) {
            Some(c) => {
                return c;
            },
            None => {},
        }
        i = i + 1;
    }
    CliCommand::Run
}

} // verus!
