use vstd::prelude::*;

use crate::environment::Platform;
use vstd::std_specs::iter::IteratorSpec;

verus! {

broadcast use vstd::string::axiom_spec_iter, vstd::string::next_postcondition;

/// The characters that only a shell can make sense of.
pub open spec fn is_shell_char(c: char) -> bool {
    c == '|' || c == '&' || c == ';' || c == '<' || c == '>' || c == '(' || c == ')' || c == '$'
        || c == '`' || c == '"' || c == '\'' || c == ' ' || c == '\t' || c == '\n' || c == '*'
        || c == '?' || c == '[' || c == '#' || c == '~' || c == '=' || c == '%'
}

/// A command line needs a shell when it holds shell syntax, or when it names
/// an absolute path that does not exist (so it cannot be a program).
pub open spec fn spec_needs_shell(command: Seq<char>, missing_absolute_path: bool) -> bool {
    (exists|i: int| 0 <= i < command.len() && is_shell_char(command[i])) || missing_absolute_path
}

pub fn shell_char(c: char) -> (r: bool)
    ensures
        r == is_shell_char(c),
{
    c == '|' || c == '&' || c == ';' || c == '<' || c == '>' || c == '(' || c == ')' || c == '$'
        || c == '`' || c == '"' || c == '\'' || c == ' ' || c == '\t' || c == '\n' || c == '*'
        || c == '?' || c == '[' || c == '#' || c == '~' || c == '=' || c == '%'
}

/// Whether `command` has to be run through a shell; `missing_absolute_path`
/// tells whether it is an absolute path to nothing.
pub fn needs_shell(command: &str, missing_absolute_path: bool) -> (r: bool)
    ensures
        r == spec_needs_shell(command@, missing_absolute_path),
{
    let mut chars = command.chars();
    let ghost mut idx: int = 0;
    loop
        invariant
            0 <= idx <= command@.len(),
            chars.remaining() == command@.subrange(idx, command@.len() as int),
            forall|j: int| 0 <= j < idx ==> !is_shell_char(command@[j]),
        ensures
            forall|j: int| 0 <= j < command@.len() ==> !is_shell_char(command@[j]),
        decreases command@.len() - idx,
    {
        let ghost before = chars.remaining();
        match chars.next() {
            Some(c) => {
                if shell_char(c) {
                    assert(command@[idx] == c);
                    return true;
                }
                proof {
                    idx = idx + 1;
                }
            },
            None => {
                assert(before.len() == 0);
                break;
            },
        }
    }
    missing_absolute_path
}

/// How a system command is run: the program, its arguments, and whether the
/// arguments are handed over verbatim rather than quoted.
#[derive(Clone, Debug, PartialEq, Eq)]
pub struct SystemCommand {
    pub program: String,
    pub args: Vec<String>,
    pub raw_args: bool,
}

/// The shell of `platform`: the command interpreter named by `comspec` or
/// `cmd.exe` on Windows, `/bin/sh` elsewhere.
pub open spec fn spec_shell_program(platform: Platform, comspec: Option<String>) -> Seq<char> {
    if platform is Windows {
        match comspec {
            Some(p) => p@,
            None => "cmd.exe"@,
        }
    } else {
        "/bin/sh"@
    }
}

/// Builds the way to run `command`: directly when it needs no shell, else as
/// the argument of the platform's shell (`/c` on Windows, verbatim; `-c`
/// elsewhere).
pub fn new_system_command(
    command: String,
    platform: &Platform,
    comspec: Option<String>,
    missing_absolute_path: bool,
) -> (r: SystemCommand)
    ensures
        !spec_needs_shell(command@, missing_absolute_path) ==> {
            &&& r.program@ == command@
            &&& r.args@.len() == 0
            &&& !r.raw_args
        },
        spec_needs_shell(command@, missing_absolute_path) ==> {
            &&& r.program@ == spec_shell_program(*platform, comspec)
            &&& r.args@.len() == 2
            &&& r.args@[0]@ == (if *platform is Windows { "/c"@ } else { "-c"@ })
            &&& r.args@[1]@ == command@
            &&& r.raw_args == (*platform is Windows)
        },
{
    if !needs_shell(command.as_str(), missing_absolute_path) {
        return SystemCommand { program: command, args: Vec::new(), raw_args: false };
    }
    let windows = match platform {
        Platform::Windows => true,
        _ => false,
    };
    let program = if windows {
        match comspec {
            Some(p) => p,
            None => "cmd.exe".to_owned(),
        }
    } else {
        "/bin/sh".to_owned()
    };
    let flag = if windows {
        "/c".to_owned()
    } else {
        "-c".to_owned()
    };
    let mut args: Vec<String> = Vec::new();
    args.push(flag);
    args.push(command);
    SystemCommand { program, args, raw_args: windows }
}

} // verus!
