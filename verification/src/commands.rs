//! Synthesis of the commands that provision and remove an environment.
//!
//! The library never runs a subprocess itself. It builds the exact command
//! line, or the exact program-and-arguments invocation, and hands it to the
//! caller; the caller runs it and reports the textual outcome back.

use vstd::prelude::*;
use vstd::string::*;
use crate::paths::pip_path_spec;
use crate::paths::pip_path;

verus! {

/// Command line that creates the environment at `venv`.
pub open spec fn venv_create_command_spec(venv: Seq<char>) -> Seq<char> {
    "python -m venv "@ + venv
}

/// Command line that recursively removes the environment at `venv`.
pub open spec fn remove_command_spec(venv: Seq<char>) -> Seq<char> {
    "rm -rf "@ + venv
}

/// A program to run with its arguments, through the host's command
/// interpreter or directly, together with one environment variable to set for
/// the child.
pub struct Invocation {
    pub program: String,
    pub args: Vec<String>,
    pub env: Vec<(String, String)>,
}

/// `inv` runs the package installer of the environment at `venv` to install
/// `package`, with the installer's working context (`VIRTUAL_ENV`) set to the
/// environment path.
pub open spec fn is_pip_invocation(inv: Invocation, venv: Seq<char>, package: Seq<char>) -> bool {
    &&& inv.program@ == pip_path_spec(venv)
    &&& inv.args@.len() == 2
    &&& inv.args@[0]@ == "install"@
    &&& inv.args@[1]@ == package
    &&& inv.env@.len() == 1
    &&& inv.env@[0].0@ == "VIRTUAL_ENV"@
    &&& inv.env@[0].1@ == venv
}

/// `inv` runs `command` through the host's command interpreter: `cmd /C` on
/// Windows, `sh -c` elsewhere. No environment variable is set for the child.
pub open spec fn is_shell_invocation(inv: Invocation, windows: bool, command: Seq<char>) -> bool {
    &&& inv.program@ == if windows {
        "cmd"@
    } else {
        "sh"@
    }
    &&& inv.args@.len() == 2
    &&& inv.args@[0]@ == if windows {
        "/C"@
    } else {
        "-c"@
    }
    &&& inv.args@[1]@ == command
    &&& inv.env@.len() == 0
}

/// Build the command line that creates the environment at `venv`.
pub fn venv_create_command(venv: &str) -> (r: String)
    ensures
        r@ == venv_create_command_spec(venv@),
{
    let mut r = String::from_str("python -m venv ");
    r.append(venv);
    r
}

/// Build the command line that recursively removes the environment at `venv`.
pub fn remove_command(venv: &str) -> (r: String)
    ensures
        r@ == remove_command_spec(venv@),
{
    let mut r = String::from_str("rm -rf ");
    r.append(venv);
    r
}

/// Build the invocation that installs `package` into the environment at
/// `venv` with the environment's own installer binary.
pub fn pip_invocation(venv: &str, package: &str) -> (r: Invocation)
    ensures
        is_pip_invocation(r, venv@, package@),
{
    let program = pip_path(venv);
    let mut args: Vec<String> = Vec::new();
    args.push(String::from_str("install"));
    args.push(String::from_str(package));
    let mut env: Vec<(String, String)> = Vec::new();
    env.push((String::from_str("VIRTUAL_ENV"), String::from_str(venv)));
    Invocation { program, args, env }
}

/// Build the invocation that runs `command` through the host's command
/// interpreter, `cmd /C` on Windows and `sh -c` elsewhere.
pub fn shell_invocation(windows: bool, command: &str) -> (r: Invocation)
    ensures
        is_shell_invocation(r, windows, command@),
{
    let program = if windows {
        String::from_str("cmd")
    } else {
        String::from_str("sh")
    };
    let flag = if windows {
        String::from_str("/C")
    } else {
        String::from_str("-c")
    };
    let mut args: Vec<String> = Vec::new();
    args.push(flag);
    args.push(String::from_str(command));
    let env: Vec<(String, String)> = Vec::new();
    Invocation { program, args, env }
}

/// Collapse a removal outcome into the text handed back to the caller: the
/// command's captured output on success, the error text otherwise. Success
/// and failure are distinguished only by content, never by a separate status.
pub fn merge_outcome_text(result: Result<String, String>) -> (r: String)
    ensures
        r@ == match result {
            Result::Ok(out) => out@,
            Result::Err(err) => err@,
        },
{
    match result {
        Result::Ok(out) => out,
        Result::Err(err) => err,
    }
}

} // verus!
