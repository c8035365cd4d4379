//! Derivation of the filesystem locations that belong to a named environment.
//!
//! Every environment lives at `{home}/.symbiotic/{name}`; its interpreter,
//! package installer, deployed payload and generated launcher all sit in the
//! `bin` directory below that path. Path derivation is pure: the result is a
//! function of the home directory and the logical name alone.

use vstd::prelude::*;
use vstd::string::*;

verus! {

/// Path of the environment named `name`: `{home}/.symbiotic/{name}`.
pub open spec fn venv_path_spec(home: Seq<char>, name: Seq<char>) -> Seq<char> {
    home + "/.symbiotic/"@ + name
}

/// Path of the package installer inside the environment.
pub open spec fn pip_path_spec(venv: Seq<char>) -> Seq<char> {
    venv + "/bin/pip"@
}

/// Path of the interpreter inside the environment.
pub open spec fn python_path_spec(venv: Seq<char>) -> Seq<char> {
    venv + "/bin/python"@
}

/// Path at which the server payload is deployed.
pub open spec fn payload_path_spec(venv: Seq<char>) -> Seq<char> {
    venv + "/bin/symbiotic.py"@
}

/// Path of the generated launcher script.
pub open spec fn script_path_spec(venv: Seq<char>) -> Seq<char> {
    venv + "/bin/run.sh"@
}

/// The `bin` directory of the environment.
pub open spec fn bin_dir_spec(venv: Seq<char>) -> Seq<char> {
    venv + "/bin"@
}

/// A logical name is used as a single path segment under the home directory,
/// so it must be non-empty and must contain neither a path separator nor a
/// traversal sequence (two adjacent dots).
pub open spec fn valid_name(name: Seq<char>) -> bool {
    &&& name.len() > 0
    &&& forall|i: int| 0 <= i < name.len() ==> #[trigger] name[i] != '/'
    &&& forall|i: int|
        0 <= i && i + 1 < name.len() ==> !(#[trigger] name[i] == '.' && name[i + 1] == '.')
}

/// Derive the environment path for `name` under `home`.
///
/// The result is pinned to `venv_path_spec`, a function of the two arguments
/// alone, so the derivation is pure and deterministic.
pub fn venv_path(home: &str, name: &str) -> (r: String)
    ensures
        r@ == venv_path_spec(home@, name@),
{
    let mut r = String::from_str(home);
    r.append("/.symbiotic/");
    r.append(name);
    r
}

/// Path derivation is deterministic: any two results obtained for the same
/// home directory and the same name are the same path.
pub proof fn lemma_venv_path_deterministic(
    home: Seq<char>,
    name: Seq<char>,
    r1: Seq<char>,
    r2: Seq<char>,
)
    requires
        r1 == venv_path_spec(home, name),
        r2 == venv_path_spec(home, name),
    ensures
        r1 == r2,
{
}

/// Location of the package installer inside the environment at `venv`.
pub fn pip_path(venv: &str) -> (r: String)
    ensures
        r@ == pip_path_spec(venv@),
{
    let mut r = String::from_str(venv);
    r.append("/bin/pip");
    r
}

/// Location of the interpreter inside the environment at `venv`.
pub fn python_path(venv: &str) -> (r: String)
    ensures
        r@ == python_path_spec(venv@),
{
    let mut r = String::from_str(venv);
    r.append("/bin/python");
    r
}

/// Location at which the server payload is deployed inside `venv`.
pub fn payload_path(venv: &str) -> (r: String)
    ensures
        r@ == payload_path_spec(venv@),
{
    let mut r = String::from_str(venv);
    r.append("/bin/symbiotic.py");
    r
}

/// Location of the generated launcher script inside `venv`.
pub fn script_path(venv: &str) -> (r: String)
    ensures
        r@ == script_path_spec(venv@),
{
    let mut r = String::from_str(venv);
    r.append("/bin/run.sh");
    r
}

/// The `bin` directory of the environment at `venv`.
pub fn bin_dir(venv: &str) -> (r: String)
    ensures
        r@ == bin_dir_spec(venv@),
{
    let mut r = String::from_str(venv);
    r.append("/bin");
    r
}

/// Decide whether `name` may be used as an environment name.
pub fn is_valid_name(name: &str) -> (r: bool)
    ensures
        r == valid_name(name@),
{
    let n = name.unicode_len();
    if n == 0 {
        return false;
    }
    let mut i: usize = 0;
    let mut prev_dot = false;
    while i < n
        invariant
            n == name@.len(),
            0 <= i <= n,
            forall|j: int| 0 <= j < i ==> #[trigger] name@[j] != '/',
            forall|j: int|
                0 <= j && j + 1 < i ==> !(#[trigger] name@[j] == '.' && name@[j + 1] == '.'),
            prev_dot == (i > 0 && name@[i - 1] == '.'),
        decreases n - i,
    {
        let c = name.get_char(i);
        if c == '/' {
            return false;
        }
        if c == '.' && prev_dot {
            return false;
        }
        prev_dot = c == '.';
        i = i + 1;
    }
    true
}

} // verus!
