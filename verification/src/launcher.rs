//! Rendering of the launcher script deployed into an environment.
//!
//! The launcher is a POSIX shell script written to `{venv}/bin/run.sh`. It
//! exports the environment's variables and starts the server payload with the
//! environment's own interpreter, detached (`nohup ... &`), passing the host
//! service's port, the active database name and the environment name as
//! arguments. The script's content is a function of those values alone; it is
//! regenerated on every deploy and overwrites any earlier version.

use vstd::prelude::*;
use vstd::string::*;
use crate::paths::bin_dir_spec;
use crate::paths::payload_path_spec;
use crate::paths::python_path_spec;

verus! {

/// The exact launcher text for the environment at `venv`, parameterized with
/// the host service's `port`, the active database name `db` and the logical
/// environment `name`.
pub open spec fn launcher_script_spec(
    venv: Seq<char>,
    port: Seq<char>,
    db: Seq<char>,
    name: Seq<char>,
) -> Seq<char> {
    "#!/usr/bin/env sh\nexport VIRTUALENV="@ + bin_dir_spec(venv) + "\nexport PATH="@ + venv
        + ":$PATH\n\nnohup "@ + python_path_spec(venv) + " "@ + payload_path_spec(venv) + " "@
        + port + " "@ + db + " "@ + name + " &\n"@
}

/// Render the launcher script for the environment at `venv`.
pub fn render_launcher(venv: &str, port: &str, db: &str, name: &str) -> (r: String)
    ensures
        r@ == launcher_script_spec(venv@, port@, db@, name@),
{
    let mut r = String::from_str("#!/usr/bin/env sh\nexport VIRTUALENV=");
    r.append(venv);
    r.append("/bin");
    r.append("\nexport PATH=");
    r.append(venv);
    r.append(":$PATH\n\nnohup ");
    r.append(venv);
    r.append("/bin/python");
    r.append(" ");
    r.append(venv);
    r.append("/bin/symbiotic.py");
    r.append(" ");
    r.append(port);
    r.append(" ");
    r.append(db);
    r.append(" ");
    r.append(name);
    r.append(" &\n");
    proof {
        assert(r@ =~= launcher_script_spec(venv@, port@, db@, name@));
    }
    r
}

} // verus!
