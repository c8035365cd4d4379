//! A ghost model of the filesystem effects of creating and destroying an
//! environment.
//!
//! The filesystem is modelled as the set of paths that exist. Creating an
//! environment only ever adds paths under the environment's own root;
//! destroying it removes the whole tree at that root, recursively. The lemmas
//! here state what spec-level behaviour follows: removal leaves no path of
//! the tree behind, removing an absent tree changes nothing, removal is
//! idempotent, and a create followed by a destroy restores the filesystem
//! that was there before.

use vstd::prelude::*;
use crate::paths::bin_dir_spec;
use crate::paths::payload_path_spec;
use crate::paths::pip_path_spec;
use crate::paths::python_path_spec;
use crate::paths::script_path_spec;

verus! {

/// `p` lies inside the tree rooted at `root` (the root itself included).
pub open spec fn is_under(p: Seq<char>, root: Seq<char>) -> bool {
    root.is_prefix_of(p)
}

/// The filesystem after recursively removing the tree at `root`: every path
/// under `root` is gone, every other path is untouched.
pub open spec fn remove_tree(fs: Set<Seq<char>>, root: Seq<char>) -> Set<Seq<char>> {
    fs.filter(|p: Seq<char>| !is_under(p, root))
}

/// Some path of `fs` lies under `root`.
pub open spec fn exists_under(fs: Set<Seq<char>>, root: Seq<char>) -> bool {
    exists|p: Seq<char>| #[trigger] fs.contains(p) && is_under(p, root)
}

/// After removing the tree at `root`, no path under `root` exists — in
/// particular the root itself does not exist afterwards.
pub proof fn lemma_remove_tree_removes(fs: Set<Seq<char>>, root: Seq<char>, p: Seq<char>)
    requires
        is_under(p, root),
    ensures
        !remove_tree(fs, root).contains(p),
{
}

/// Destroying an environment that does not exist is a no-op: when no path
/// lies under `root`, removal returns the filesystem unchanged, so it is not
/// an error at the model level.
pub proof fn lemma_remove_tree_absent_noop(fs: Set<Seq<char>>, root: Seq<char>)
    requires
        !exists_under(fs, root),
    ensures
        remove_tree(fs, root) == fs,
{
    assert(remove_tree(fs, root) =~= fs);
}

/// Removal is idempotent: destroying an already destroyed tree changes
/// nothing further.
pub proof fn lemma_remove_tree_idempotent(fs: Set<Seq<char>>, root: Seq<char>)
    ensures
        remove_tree(remove_tree(fs, root), root) == remove_tree(fs, root),
{
    assert(remove_tree(remove_tree(fs, root), root) =~= remove_tree(fs, root));
}

/// Round trip: if the environment's root was absent before, and creating it
/// added only paths under that root, then destroying it afterwards leaves the
/// filesystem exactly as it was before the creation.
pub proof fn lemma_create_then_destroy_round_trip(
    fs: Set<Seq<char>>,
    root: Seq<char>,
    created: Set<Seq<char>>,
)
    requires
        !exists_under(fs, root),
        forall|p: Seq<char>| #[trigger] created.contains(p) ==> is_under(p, root),
    ensures
        remove_tree(fs.union(created), root) == fs,
{
    assert(remove_tree(fs.union(created), root) =~= fs);
}

/// The paths a successful creation materializes inside the environment at
/// `venv`: the root and its `bin` directory, the interpreter and installer
/// placed by the environment tool, and the payload and launcher placed by the
/// deploy.
pub open spec fn created_artifacts(venv: Seq<char>) -> Set<Seq<char>> {
    set![
        venv,
        bin_dir_spec(venv),
        python_path_spec(venv),
        pip_path_spec(venv),
        payload_path_spec(venv),
        script_path_spec(venv),
    ]
}

/// After a successful creation, the environment's path exists and its tree
/// holds the interpreter, the installer, the deployed payload and the
/// generated launcher; and everything the creation added lies under the
/// environment's root, so the round-trip law applies to it.
pub proof fn lemma_created_environment_contents(fs: Set<Seq<char>>, venv: Seq<char>)
    ensures
        fs.union(created_artifacts(venv)).contains(venv),
        fs.union(created_artifacts(venv)).contains(python_path_spec(venv)),
        fs.union(created_artifacts(venv)).contains(pip_path_spec(venv)),
        fs.union(created_artifacts(venv)).contains(payload_path_spec(venv)),
        fs.union(created_artifacts(venv)).contains(script_path_spec(venv)),
        forall|p: Seq<char>| #[trigger] created_artifacts(venv).contains(p) ==> is_under(p, venv),
{
    lemma_artifacts_under_env(venv);
    assert(venv.take(venv.len() as int) =~= venv);
    assert((venv + "/bin"@).take(venv.len() as int) =~= venv);
}

/// Every artifact the workflows place in an environment lies inside the
/// environment's own tree, so destroying the environment removes all of them.
pub proof fn lemma_artifacts_under_env(venv: Seq<char>)
    ensures
        is_under(payload_path_spec(venv), venv),
        is_under(script_path_spec(venv), venv),
        is_under(python_path_spec(venv), venv),
        is_under(pip_path_spec(venv), venv),
{
    assert((venv + "/bin/symbiotic.py"@).take(venv.len() as int) =~= venv);
    assert((venv + "/bin/run.sh"@).take(venv.len() as int) =~= venv);
    assert((venv + "/bin/python"@).take(venv.len() as int) =~= venv);
    assert((venv + "/bin/pip"@).take(venv.len() as int) =~= venv);
}

} // verus!
