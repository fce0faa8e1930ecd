//! Where a plugin's files live.
//!
//! All plugins are unpacked below one root directory, each into the
//! subdirectory that bears its name.

use vstd::prelude::*;
use vstd::string::StringExecFns;

verus! {

/// The name of the root directory, below the system's directory for
/// temporary files.
pub const ROOT_DIRECTORY: &'static str = "vplugin";

/// The path of the entry called `name` in the directory `root`; for a
/// plugin's name, the plugin's directory below the root directory.
pub open spec fn directory_of(root: Seq<char>, name: Seq<char>) -> Seq<char> {
    root + seq!['/'] + name
}

/// Whether `path` is `directory` or lies below it.
pub open spec fn within(path: Seq<char>, directory: Seq<char>) -> bool {
    ||| path == directory
    ||| (path.len() > directory.len() && path.subrange(0, directory.len() as int) == directory
        && path[directory.len() as int] == '/')
}

/// Whether `name` is a single component of a path: not empty, and without
/// a separator.
pub open spec fn single_component(name: Seq<char>) -> bool {
    name.len() > 0 && forall|i: int| 0 <= i < name.len() ==> #[trigger] name[i] != '/'
}

/// The path of the entry called `name` in the directory `root`; for a
/// plugin's name, the plugin's directory below the root directory.
pub fn plugin_directory(root: &str, name: &str) -> (r: String)
    ensures
        r@ == directory_of(root@, name@),
{
    proof {
        reveal_strlit("/");
        assert("/"@ =~= seq!['/']);
    }
    String::from_str(root).concat("/").concat(name)
}

/// Plugins with different names have directories of their own: no path
/// lies in or below both, so removing one plugin's directory touches no
/// file of the other. This holds of names that are single components; a
/// name with a separator in it lies below the directory of another.
pub proof fn directories_are_disjoint(
    root: Seq<char>,
    a: Seq<char>,
    b: Seq<char>,
    path: Seq<char>,
)
    requires
        single_component(a),
        single_component(b),
        a != b,
        within(path, directory_of(root, a)),
    ensures
        !within(path, directory_of(root, b)),
{
    let da = directory_of(root, a);
    let db = directory_of(root, b);
    let base: int = root.len() as int + 1;
    assert(da.len() == base + a.len());
    assert(db.len() == base + b.len());
    if within(path, db) {
        assert(path.subrange(0, da.len() as int) == da);
        assert(path.subrange(0, db.len() as int) == db);
        assert forall|i: int| 0 <= i < a.len() implies path[base + i] == a[i] by {
            assert(path.subrange(0, da.len() as int)[base + i] == da[base + i]);
        }
        assert forall|i: int| 0 <= i < b.len() implies path[base + i] == b[i] by {
            assert(path.subrange(0, db.len() as int)[base + i] == db[base + i]);
        }
        if a.len() == b.len() {
            assert(a =~= b);
        } else if a.len() < b.len() {
            assert(path[base + a.len() as int] == b[a.len() as int]);
            assert(path[da.len() as int] == '/');
        } else {
            assert(path[base + b.len() as int] == a[b.len() as int]);
            assert(path[db.len() as int] == '/');
        }
    }
}

} // verus!
