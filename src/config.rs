//! Fixed names of the on-disk layout and the paths built from them.
use vstd::prelude::*;

verus! {

/// Directory under the home directory that holds the template cache.
pub const SCAFFOLD_DIR_NAME: &'static str = "scaffold";

/// Name of the cache root inside the scaffold directory.
pub const CODES_DIR_NAME: &'static str = "codes";

/// Suffix of the sibling directory that a fetch is staged in.
pub const TEMP_DIR_SUFFIX: &'static str = "-temp";

/// File name of the manifest inside each template directory.
pub const SCAFFOLD_CONFIG_FILE: &'static str = "scaffold.json";

/// Directory under the home directory that holds the persisted catalog.
pub const HOME_SCAFFOLD_DIR: &'static str = ".scaffold";

/// Persisted catalog, relative to the home directory.
pub const HOME_SCAFFOLD_CONFIG: &'static str = ".scaffold/config.json";

/// Remote repository that the template cache mirrors.
pub const GITHUB_REPO_URL: &'static str = "https://github.com/casemcx/code-template";

/// `base` and `name` separated by one `/`.
pub open spec fn path_join(base: Seq<char>, name: Seq<char>) -> Seq<char> {
    base + seq!['/'] + name
}

/// The manifest file of the template directory `dir`.
pub open spec fn manifest_file_of(dir: Seq<char>) -> Seq<char> {
    path_join(dir, SCAFFOLD_CONFIG_FILE@)
}

/// `base` and `name` joined into one path.
pub fn join_path(base: &str, name: &str) -> (r: String)
    ensures
        r@ == path_join(base@, name@),
{
    let mut r = String::from_str(base);
    r.append("/");
    proof {
        reveal_strlit("/");
    }
    r.append(name);
    r
}

/// Path of the manifest file inside the template directory `dir`.
pub fn manifest_path(dir: &str) -> (r: String)
    ensures
        r@ == manifest_file_of(dir@),
{
    join_path(dir, SCAFFOLD_CONFIG_FILE)
}

} // verus!
