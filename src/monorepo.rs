//! Recognizing a monorepo and its workspace from a directory listing.
use vstd::prelude::*;

verus! {

/// `name` is one of the files that mark the root of a monorepo.
pub open spec fn is_marker(name: Seq<char>) -> bool {
    ||| name == "pnpm-workspace.yaml"@
    ||| name == "lerna.json"@
    ||| name == "rush.json"@
    ||| name == "pnpm-lock.yaml"@
}

pub open spec fn lists(entries: Seq<String>, name: Seq<char>) -> bool {
    exists|i: int| 0 <= i < entries.len() && #[trigger] entries[i]@ == name
}

fn contains_name(entries: &Vec<String>, name: &str) -> (r: bool)
    ensures
        r == lists(entries@, name@),
{
    let key = String::from_str(name);
    let mut i: usize = 0;
    while i < entries.len()
        invariant
            i <= entries@.len(),
            key@ == name@,
            forall|j: int| 0 <= j < i ==> #[trigger] entries@[j]@ != name@,
        decreases entries@.len() - i,
    {
        if entries[i] == key {
            return true;
        }
        i = i + 1;
    }
    false
}

/// Whether a directory whose entries are named `entries` is a monorepo root.
pub fn is_monorepo(entries: &Vec<String>) -> (r: bool)
    ensures
        r == exists|i: int| 0 <= i < entries@.len() && is_marker(#[trigger] entries@[i]@),
{
    let r = contains_name(entries, "pnpm-workspace.yaml") || contains_name(entries, "lerna.json")
        || contains_name(entries, "rush.json") || contains_name(entries, "pnpm-lock.yaml");
    assert(r == exists|i: int| 0 <= i < entries@.len() && is_marker(#[trigger] entries@[i]@)) by {
        if r {
        } else {
            assert forall|i: int| 0 <= i < entries@.len() implies !is_marker(#[trigger] entries@[i]@) by {
                assert(entries@[i]@ != "pnpm-workspace.yaml"@);
                assert(entries@[i]@ != "lerna.json"@);
                assert(entries@[i]@ != "rush.json"@);
                assert(entries@[i]@ != "pnpm-lock.yaml"@);
            }
        }
    }
    r
}

/// The default workspace of a monorepo whose root entries are named
/// `entries`: `apps` when it is there, else `packages` when that is there,
/// else `apps`.
pub fn get_default_workspace(entries: &Vec<String>) -> (r: String)
    ensures
        r@ == if lists(entries@, "apps"@) {
            "apps"@
        } else if lists(entries@, "packages"@) {
            "packages"@
        } else {
            "apps"@
        },
{
    if contains_name(entries, "apps") {
        String::from_str("apps")
    } else if contains_name(entries, "packages") {
        String::from_str("packages")
    } else {
        String::from_str("apps")
    }
}

/// The workspace to create an application in. A requested workspace is kept
/// when it is a directory and replaced by the default of the root listing
/// `entries` when it is not; with no request there is nothing to decide yet
/// (`None`) and the user is asked, with that default offered.
pub fn resolve_workspace(requested: Option<String>, requested_is_dir: bool, entries: &Vec<String>) -> (r:
    Option<String>)
    ensures
        requested is None ==> r is None,
        requested is Some && requested_is_dir ==> r == requested,
        requested is Some && !requested_is_dir ==> r is Some && r->Some_0@ == (if lists(entries@, "apps"@) {
            "apps"@
        } else if lists(entries@, "packages"@) {
            "packages"@
        } else {
            "apps"@
        }),
{
    match requested {
        None => None,
        Some(ws) => if requested_is_dir {
            Some(ws)
        } else {
            Some(get_default_workspace(entries))
        },
    }
}

} // verus!
