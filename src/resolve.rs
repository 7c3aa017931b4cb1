//! Picking a template out of the catalog, by name or by a selected index.
use vstd::prelude::*;
use crate::descriptor::ScaffoldConfig;
use crate::error::ScaffoldError;

verus! {

/// Some entry of `catalog` is called `name`.
pub open spec fn has_name(catalog: Seq<ScaffoldConfig>, name: Seq<char>) -> bool {
    exists|i: int| 0 <= i < catalog.len() && #[trigger] catalog[i].name@ == name
}

/// `i` is the first entry of `catalog` called `name`.
pub open spec fn is_first_named(catalog: Seq<ScaffoldConfig>, name: Seq<char>, i: int) -> bool {
    &&& 0 <= i < catalog.len()
    &&& catalog[i].name@ == name
    &&& forall|j: int| 0 <= j < i ==> #[trigger] catalog[j].name@ != name
}

/// Position of the first entry called `name`: duplicates are allowed, and the
/// first one in catalog order wins.
pub fn position_by_name(configs: &[ScaffoldConfig], name: &str) -> (r: Option<usize>)
    ensures
        match r {
            Some(i) => is_first_named(configs@, name@, i as int),
            None => !has_name(configs@, name@),
        },
{
    let key = String::from_str(name);
    let mut i: usize = 0;
    while i < configs.len()
        invariant
            i <= configs@.len(),
            key@ == name@,
            forall|j: int| 0 <= j < i ==> #[trigger] configs@[j].name@ != name@,
        decreases configs@.len() - i,
    {
        if configs[i].name == key {
            return Some(i);
        }
        i = i + 1;
    }
    None
}

/// The first template called `name`; `NotFound` when there is none, and
/// `EmptyCatalog` when the catalog is empty.
pub fn find_config_by_name(configs: &[ScaffoldConfig], name: &str) -> (r: Result<
    ScaffoldConfig,
    ScaffoldError,
>)
    ensures
        configs@.len() == 0 ==> r == Err::<ScaffoldConfig, ScaffoldError>(ScaffoldError::EmptyCatalog),
        configs@.len() > 0 ==> match r {
            Ok(c) => exists|i: int| is_first_named(configs@, name@, i) && c@ == configs@[i]@,
            Err(e) => !has_name(configs@, name@) && (e matches ScaffoldError::NotFound { name: n }
                && n@ == name@),
        },
        r is Ok <==> has_name(configs@, name@),
{
    if configs.len() == 0 {
        return Err(ScaffoldError::EmptyCatalog);
    }
    match position_by_name(configs, name) {
        Some(i) => Ok(configs[i].duplicate()),
        None => Err(ScaffoldError::NotFound { name: String::from_str(name) }),
    }
}

/// The template at the index that the prompt provider selected; `EmptyCatalog`
/// when there is nothing to select from.
pub fn select_config_interactive(configs: &[ScaffoldConfig], selection: usize) -> (r: Result<
    ScaffoldConfig,
    ScaffoldError,
>)
    requires
        configs@.len() == 0 || selection < configs@.len(),
    ensures
        configs@.len() == 0 ==> r == Err::<ScaffoldConfig, ScaffoldError>(ScaffoldError::EmptyCatalog),
        configs@.len() > 0 ==> r is Ok && r->Ok_0@ == configs@[selection as int]@,
{
    if configs.len() == 0 {
        return Err(ScaffoldError::EmptyCatalog);
    }
    Ok(configs[selection].duplicate())
}

} // verus!
