//! The remote repository that templates are fetched from.
use vstd::prelude::*;

verus! {

/// A remote repository, known by its URL.
#[derive(Debug, Clone)]
pub struct GitRepo {
    pub url: String,
}

impl GitRepo {
    pub fn new(url: &str) -> (r: GitRepo)
        ensures
            r.url@ == url@,
    {
        GitRepo { url: String::from_str(url) }
    }

    /// The arguments of the version-control client that clone this
    /// repository into `target_dir`.
    pub fn clone_args(&self, target_dir: &str) -> (r: Vec<String>)
        ensures
            r@.len() == 3,
            r@[0]@ == "clone"@,
            r@[1]@ == self.url@,
            r@[2]@ == target_dir@,
    {
        let mut args: Vec<String> = Vec::new();
        args.push(String::from_str("clone"));
        args.push(self.url.clone());
        args.push(String::from_str(target_dir));
        args
    }
}

} // verus!
