//! The ways in which a sync or a materialization fails.
use vstd::prelude::*;

verus! {

#[derive(Debug, Clone, PartialEq, Eq)]
pub enum ScaffoldError {
    /// The remote repository could not be fetched into `dest`.
    Fetch { url: String, dest: String, cause: String },
    /// Copying `source` into `target` did not complete.
    Copy { source: String, target: String, cause: String },
    /// The manifest at `path` is not a valid template manifest.
    ManifestParse { path: String, cause: String },
    /// The catalog holds no template.
    EmptyCatalog,
    /// No template of the catalog is called `name`.
    NotFound { name: String },
    /// The project directory `path` exists already.
    TargetExists { path: String },
    /// The template content root `path` is gone.
    SourceMissing { path: String },
    /// A file system operation on `path` failed.
    Io { path: String, cause: String },
}

} // verus!
