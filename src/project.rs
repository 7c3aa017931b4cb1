//! Creating a Vue project from the answers to its questions.
use vstd::prelude::*;
use crate::config::{join_path, path_join};
use crate::template::TemplateInfo;

verus! {

/// The answers that shape a Vue project.
#[derive(Debug, Clone)]
pub struct VueProject {
    /// Whether the project is a monorepo.
    pub use_monorepo: bool,
    /// Workspace directory of the monorepo's applications.
    pub working_name: Option<String>,
    /// Whether a test framework is wanted.
    pub use_test: bool,
    /// Whether a first application is wanted.
    pub use_sub_project: bool,
    /// Name of the first application.
    pub sub_project_name: Option<String>,
}

/// One directory copy: the tree of `source` into `dest`.
#[derive(Debug, Clone, PartialEq, Eq)]
pub struct CopyJob {
    pub source: String,
    pub dest: String,
}

/// The workspace name, or nothing when none was given.
pub open spec fn working_name_text(o: Option<String>) -> Seq<char> {
    match o {
        Some(s) => s@,
        None => Seq::empty(),
    }
}

/// The copies that create a Vue project called `project_name` from
/// `template_info`: for a monorepo, its base into the project directory, then
/// its application template into the workspace; nothing otherwise.
pub fn create_vue(project_name: &str, template_info: &TemplateInfo, vue: &VueProject) -> (r: Vec<CopyJob>)
    ensures
        !vue.use_monorepo ==> r@.len() == 0,
        vue.use_monorepo ==> {
            &&& r@.len() == 2
            &&& r@[0].source@ == path_join(template_info.path@, "monorepo"@)
            &&& r@[0].dest@ == project_name@
            &&& r@[1].source@ == path_join(template_info.path@, "apps"@)
            &&& r@[1].dest@ == path_join(project_name@, working_name_text(vue.working_name))
        },
{
    let mut jobs: Vec<CopyJob> = Vec::new();
    if vue.use_monorepo {
        let working_name = match &vue.working_name {
            Some(name) => name.clone(),
            None => String::new(),
        };
        jobs.push(CopyJob {
            source: join_path(template_info.path.as_str(), "monorepo"),
            dest: String::from_str(project_name),
        });
        jobs.push(CopyJob {
            source: join_path(template_info.path.as_str(), "apps"),
            dest: join_path(project_name, working_name.as_str()),
        });
    }
    jobs
}

} // verus!
