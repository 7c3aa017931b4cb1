//! Materializing a template of the catalog into a new project directory.
//!
//! A materialization is a session: each call hands back the next prompt or file
//! system operation, and the caller hands back its result. The project directory
//! is never overwritten: nothing is copied until the target was reported absent
//! and the template's content root present. A failed repository initialization
//! does not undo the copied project.
use vstd::prelude::*;
use crate::config::{join_path, path_join, HOME_SCAFFOLD_CONFIG};
use crate::descriptor::ScaffoldConfig;
use crate::error::ScaffoldError;
use crate::resolve::{has_name, is_first_named, position_by_name};

verus! {

/// Where a materialization reads the catalog and creates the project.
#[derive(Debug)]
pub struct NewHandler {
    pub home_dir: String,
    /// The directory that the project directory is created in.
    pub current_dir: String,
    /// The persisted catalog.
    pub config_file: String,
}

#[derive(Debug, Clone, Copy, PartialEq, Eq, Structural)]
pub enum CreatePhase {
    /// Waiting for the prompt provider to select a template.
    Selecting,
    /// Waiting for the project name.
    Naming,
    /// Waiting to learn whether the project directory exists.
    CheckingTarget,
    /// Waiting to learn whether the template's content root exists.
    CheckingSource,
    /// Waiting for the copy of the template.
    Copying,
    /// Waiting for the repository initialization.
    InitializingRepo,
    /// The materialization is over.
    Finished,
}

/// The next step of a materialization.
#[derive(Debug, PartialEq, Eq)]
pub enum CreateAction {
    /// Ask the prompt provider to select one template of the catalog, by index.
    SelectTemplate,
    /// Ask for the project name, offering `default`.
    AskProjectName { default: String },
    /// Report whether `path`, the project directory, exists.
    CheckTarget { path: String },
    /// Report whether `path`, the template's content root, exists.
    CheckSource { path: String },
    /// Create `target` and copy the content of `source` into it.
    Copy { source: String, target: String },
    /// Initialize a repository in `path`; a failure there is only a warning.
    InitRepo { path: String },
    /// The materialization is over: whether the repository was initialized, or
    /// why it failed.
    Finish { outcome: Result<bool, ScaffoldError> },
}

/// What came of the last step.
#[derive(Debug, PartialEq, Eq)]
pub enum CreateEvent {
    /// The index that the prompt provider selected.
    Selected(usize),
    /// The project name that was entered.
    Named(String),
    /// Whether the checked path exists.
    Exists(bool),
    /// How the copy or the repository initialization went.
    Completed(Result<(), String>),
}

/// A materialization in progress.
#[derive(Debug)]
pub struct CreateSession {
    pub handler: NewHandler,
    pub catalog: Vec<ScaffoldConfig>,
    pub phase: CreatePhase,
    /// Index of the chosen template, once there is one.
    pub chosen: usize,
    /// The project name given up front, if any.
    pub project_name: Option<String>,
    /// The project directory, once the project is named.
    pub target: String,
}

impl NewHandler {
    pub open spec fn well_formed(&self) -> bool {
        self.config_file@ == path_join(self.home_dir@, HOME_SCAFFOLD_CONFIG@)
    }

    pub fn new(home_dir: String, current_dir: String) -> (r: NewHandler)
        ensures
            r.home_dir == home_dir,
            r.current_dir == current_dir,
            r.well_formed(),
    {
        let config_file = join_path(home_dir.as_str(), HOME_SCAFFOLD_CONFIG);
        NewHandler { home_dir, current_dir, config_file }
    }

    /// The project directory for `project_name`.
    pub fn target_dir(&self, project_name: &str) -> (r: String)
        ensures
            r@ == path_join(self.current_dir@, project_name@),
    {
        join_path(self.current_dir.as_str(), project_name)
    }

    /// Starts materializing a template of `catalog`: the one called
    /// `template_name`, or else the one that the prompt provider selects.
    pub fn start(
        self,
        catalog: Vec<ScaffoldConfig>,
        template_name: Option<String>,
        project_name: Option<String>,
    ) -> (r: (CreateSession, CreateAction))
        ensures
            create_start(self, catalog, template_name, project_name, r.0, r.1),
            r.0.well_formed(),
    {
        let ghost h = self;
        let mut session = CreateSession {
            handler: self,
            catalog,
            phase: CreatePhase::Finished,
            chosen: 0,
            project_name,
            target: String::new(),
        };
        if session.catalog.len() == 0 {
            return (session, CreateAction::Finish { outcome: Err(ScaffoldError::EmptyCatalog) });
        }
        match template_name {
            None => {
                session.phase = CreatePhase::Selecting;
                (session, CreateAction::SelectTemplate)
            },
            Some(name) => match position_by_name(session.catalog.as_slice(), name.as_str()) {
                Some(i) => {
                    let action = session.pick(i);
                    (session, action)
                },
                None => (session, CreateAction::Finish { outcome: Err(ScaffoldError::NotFound { name }) }),
            },
        }
    }
}

/// `t` has chosen template `i` and `a` is what follows: the target check when
/// the project name was given up front, else the question for the name, with
/// the template's name as the default.
pub open spec fn picked(t: CreateSession, i: int, a: CreateAction) -> bool {
    &&& t.chosen == i
    &&& match t.project_name {
        Some(p) => {
            &&& t.phase == CreatePhase::CheckingTarget
            &&& t.target@ == path_join(t.handler.current_dir@, p@)
            &&& a == (CreateAction::CheckTarget { path: t.target })
        },
        None => {
            &&& t.phase == CreatePhase::Naming
            &&& a == (CreateAction::AskProjectName { default: t.catalog@[i].name })
        },
    }
}

/// How a materialization starts: `EmptyCatalog` for an empty catalog, before
/// anything else; the first template called `template_name`, or `NotFound`;
/// without a name, a selection.
pub open spec fn create_start(
    h: NewHandler,
    catalog: Vec<ScaffoldConfig>,
    template_name: Option<String>,
    project_name: Option<String>,
    s: CreateSession,
    a: CreateAction,
) -> bool {
    &&& s.handler == h
    &&& s.catalog == catalog
    &&& s.project_name == project_name
    &&& if catalog@.len() == 0 {
        s.phase == CreatePhase::Finished && a == (CreateAction::Finish {
            outcome: Err(ScaffoldError::EmptyCatalog),
        })
    } else {
        match template_name {
            None => s.phase == CreatePhase::Selecting && a == CreateAction::SelectTemplate,
            Some(n) => if has_name(catalog@, n@) {
                is_first_named(catalog@, n@, s.chosen as int) && picked(s, s.chosen as int, a)
            } else {
                s.phase == CreatePhase::Finished && a == (CreateAction::Finish {
                    outcome: Err(ScaffoldError::NotFound { name: n }),
                })
            },
        }
    }
}

/// The events that a session in phase `s.phase` takes: an index into the
/// catalog while selecting, a name while naming, an existence report while
/// checking, a completion while copying or initializing; none once finished.
pub open spec fn accepts(s: CreateSession, e: CreateEvent) -> bool {
    match s.phase {
        CreatePhase::Selecting => e matches CreateEvent::Selected(i) && i < s.catalog@.len(),
        CreatePhase::Naming => e is Named,
        CreatePhase::CheckingTarget => e is Exists,
        CreatePhase::CheckingSource => e is Exists,
        CreatePhase::Copying => e is Completed,
        CreatePhase::InitializingRepo => e is Completed,
        CreatePhase::Finished => false,
    }
}

/// One step of a materialization: session `s` takes event `e`, becomes `t`
/// and asks for `a`.
pub open spec fn create_step(s: CreateSession, e: CreateEvent, t: CreateSession, a: CreateAction) -> bool {
    let source = s.catalog@[s.chosen as int].path;
    &&& t.handler == s.handler
    &&& t.catalog == s.catalog
    &&& t.project_name == s.project_name
    &&& match e {
        CreateEvent::Selected(i) => picked(t, i as int, a),
        CreateEvent::Named(p) => {
            &&& t.chosen == s.chosen
            &&& t.phase == CreatePhase::CheckingTarget
            &&& t.target@ == path_join(s.handler.current_dir@, p@)
            &&& a == (CreateAction::CheckTarget { path: t.target })
        },
        CreateEvent::Exists(found) => {
            &&& t.chosen == s.chosen
            &&& t.target == s.target
            &&& if s.phase == CreatePhase::CheckingTarget {
                if found {
                    t.phase == CreatePhase::Finished && a == (CreateAction::Finish {
                        outcome: Err(ScaffoldError::TargetExists { path: s.target }),
                    })
                } else {
                    t.phase == CreatePhase::CheckingSource && a == (CreateAction::CheckSource {
                        path: source,
                    })
                }
            } else {
                if found {
                    t.phase == CreatePhase::Copying && a == (CreateAction::Copy {
                        source,
                        target: s.target,
                    })
                } else {
                    t.phase == CreatePhase::Finished && a == (CreateAction::Finish {
                        outcome: Err(ScaffoldError::SourceMissing { path: source }),
                    })
                }
            }
        },
        CreateEvent::Completed(r) => {
            &&& t.chosen == s.chosen
            &&& t.target == s.target
            &&& if s.phase == CreatePhase::Copying {
                match r {
                    Ok(_) => t.phase == CreatePhase::InitializingRepo && a == (CreateAction::InitRepo {
                        path: s.target,
                    }),
                    Err(cause) => t.phase == CreatePhase::Finished && a == (CreateAction::Finish {
                        outcome: Err(ScaffoldError::Copy { source, target: s.target, cause }),
                    }),
                }
            } else {
                t.phase == CreatePhase::Finished && a == (CreateAction::Finish { outcome: Ok(r is Ok) })
            }
        },
    }
}

impl CreateSession {
    /// Past the selection, the chosen index is one of the catalog.
    pub open spec fn well_formed(&self) -> bool {
        self.phase != CreatePhase::Selecting && self.phase != CreatePhase::Finished
            ==> self.chosen < self.catalog@.len()
    }

    /// Whether the session takes `e` as the result of its last step.
    pub fn accepts_event(&self, e: &CreateEvent) -> (r: bool)
        ensures
            r == accepts(*self, *e),
    {
        match self.phase {
            CreatePhase::Selecting => match e {
                CreateEvent::Selected(i) => *i < self.catalog.len(),
                _ => false,
            },
            CreatePhase::Naming => matches!(e, CreateEvent::Named(_)),
            CreatePhase::CheckingTarget => matches!(e, CreateEvent::Exists(_)),
            CreatePhase::CheckingSource => matches!(e, CreateEvent::Exists(_)),
            CreatePhase::Copying => matches!(e, CreateEvent::Completed(_)),
            CreatePhase::InitializingRepo => matches!(e, CreateEvent::Completed(_)),
            CreatePhase::Finished => false,
        }
    }

    /// Takes template `i` and moves on to naming the project.
    fn pick(&mut self, i: usize) -> (r: CreateAction)
        requires
            i < old(self).catalog@.len(),
        ensures
            picked(*final(self), i as int, r),
            final(self).well_formed(),
            final(self).handler == old(self).handler,
            final(self).catalog == old(self).catalog,
            final(self).project_name == old(self).project_name,
    {
        self.chosen = i;
        match &self.project_name {
            Some(p) => {
                self.target = self.handler.target_dir(p.as_str());
                self.phase = CreatePhase::CheckingTarget;
                CreateAction::CheckTarget { path: self.target.clone() }
            },
            None => {
                self.phase = CreatePhase::Naming;
                CreateAction::AskProjectName { default: self.catalog[i].name.clone() }
            },
        }
    }

    /// Takes the result of the last step and returns the next one.
    pub fn step(&mut self, e: CreateEvent) -> (r: CreateAction)
        requires
            old(self).well_formed(),
            accepts(*old(self), e),
        ensures
            create_step(*old(self), e, *final(self), r),
            final(self).well_formed(),
    {
        match e {
            CreateEvent::Selected(i) => self.pick(i),
            CreateEvent::Named(p) => {
                self.target = self.handler.target_dir(p.as_str());
                self.phase = CreatePhase::CheckingTarget;
                CreateAction::CheckTarget { path: self.target.clone() }
            },
            CreateEvent::Exists(found) => {
                let source = self.catalog[self.chosen].path.clone();
                if self.phase == CreatePhase::CheckingTarget {
                    if found {
                        self.phase = CreatePhase::Finished;
                        CreateAction::Finish {
                            outcome: Err(ScaffoldError::TargetExists { path: self.target.clone() }),
                        }
                    } else {
                        self.phase = CreatePhase::CheckingSource;
                        CreateAction::CheckSource { path: source }
                    }
                } else if found {
                    self.phase = CreatePhase::Copying;
                    CreateAction::Copy { source, target: self.target.clone() }
                } else {
                    self.phase = CreatePhase::Finished;
                    CreateAction::Finish { outcome: Err(ScaffoldError::SourceMissing { path: source }) }
                }
            },
            CreateEvent::Completed(r) => {
                if self.phase == CreatePhase::Copying {
                    match r {
                        Ok(_) => {
                            self.phase = CreatePhase::InitializingRepo;
                            CreateAction::InitRepo { path: self.target.clone() }
                        },
                        Err(cause) => {
                            self.phase = CreatePhase::Finished;
                            CreateAction::Finish {
                                outcome: Err(ScaffoldError::Copy {
                                    source: self.catalog[self.chosen].path.clone(),
                                    target: self.target.clone(),
                                    cause,
                                }),
                            }
                        },
                    }
                } else {
                    self.phase = CreatePhase::Finished;
                    CreateAction::Finish { outcome: Ok(r.is_ok()) }
                }
            },
        }
    }
}

} // verus!

verus! {

/// A project directory that already exists is refused: the target check that
/// reports it ends the materialization with `TargetExists`, and no step that
/// writes (a copy, a repository initialization) is ever reached from there.
pub proof fn lemma_existing_target_refused(s: CreateSession, t: CreateSession, a: CreateAction)
    requires
        s.phase == CreatePhase::CheckingTarget,
        create_step(s, CreateEvent::Exists(true), t, a),
    ensures
        a == (CreateAction::Finish { outcome: Err(ScaffoldError::TargetExists { path: s.target }) }),
        t.phase == CreatePhase::Finished,
        forall|e: CreateEvent| !accepts(t, e),
{
}

/// A template whose content root is gone is refused with `SourceMissing`
/// before anything is copied, and the session takes no further step, so the
/// project directory is not created.
pub proof fn lemma_missing_source_refused(s: CreateSession, t: CreateSession, a: CreateAction)
    requires
        s.phase == CreatePhase::CheckingSource,
        create_step(s, CreateEvent::Exists(false), t, a),
    ensures
        a == (CreateAction::Finish {
            outcome: Err(ScaffoldError::SourceMissing { path: s.catalog@[s.chosen as int].path }),
        }),
        t.phase == CreatePhase::Finished,
        forall|e: CreateEvent| !accepts(t, e),
{
}

/// The steps that write come last: a copy only right after the content root
/// was reported present, which is checked only right after the project
/// directory was reported absent; a repository initialization only right after
/// a copy that completed.
pub proof fn lemma_writes_follow_checks(s: CreateSession, e: CreateEvent, t: CreateSession, a: CreateAction)
    requires
        accepts(s, e),
        create_step(s, e, t, a),
    ensures
        a is Copy ==> s.phase == CreatePhase::CheckingSource && e == CreateEvent::Exists(true),
        t.phase == CreatePhase::CheckingSource ==> s.phase == CreatePhase::CheckingTarget && e
            == CreateEvent::Exists(false),
        a is InitRepo ==> s.phase == CreatePhase::Copying && e matches CreateEvent::Completed(Ok(_)),
{
}

/// Starting a materialization never writes: it asks for a selection, a name or
/// a target check, or it fails.
pub proof fn lemma_start_never_writes(
    h: NewHandler,
    catalog: Vec<ScaffoldConfig>,
    template_name: Option<String>,
    project_name: Option<String>,
    s: CreateSession,
    a: CreateAction,
)
    requires
        create_start(h, catalog, template_name, project_name, s, a),
    ensures
        !(a is Copy) && !(a is InitRepo),
{
}

/// The template that the prompt provider selects by index `i` is the one at
/// index `i` of the catalog.
pub proof fn lemma_selection_is_by_index(s: CreateSession, i: usize, t: CreateSession, a: CreateAction)
    requires
        accepts(s, CreateEvent::Selected(i)),
        create_step(s, CreateEvent::Selected(i), t, a),
    ensures
        i < s.catalog@.len(),
        t.catalog == s.catalog,
        t.chosen == i,
{
}

} // verus!
