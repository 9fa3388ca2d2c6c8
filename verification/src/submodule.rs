//! Submodule data and operations.
//!
//! A [`Submodule`] combines what the four sources of truth know about one
//! submodule: the `.gitmodules` manifest, the repository's local config, the
//! module store under `.git/modules/<name>`, and the git index. Each part is
//! optional; presence encodes "found in that source". The classifier and the
//! repair engine are pure: everything they need from the filesystem is handed
//! in as a [`SubmoduleEnv`], and every correction they decide on comes back
//! as an [`Action`] for the caller to execute.

use vstd::prelude::*;
use vstd::string::StrSliceExecFns;

use crate::git::GitError;
use crate::strutil::{opt_str_eq, opt_view};

verus! {

/// Data of a submodule stored in .gitmodules
#[derive(Debug, Clone, PartialEq, Eq)]
pub struct InGitmodules {
    /// Name of the submodule, stored in the section name
    pub name: String,
    /// Path of the submodule, stored as `submodule.<name>.path`
    pub path: Option<String>,
    /// URL of the submodule, stored as `submodule.<name>.url`
    pub url: Option<String>,
    /// Branch of the submodule to update, stored as `submodule.<name>.branch`
    pub branch: Option<String>,
}

/// Ghost mirror of [`InGitmodules`].
pub ghost struct GitmodulesView {
    pub name: Seq<char>,
    pub path: Option<Seq<char>>,
    pub url: Option<Seq<char>>,
    pub branch: Option<Seq<char>>,
}

impl View for InGitmodules {
    type V = GitmodulesView;

    open spec fn view(&self) -> GitmodulesView {
        GitmodulesView {
            name: self.name@,
            path: opt_view(self.path),
            url: opt_view(self.url),
            branch: opt_view(self.branch),
        }
    }
}

impl InGitmodules {
    /// Create a new submodule with the given name and [`None`] for all other fields
    pub fn with_name(name: &str) -> (r: Self)
        ensures
            r@ == (GitmodulesView {
                name: name@,
                path: None,
                url: None,
                branch: None,
            }),
    {
        InGitmodules { name: name.to_owned(), path: None, url: None, branch: None }
    }
}

/// Data of a submodule stored in .git/config
#[derive(Debug, Clone, PartialEq, Eq)]
pub struct InGitConfig {
    /// Name of the submodule, stored in the section name
    pub name: String,
    /// URL of the submodule, stored as `submodule.<name>.url`
    pub url: String,
}

/// Ghost mirror of [`InGitConfig`].
pub ghost struct GitConfigView {
    pub name: Seq<char>,
    pub url: Seq<char>,
}

impl View for InGitConfig {
    type V = GitConfigView;

    open spec fn view(&self) -> GitConfigView {
        GitConfigView { name: self.name@, url: self.url@ }
    }
}

/// Data of submodule stored in .git/modules
#[derive(Debug, Clone, PartialEq, Eq)]
pub struct InGitModule {
    /// Name of the submodule, which is the part in the path after `.git/modules/`
    pub name: String,
    /// Path of the submodule worktree, stored in `core.worktree` in `.git/modules/<name>/config`
    pub worktree: Option<String>,
    /// Currently checked out commit
    pub head_sha: Option<String>,
    /// Git dir of the submodule
    pub git_dir: Option<String>,
}

/// Ghost mirror of [`InGitModule`].
pub ghost struct GitModuleView {
    pub name: Seq<char>,
    pub worktree: Option<Seq<char>>,
    pub head_sha: Option<Seq<char>>,
    pub git_dir: Option<Seq<char>>,
}

impl View for InGitModule {
    type V = GitModuleView;

    open spec fn view(&self) -> GitModuleView {
        GitModuleView {
            name: self.name@,
            worktree: opt_view(self.worktree),
            head_sha: opt_view(self.head_sha),
            git_dir: opt_view(self.git_dir),
        }
    }
}

/// Data of a submodule stored in the index
#[derive(Debug, Clone, PartialEq, Eq)]
pub struct IndexObject {
    /// Path of the index object
    pub path: String,
    /// SHA-1 of the index object
    pub sha: String,
}

/// Ghost mirror of [`IndexObject`].
pub ghost struct IndexObjectView {
    pub path: Seq<char>,
    pub sha: Seq<char>,
}

impl View for IndexObject {
    type V = IndexObjectView;

    open spec fn view(&self) -> IndexObjectView {
        IndexObjectView { path: self.path@, sha: self.sha@ }
    }
}

/// Collection of data of a submodule with the same name as identifier
#[derive(Debug, Clone, PartialEq, Eq)]
pub struct Submodule {
    /// Data of this submodule in .gitmodules
    pub in_gitmodules: Option<InGitmodules>,
    /// Data of this submodule in .git/config
    pub in_config: Option<InGitConfig>,
    /// Data of this submodule in .git/modules/<name>
    pub in_modules: Option<InGitModule>,
    /// Data of this submodule in the index
    pub in_index: Option<IndexObject>,
}

/// Ghost mirror of [`Submodule`].
pub ghost struct SubmoduleView {
    pub in_gitmodules: Option<GitmodulesView>,
    pub in_config: Option<GitConfigView>,
    pub in_modules: Option<GitModuleView>,
    pub in_index: Option<IndexObjectView>,
}

/// The view of an optional viewable value.
pub open spec fn opt_v<T: View>(o: Option<T>) -> Option<T::V> {
    match o {
        Option::None => Option::None,
        Option::Some(t) => Option::Some(t@),
    }
}

impl View for Submodule {
    type V = SubmoduleView;

    open spec fn view(&self) -> SubmoduleView {
        SubmoduleView {
            in_gitmodules: opt_v(self.in_gitmodules),
            in_config: opt_v(self.in_config),
            in_modules: opt_v(self.in_modules),
            in_index: opt_v(self.in_index),
        }
    }
}

impl DeepView for Submodule {
    type V = SubmoduleView;

    open spec fn deep_view(&self) -> SubmoduleView {
        self.view()
    }
}

/// An issue in the consistency of a submodule's presence pattern
#[derive(Debug, Clone, Copy, PartialEq, Eq, Structural)]
pub enum PartsIssue {
    /// No issue
    Healthy,
    /// Stale config or module-store entries survive after de-initialization
    Residue,
    /// The index entry is missing: the submodule reference was deleted from
    /// the tree
    MissingIndex,
    /// The manifest entry is missing: the submodule was removed from
    /// .gitmodules but other traces remain
    MissingInGitModules,
}

/// The issue category of a presence pattern, per the classification table:
/// all four present, manifest+index only, or nothing at all is healthy;
/// manifest and index with exactly one of config/module-store is residue; a
/// missing index wins over a missing manifest.
pub open spec fn spec_issue(s: SubmoduleView) -> PartsIssue {
    match (s.in_gitmodules, s.in_config, s.in_modules, s.in_index) {
        (Option::None, Option::None, Option::None, Option::None) => PartsIssue::Healthy,
        (Option::Some(_), Option::Some(_), Option::Some(_), Option::Some(_)) => PartsIssue::Healthy,
        (Option::Some(_), Option::None, Option::None, Option::Some(_)) => PartsIssue::Healthy,
        (Option::Some(_), Option::Some(_), Option::None, Option::Some(_)) => PartsIssue::Residue,
        (Option::Some(_), Option::None, Option::Some(_), Option::Some(_)) => PartsIssue::Residue,
        (_, _, _, Option::None) => PartsIssue::MissingIndex,
        (Option::None, _, _, _) => PartsIssue::MissingInGitModules,
    }
}

impl PartsIssue {
    /// Short description of the issue.
    pub fn describe(&self) -> (r: String)
        ensures
            r@ == spec_issue_description(*self),
    {
        proof {
            reveal_strlit("none");
            reveal_strlit("has residue from removal");
            reveal_strlit("missing in index");
            reveal_strlit("not in .gitmodules");
        }
        match self {
            PartsIssue::Healthy => "none".to_owned(),
            PartsIssue::Residue => "has residue from removal".to_owned(),
            PartsIssue::MissingIndex => "missing in index".to_owned(),
            PartsIssue::MissingInGitModules => "not in .gitmodules".to_owned(),
        }
    }
}

/// What [`PartsIssue::describe`] returns for each issue.
pub open spec fn spec_issue_description(issue: PartsIssue) -> Seq<char> {
    match issue {
        PartsIssue::Healthy => "none"@,
        PartsIssue::Residue => "has residue from removal"@,
        PartsIssue::MissingIndex => "missing in index"@,
        PartsIssue::MissingInGitModules => "not in .gitmodules"@,
    }
}

impl Submodule {
    /// Classify the presence pattern of this submodule.
    pub fn find_issue(&self) -> (r: PartsIssue)
        ensures
            r == spec_issue(self@),
    {
        match (&self.in_gitmodules, &self.in_config, &self.in_modules, &self.in_index) {
            (Option::None, Option::None, Option::None, Option::None) => PartsIssue::Healthy,
            (Option::Some(_), Option::Some(_), Option::Some(_), Option::Some(_)) => PartsIssue::Healthy,
            (Option::Some(_), Option::None, Option::None, Option::Some(_)) => PartsIssue::Healthy,
            (Option::Some(_), Option::Some(_), Option::None, Option::Some(_)) => PartsIssue::Residue,
            (Option::Some(_), Option::None, Option::Some(_), Option::Some(_)) => PartsIssue::Residue,
            (_, _, _, Option::None) => PartsIssue::MissingIndex,
            (Option::None, _, _, _) => PartsIssue::MissingInGitModules,
        }
    }
}

/// The name a submodule goes by: the manifest name, else the local-config
/// name, else the module-store name.
pub open spec fn spec_name(s: SubmoduleView) -> Option<Seq<char>> {
    if s.in_gitmodules is Some {
        match s.in_gitmodules {
            Option::Some(g) => Option::Some(g.name),
            Option::None => Option::None,
        }
    } else if s.in_config is Some {
        match s.in_config {
            Option::Some(c) => Option::Some(c.name),
            Option::None => Option::None,
        }
    } else {
        match s.in_modules {
            Option::Some(m) => Option::Some(m.name),
            Option::None => Option::None,
        }
    }
}

/// The path a submodule lives at: the manifest path, else the index path,
/// else the module store's worktree.
pub open spec fn spec_path(s: SubmoduleView) -> Option<Seq<char>> {
    match s.in_gitmodules {
        Option::Some(g) if g.path is Some => g.path,
        _ => match s.in_index {
            Option::Some(i) => Option::Some(i.path),
            Option::None => match s.in_modules {
                Option::Some(m) => m.worktree,
                Option::None => Option::None,
            },
        },
    }
}

/// The URL a submodule is cloned from: the resolved local-config URL, else
/// the manifest URL.
pub open spec fn spec_url(s: SubmoduleView) -> Option<Seq<char>> {
    match s.in_config {
        Option::Some(c) => Option::Some(c.url),
        Option::None => match s.in_gitmodules {
            Option::Some(g) => g.url,
            Option::None => Option::None,
        },
    }
}

/// The view of an optional borrowed string.
pub open spec fn opt_ref_view(o: Option<&str>) -> Option<Seq<char>> {
    match o {
        Option::None => Option::None,
        Option::Some(s) => Option::Some(s@),
    }
}

impl Submodule {
    /// Get the name of the submodule with the best effort.
    ///
    /// Follows the order:
    /// 1. Name in .gitmodules
    /// 2. Name in .git/config
    /// 3. Name as in .git/modules/<name>
    pub fn name(&self) -> (r: Option<&str>)
        ensures
            opt_ref_view(r) == spec_name(self@),
    {
        if let Option::Some(gitmodules) = &self.in_gitmodules {
            return Option::Some(gitmodules.name.as_str());
        }
        if let Option::Some(config) = &self.in_config {
            return Option::Some(config.name.as_str());
        }
        if let Option::Some(modules) = &self.in_modules {
            return Option::Some(modules.name.as_str());
        }
        Option::None
    }

    /// Get the path of the submodule with the best effort.
    ///
    /// Follows the order:
    /// 1. Path in .gitmodules
    /// 2. Path in the index object
    /// 3. Path in .git/modules/<name>/config (core.worktree)
    pub fn path(&self) -> (r: Option<&str>)
        ensures
            opt_ref_view(r) == spec_path(self@),
    {
        if let Option::Some(gitmodules) = &self.in_gitmodules {
            if let Option::Some(path) = &gitmodules.path {
                return Option::Some(path.as_str());
            }
        }
        if let Option::Some(index) = &self.in_index {
            return Option::Some(index.path.as_str());
        }
        if let Option::Some(modules) = &self.in_modules {
            if let Option::Some(worktree) = &modules.worktree {
                return Option::Some(worktree.as_str());
            }
        }
        Option::None
    }

    /// Get the URL of the submodule with the best effort.
    ///
    /// Follows the order:
    /// 1. URL in .git/config (first because this is the resolved one)
    /// 2. URL in .gitmodules
    pub fn url(&self) -> (r: Option<&str>)
        ensures
            opt_ref_view(r) == spec_url(self@),
    {
        if let Option::Some(config) = &self.in_config {
            return Option::Some(config.url.as_str());
        }
        if let Option::Some(gitmodules) = &self.in_gitmodules {
            if let Option::Some(url) = &gitmodules.url {
                return Option::Some(url.as_str());
            }
        }
        Option::None
    }

    /// Get the update branch of the submodule defined in .gitmodules
    pub fn branch(&self) -> (r: Option<&str>)
        ensures
            opt_ref_view(r) == (match self@.in_gitmodules {
                Option::Some(g) => g.branch,
                Option::None => Option::None,
            }),
    {
        if let Option::Some(gitmodules) = &self.in_gitmodules {
            if let Option::Some(branch) = &gitmodules.branch {
                return Option::Some(branch.as_str());
            }
        }
        Option::None
    }

    /// Get the commit of the submodule in the index
    pub fn index_commit(&self) -> (r: Option<&str>)
        ensures
            opt_ref_view(r) == (match self@.in_index {
                Option::Some(i) => Option::Some(i.sha),
                Option::None => Option::None,
            }),
    {
        if let Option::Some(index) = &self.in_index {
            return Option::Some(index.sha.as_str());
        }
        Option::None
    }

    /// Get the short version (7 characters) of the commit in the index
    pub fn index_commit_short(&self) -> (r: Option<&str>)
        requires
            match self@.in_index {
                Option::Some(i) => i.sha.len() >= 7,
                Option::None => true,
            },
        ensures
            opt_ref_view(r) == (match self@.in_index {
                Option::Some(i) => Option::Some(i.sha.take(7)),
                Option::None => Option::<Seq<char>>::None,
            }),
    {
        match &self.in_index {
            Option::Some(index) => {
                let s = index.sha.as_str();
                let short = s.substring_char(0, 7);
                assert(short@ =~= index.sha@.take(7));
                Option::Some(short)
            },
            Option::None => Option::None,
        }
    }

    /// Get the commit currently checked out
    pub fn head_commit(&self) -> (r: Option<&str>)
        ensures
            opt_ref_view(r) == (match self@.in_modules {
                Option::Some(m) => m.head_sha,
                Option::None => Option::None,
            }),
    {
        if let Option::Some(modules) = &self.in_modules {
            if let Option::Some(head_sha) = &modules.head_sha {
                return Option::Some(head_sha.as_str());
            }
        }
        Option::None
    }

    /// Get the short version (7 characters) of the commit currently checked out
    pub fn head_commit_short(&self) -> (r: Option<&str>)
        requires
            match self@.in_modules {
                Option::Some(m) => match m.head_sha {
                    Option::Some(h) => h.len() >= 7,
                    Option::None => true,
                },
                Option::None => true,
            },
        ensures
            opt_ref_view(r) == (match self@.in_modules {
                Option::Some(m) => match m.head_sha {
                    Option::Some(h) => Option::Some(h.take(7)),
                    Option::None => Option::<Seq<char>>::None,
                },
                Option::None => Option::<Seq<char>>::None,
            }),
    {
        match &self.in_modules {
            Option::Some(modules) => match &modules.head_sha {
                Option::Some(head_sha) => {
                    let s = head_sha.as_str();
                    let short = s.substring_char(0, 7);
                    assert(short@ =~= head_sha@.take(7));
                    Option::Some(short)
                },
                Option::None => Option::None,
            },
            Option::None => Option::None,
        }
    }
}

} // verus!

use vstd::prelude::*;

verus! {

/// The resolved (canonicalized) form of the paths the sources store: absent
/// where the referenced path does not exist on disk.
#[derive(Debug, Clone, PartialEq, Eq)]
pub struct SubmodulePaths {
    /// Resolved form of the path declared in .gitmodules
    pub in_gitmodules: Option<String>,
    /// Resolved form of the path of the index entry
    pub in_index: Option<String>,
    /// Resolved form of the module store's worktree
    pub in_modules: Option<String>,
}

/// Ghost mirror of [`SubmodulePaths`].
pub ghost struct SubmodulePathsView {
    pub in_gitmodules: Option<Seq<char>>,
    pub in_index: Option<Seq<char>>,
    pub in_modules: Option<Seq<char>>,
}

impl View for SubmodulePaths {
    type V = SubmodulePathsView;

    open spec fn view(&self) -> SubmodulePathsView {
        SubmodulePathsView {
            in_gitmodules: opt_view(self.in_gitmodules),
            in_index: opt_view(self.in_index),
            in_modules: opt_view(self.in_modules),
        }
    }
}

/// The paths agree: either all three resolve to the same place, or manifest
/// and index agree and the module store is absent.
pub open spec fn spec_paths_consistent(p: SubmodulePathsView) -> bool {
    ||| (p.in_gitmodules == p.in_index && p.in_index == p.in_modules)
    ||| (p.in_gitmodules == p.in_index && p.in_modules is None)
}

impl SubmodulePaths {
    /// Whether the resolved paths are mutually consistent.
    pub fn is_consistent(&self) -> (r: bool)
        ensures
            r == spec_paths_consistent(self@),
    {
        if opt_str_eq(&self.in_gitmodules, &self.in_index) {
            if opt_str_eq(&self.in_index, &self.in_modules) {
                return true;
            }
            if self.in_modules.is_none() {
                return true;
            }
        }
        false
    }
}

/// Everything the classifier and the repair engine need from the filesystem,
/// resolved ahead of time by the caller for one submodule: the canonical form
/// of the three stored paths, the canonical form of the module store's
/// recorded git-dir, and the location that git-dir is expected to match.
#[derive(Debug, Clone, PartialEq, Eq)]
pub struct SubmoduleEnv {
    /// What the resolver says for the paths the record stores
    pub paths: SubmodulePaths,
    /// Canonical form of the module store's recorded git-dir; absent if it
    /// does not resolve
    pub module_git_dir: Option<String>,
    /// The canonical `<git-dir>/modules/<name>` location the recorded
    /// git-dir must resolve to
    pub expected_git_dir: String,
}

/// Ghost mirror of [`SubmoduleEnv`].
pub ghost struct SubmoduleEnvView {
    pub paths: SubmodulePathsView,
    pub module_git_dir: Option<Seq<char>>,
    pub expected_git_dir: Seq<char>,
}

impl View for SubmoduleEnv {
    type V = SubmoduleEnvView;

    open spec fn view(&self) -> SubmoduleEnvView {
        SubmoduleEnvView {
            paths: self.paths@,
            module_git_dir: opt_view(self.module_git_dir),
            expected_git_dir: self.expected_git_dir@,
        }
    }
}

/// Whether the module store entry is internally consistent: a worktree
/// demands a checked-out commit and a git-dir, and a recorded git-dir must
/// resolve to the expected `<git-dir>/modules/<name>` location. `Err` carries
/// the recorded git-dir when it cannot be resolved at all.
pub open spec fn spec_module_consistent(m: GitModuleView, env: SubmoduleEnvView) -> Result<
    bool,
    Seq<char>,
> {
    if m.worktree is Some && !(m.head_sha is Some && m.git_dir is Some) {
        Ok(false)
    } else {
        match m.git_dir {
            Option::Some(d) => match env.module_git_dir {
                Option::None => Err(d),
                Option::Some(c) => Ok(c == env.expected_git_dir),
            },
            Option::None => Ok(true),
        }
    }
}

impl InGitModule {
    /// Return if data is consistent internally
    ///
    /// For the data to be consistent:
    /// - if `worktree` is set, `head_sha` and `git_dir` should also be set
    /// - `git_dir` should resolve to `.git/modules/<name>`
    pub fn is_consistent(&self, env: &SubmoduleEnv) -> (r: Result<bool, GitError>)
        ensures
            (spec_module_consistent(self@, env@) matches Ok(b) ==> r == Result::<
                bool,
                GitError,
            >::Ok(b)),
            (spec_module_consistent(self@, env@) matches Err(p) ==> r matches Err(e) && (
            e matches GitError::CanonicalizeFail(q) && q@ == p)),
    {
        if self.worktree.is_some() {
            let consistent = self.head_sha.is_some() && self.git_dir.is_some();
            if !consistent {
                return Ok(false);
            }
        }
        if let Option::Some(git_dir) = &self.git_dir {
            return match &env.module_git_dir {
                Option::None => Err(GitError::CanonicalizeFail(git_dir.clone())),
                Option::Some(c) => Ok(c.eq(&env.expected_git_dir)),
            };
        }
        Ok(true)
    }
}

/// [`spec_module_consistent`] lifted to a whole record: a record without a
/// module store entry is trivially consistent.
pub open spec fn spec_sub_module_consistent(s: SubmoduleView, env: SubmoduleEnvView) -> Result<
    bool,
    Seq<char>,
> {
    match s.in_modules {
        Option::Some(m) => spec_module_consistent(m, env),
        Option::None => Ok(true),
    }
}

/// The resolved paths that apply to a record: a resolver outcome counts only
/// where the record actually stores the corresponding path.
pub open spec fn spec_resolved_paths(s: SubmoduleView, env: SubmoduleEnvView) -> SubmodulePathsView {
    SubmodulePathsView {
        in_gitmodules: match s.in_gitmodules {
            Option::Some(g) => if g.path is Some {
                env.paths.in_gitmodules
            } else {
                Option::None
            },
            Option::None => Option::None,
        },
        in_index: match s.in_index {
            Option::Some(_) => env.paths.in_index,
            Option::None => Option::None,
        },
        in_modules: match s.in_modules {
            Option::Some(m) => if m.worktree is Some {
                env.paths.in_modules
            } else {
                Option::None
            },
            Option::None => Option::None,
        },
    }
}

/// A config store a corrective action edits.
#[derive(Debug, Clone, Copy, PartialEq, Eq, Structural)]
pub enum ConfigFile {
    /// The `.gitmodules` manifest at the repository top level
    Gitmodules,
    /// The repository's local config, `<git-dir>/config`
    GitConfig,
}

/// A corrective operation the repair engine has decided on. The caller
/// executes them in order; each is best-effort, a failing one does not
/// invalidate the rest.
#[derive(Debug, Clone, PartialEq, Eq)]
pub enum Action {
    /// Delete `.git/modules/<name>`, and the worktree under it if one exists
    /// on disk
    RemoveModuleDir { name: String, worktree: Option<String> },
    /// Remove the section `submodule.<name>` from the given config store
    RemoveConfigSection { file: ConfigFile, name: String },
    /// Write `submodule.<name>.path = <path>` into .gitmodules
    SetGitmodulesPath { name: String, path: String },
    /// Remove the entry at `path` from the index
    RemoveFromIndex { path: String },
    /// Re-stage .gitmodules so the repository reflects the edit
    StageGitmodules,
}

/// Ghost mirror of [`Action`].
pub ghost enum ActionView {
    RemoveModuleDir { name: Seq<char>, worktree: Option<Seq<char>> },
    RemoveConfigSection { file: ConfigFile, name: Seq<char> },
    SetGitmodulesPath { name: Seq<char>, path: Seq<char> },
    RemoveFromIndex { path: Seq<char> },
    StageGitmodules,
}

impl View for Action {
    type V = ActionView;

    open spec fn view(&self) -> ActionView {
        match self {
            Action::RemoveModuleDir { name, worktree } => ActionView::RemoveModuleDir {
                name: name@,
                worktree: opt_view(*worktree),
            },
            Action::RemoveConfigSection { file, name } => ActionView::RemoveConfigSection {
                file: *file,
                name: name@,
            },
            Action::SetGitmodulesPath { name, path } => ActionView::SetGitmodulesPath {
                name: name@,
                path: path@,
            },
            Action::RemoveFromIndex { path } => ActionView::RemoveFromIndex { path: path@ },
            Action::StageGitmodules => ActionView::StageGitmodules,
        }
    }
}

impl DeepView for Action {
    type V = ActionView;

    open spec fn deep_view(&self) -> ActionView {
        self.view()
    }
}

/// Clearing the module store entry: the record without it, and the deletion
/// of `.git/modules/<name>` where the entry was present.
pub open spec fn spec_remove_module_dir(s: SubmoduleView) -> (SubmoduleView, Seq<ActionView>) {
    match s.in_modules {
        Option::Some(m) => (
            SubmoduleView { in_modules: Option::None, ..s },
            seq![ActionView::RemoveModuleDir { name: m.name, worktree: m.worktree }],
        ),
        Option::None => (s, Seq::empty()),
    }
}

/// Clearing the local-config entry and removing its section.
pub open spec fn spec_remove_config(s: SubmoduleView) -> (SubmoduleView, Seq<ActionView>) {
    match s.in_config {
        Option::Some(c) => (
            SubmoduleView { in_config: Option::None, ..s },
            seq![ActionView::RemoveConfigSection { file: ConfigFile::GitConfig, name: c.name }],
        ),
        Option::None => (s, Seq::empty()),
    }
}

/// Clearing the index entry: remove the path from the index, then re-stage
/// the manifest.
pub open spec fn spec_remove_from_index(s: SubmoduleView) -> (SubmoduleView, Seq<ActionView>) {
    match s.in_index {
        Option::Some(i) => (
            SubmoduleView { in_index: Option::None, ..s },
            seq![ActionView::RemoveFromIndex { path: i.path }, ActionView::StageGitmodules],
        ),
        Option::None => (s, Seq::empty()),
    }
}

/// Clearing the manifest entry: remove its section from .gitmodules, then
/// re-stage the manifest.
pub open spec fn spec_remove_from_gitmodules(s: SubmoduleView) -> (SubmoduleView, Seq<ActionView>) {
    match s.in_gitmodules {
        Option::Some(g) => (
            SubmoduleView { in_gitmodules: Option::None, ..s },
            seq![
                ActionView::RemoveConfigSection { file: ConfigFile::Gitmodules, name: g.name },
                ActionView::StageGitmodules,
            ],
        ),
        Option::None => (s, Seq::empty()),
    }
}

/// Full deletion: index entry, module store, local config, manifest, in that
/// order.
pub open spec fn spec_force_delete(s: SubmoduleView) -> (SubmoduleView, Seq<ActionView>) {
    let (s1, a1) = spec_remove_from_index(s);
    let (s2, a2) = spec_remove_module_dir(s1);
    let (s3, a3) = spec_remove_config(s2);
    let (s4, a4) = spec_remove_from_gitmodules(s3);
    (s4, a1 + a2 + a3 + a4)
}

/// The repair for each issue category: nothing for a healthy record; config
/// and module store removal for residue; full deletion where the index or
/// the manifest entry is missing.
pub open spec fn spec_fix_issue(s: SubmoduleView, issue: PartsIssue) -> (
    SubmoduleView,
    Seq<ActionView>,
) {
    match issue {
        PartsIssue::Healthy => (s, Seq::empty()),
        PartsIssue::Residue => {
            let (s1, a1) = spec_remove_config(s);
            let (s2, a2) = spec_remove_module_dir(s1);
            (s2, a1 + a2)
        },
        PartsIssue::MissingIndex => spec_force_delete(s),
        PartsIssue::MissingInGitModules => spec_force_delete(s),
    }
}

/// The path reconciliation step of the repair pass: where the resolved paths
/// disagree and an index entry exists, the module store is deleted if it
/// diverges from the index, and the manifest path is rewritten to the index
/// path if they diverge.
pub open spec fn spec_fix_paths(s1: SubmoduleView, env: SubmoduleEnvView) -> (
    SubmoduleView,
    Seq<ActionView>,
) {
    let rp = spec_resolved_paths(s1, env);
    if !spec_paths_consistent(rp) && s1.in_index is Some {
        let (s2a, a2a) = if s1.in_modules is Some && rp.in_index != rp.in_modules {
            spec_remove_module_dir(s1)
        } else {
            (s1, Seq::<ActionView>::empty())
        };
        let a2b = match s2a.in_gitmodules {
            Option::Some(g) => if rp.in_index != rp.in_gitmodules {
                match s2a.in_index {
                    Option::Some(i) => seq![
                        ActionView::SetGitmodulesPath { name: g.name, path: i.path },
                    ],
                    Option::None => Seq::<ActionView>::empty(),
                }
            } else {
                Seq::<ActionView>::empty()
            },
            Option::None => Seq::<ActionView>::empty(),
        };
        (s2a, a2a + a2b)
    } else {
        (s1, Seq::<ActionView>::empty())
    }
}

/// The whole repair pass over one record: what the record becomes, the
/// actions decided on, and the path whose resolution failed where the pass
/// stops with an error before doing anything.
pub open spec fn spec_fix(s: SubmoduleView, env: SubmoduleEnvView) -> (
    SubmoduleView,
    Seq<ActionView>,
    Option<Seq<char>>,
) {
    match spec_sub_module_consistent(s, env) {
        Err(p) => (s, Seq::empty(), Option::Some(p)),
        Ok(mc) => {
            let (s1, a1) = if !mc {
                spec_remove_module_dir(s)
            } else {
                (s, Seq::<ActionView>::empty())
            };
            let (s2, a2) = spec_fix_paths(s1, env);
            let (s3, a3) = spec_fix_issue(s2, spec_issue(s2));
            (s3, a1 + a2 + a3, Option::None)
        },
    }
}

impl Submodule {
    /// Get if the module data and the submodule's worktree is consistent,
    /// see [`InGitModule::is_consistent`]
    pub fn is_module_consistent(&self, env: &SubmoduleEnv) -> (r: Result<bool, GitError>)
        ensures
            (spec_sub_module_consistent(self@, env@) matches Ok(b) ==> r == Result::<
                bool,
                GitError,
            >::Ok(b)),
            (spec_sub_module_consistent(self@, env@) matches Err(p) ==> r matches Err(e) && (
            e matches GitError::CanonicalizeFail(q) && q@ == p)),
    {
        match &self.in_modules {
            Option::Some(in_module) => in_module.is_consistent(env),
            Option::None => Ok(true),
        }
    }

    /// Resolves the paths stored in various places and return them
    pub fn resolved_paths(&self, env: &SubmoduleEnv) -> (r: SubmodulePaths)
        ensures
            r@ == spec_resolved_paths(self@, env@),
    {
        let in_gitmodules: Option<String> = match &self.in_gitmodules {
            Option::Some(g) => match &g.path {
                Option::Some(_) => match &env.paths.in_gitmodules {
                    Option::Some(p) => Option::Some(p.clone()),
                    Option::None => Option::None,
                },
                Option::None => Option::None,
            },
            Option::None => Option::None,
        };
        let in_index: Option<String> = match &self.in_index {
            Option::Some(_) => match &env.paths.in_index {
                Option::Some(p) => Option::Some(p.clone()),
                Option::None => Option::None,
            },
            Option::None => Option::None,
        };
        let in_modules: Option<String> = match &self.in_modules {
            Option::Some(m) => match &m.worktree {
                Option::Some(_) => match &env.paths.in_modules {
                    Option::Some(p) => Option::Some(p.clone()),
                    Option::None => Option::None,
                },
                Option::None => Option::None,
            },
            Option::None => Option::None,
        };
        SubmodulePaths { in_gitmodules, in_index, in_modules }
    }

    /// Return false if the submodule has issues that can be fixed with
    /// [`Submodule::fix`]
    pub fn is_healthy(&self, env: &SubmoduleEnv) -> (r: Result<bool, GitError>)
        ensures
            (spec_is_healthy(self@, env@) matches Ok(b) ==> r == Result::<bool, GitError>::Ok(b)),
            (spec_is_healthy(self@, env@) matches Err(p) ==> r matches Err(e) && (
            e matches GitError::CanonicalizeFail(q) && q@ == p)),
    {
        let mc = match self.is_module_consistent(env) {
            Ok(b) => b,
            Err(e) => {
                return Err(e);
            },
        };
        if !mc {
            return Ok(false);
        }
        if !self.resolved_paths(env).is_consistent() {
            return Ok(false);
        }
        if self.find_issue() != PartsIssue::Healthy {
            return Ok(false);
        }
        Ok(true)
    }

    /// Delete the submodule in .git/modules/<name> and its worktree if present
    pub fn force_remove_module_dir(&mut self, actions: &mut Vec<Action>)
        ensures
            ({
                let (rec, acts) = spec_remove_module_dir(old(self)@);
                &&& final(self)@ == rec
                &&& final(actions).deep_view() == old(actions).deep_view() + acts
            }),
    {
        if let Option::Some(in_module) = &self.in_modules {
            let worktree: Option<String> = match &in_module.worktree {
                Option::Some(w) => Option::Some(w.clone()),
                Option::None => Option::None,
            };
            actions.push(Action::RemoveModuleDir { name: in_module.name.clone(), worktree });
            assert(final(actions).deep_view() =~= old(actions).deep_view()
                + spec_remove_module_dir(old(self)@).1);
        } else {
            assert(final(actions).deep_view() =~= old(actions).deep_view());
        }
        self.in_modules = Option::None;
    }

    /// Delete the submodule in .git/config
    pub fn force_remove_config(&mut self, actions: &mut Vec<Action>)
        ensures
            ({
                let (rec, acts) = spec_remove_config(old(self)@);
                &&& final(self)@ == rec
                &&& final(actions).deep_view() == old(actions).deep_view() + acts
            }),
    {
        if let Option::Some(in_config) = &self.in_config {
            actions.push(
                Action::RemoveConfigSection {
                    file: ConfigFile::GitConfig,
                    name: in_config.name.clone(),
                },
            );
            assert(final(actions).deep_view() =~= old(actions).deep_view()
                + spec_remove_config(old(self)@).1);
        } else {
            assert(final(actions).deep_view() =~= old(actions).deep_view());
        }
        self.in_config = Option::None;
    }

    /// Remove the submodule from index
    pub fn force_remove_from_index(&mut self, actions: &mut Vec<Action>)
        ensures
            ({
                let (rec, acts) = spec_remove_from_index(old(self)@);
                &&& final(self)@ == rec
                &&& final(actions).deep_view() == old(actions).deep_view() + acts
            }),
    {
        if let Option::Some(in_index) = &self.in_index {
            actions.push(Action::RemoveFromIndex { path: in_index.path.clone() });
            actions.push(Action::StageGitmodules);
            assert(final(actions).deep_view() =~= old(actions).deep_view()
                + spec_remove_from_index(old(self)@).1);
        } else {
            assert(final(actions).deep_view() =~= old(actions).deep_view());
        }
        self.in_index = Option::None;
    }

    /// Delete the submodule section in .gitmodules
    pub fn force_remove_from_dot_gitmodules(&mut self, actions: &mut Vec<Action>)
        ensures
            ({
                let (rec, acts) = spec_remove_from_gitmodules(old(self)@);
                &&& final(self)@ == rec
                &&& final(actions).deep_view() == old(actions).deep_view() + acts
            }),
    {
        if let Option::Some(in_gitmodules) = &self.in_gitmodules {
            actions.push(
                Action::RemoveConfigSection {
                    file: ConfigFile::Gitmodules,
                    name: in_gitmodules.name.clone(),
                },
            );
            actions.push(Action::StageGitmodules);
            assert(final(actions).deep_view() =~= old(actions).deep_view()
                + spec_remove_from_gitmodules(old(self)@).1);
        } else {
            assert(final(actions).deep_view() =~= old(actions).deep_view());
        }
        self.in_gitmodules = Option::None;
    }

    /// Delete the submodule by removing the configuration and directories
    /// that reference it
    pub fn force_delete(&mut self, actions: &mut Vec<Action>)
        ensures
            ({
                let (rec, acts) = spec_force_delete(old(self)@);
                &&& final(self)@ == rec
                &&& final(actions).deep_view() == old(actions).deep_view() + acts
            }),
    {
        self.force_remove_from_index(actions);
        self.force_remove_module_dir(actions);
        self.force_remove_config(actions);
        self.force_remove_from_dot_gitmodules(actions);
        proof {
            let (s1, a1) = spec_remove_from_index(old(self)@);
            let (s2, a2) = spec_remove_module_dir(s1);
            let (s3, a3) = spec_remove_config(s2);
            let (s4, a4) = spec_remove_from_gitmodules(s3);
            assert(old(actions).deep_view() + a1 + a2 + a3 + a4 =~= old(actions).deep_view() + (a1
                + a2 + a3 + a4));
        }
    }

    fn fix_issue(&mut self, issue: PartsIssue, actions: &mut Vec<Action>)
        ensures
            ({
                let (rec, acts) = spec_fix_issue(old(self)@, issue);
                &&& final(self)@ == rec
                &&& final(actions).deep_view() == old(actions).deep_view() + acts
            }),
    {
        match issue {
            PartsIssue::Healthy => {
                assert(final(actions).deep_view() =~= old(actions).deep_view() + Seq::<
                    ActionView,
                >::empty());
            },
            PartsIssue::Residue => {
                self.force_remove_config(actions);
                self.force_remove_module_dir(actions);
                proof {
                    let (s1, a1) = spec_remove_config(old(self)@);
                    let (s2, a2) = spec_remove_module_dir(s1);
                    assert(old(actions).deep_view() + a1 + a2 =~= old(actions).deep_view() + (a1
                        + a2));
                }
            },
            PartsIssue::MissingIndex => {
                self.force_delete(actions);
            },
            PartsIssue::MissingInGitModules => {
                self.force_delete(actions);
            },
        }
    }

    /// Fix the submodule
    ///
    /// This will result in one of the following states:
    /// 1. The submodule is healthy and initialized.
    /// 2. The submodule is healthy but not initialized.
    /// 3. The submodule is deleted.
    ///
    /// The record is brought to its repaired state and the corrective
    /// operations are appended to `actions` for the caller to execute.
    pub fn fix(&mut self, env: &SubmoduleEnv, actions: &mut Vec<Action>) -> (r: Result<
        (),
        GitError,
    >)
        ensures
            ({
                let (rec, acts, err) = spec_fix(old(self)@, env@);
                &&& final(self)@ == rec
                &&& final(actions).deep_view() == old(actions).deep_view() + acts
                &&& match err {
                    Option::None => r is Ok,
                    Option::Some(p) => r matches Err(e) && (e matches GitError::CanonicalizeFail(q)
                        && q@ == p),
                }
            }),
    {
        let ghost a0 = actions.deep_view();
        let mc = match self.is_module_consistent(env) {
            Ok(b) => b,
            Err(e) => {
                assert(actions.deep_view() =~= a0 + Seq::<ActionView>::empty());
                return Err(e);
            },
        };
        if !mc {
            self.force_remove_module_dir(actions);
        }
        let ghost s1v = self@;
        let ghost acts1 = actions.deep_view();
        let ghost a1 = if !mc {
            spec_remove_module_dir(old(self)@).1
        } else {
            Seq::<ActionView>::empty()
        };
        proof {
            assert(acts1 =~= a0 + a1);
        }
        let rp = self.resolved_paths(env);
        if !rp.is_consistent() {
            let index_path: Option<String> = match &self.in_index {
                Option::Some(i) => Option::Some(i.path.clone()),
                Option::None => Option::None,
            };
            match index_path {
                Option::Some(index_path) => {
                    if self.in_modules.is_some() && !opt_str_eq(&rp.in_index, &rp.in_modules) {
                        self.force_remove_module_dir(actions);
                    }
                    let ghost s2av = self@;
                    let ghost acts2a = actions.deep_view();
                    proof {
                        let rpv = spec_resolved_paths(s1v, env@);
                        let (s2a, a2a) = if s1v.in_modules is Some && rpv.in_index
                            != rpv.in_modules {
                            spec_remove_module_dir(s1v)
                        } else {
                            (s1v, Seq::<ActionView>::empty())
                        };
                        assert(s2av == s2a);
                        assert(acts2a =~= acts1 + a2a);
                    }
                    let mut pushed = false;
                    if let Option::Some(g) = &self.in_gitmodules {
                        if !opt_str_eq(&rp.in_index, &rp.in_gitmodules) {
                            actions.push(
                                Action::SetGitmodulesPath {
                                    name: g.name.clone(),
                                    path: index_path,
                                },
                            );
                            pushed = true;
                        }
                    }
                    proof {
                        let (s2, a2) = spec_fix_paths(s1v, env@);
                        assert(self@ == s2);
                        if pushed {
                            assert(actions.deep_view() =~= acts2a.push(
                                actions.deep_view().last(),
                            ));
                            assert(actions.deep_view() =~= acts1 + a2);
                        } else {
                            assert(actions.deep_view() =~= acts1 + a2);
                        }
                    }
                },
                Option::None => {
                    proof {
                        let (s2, a2) = spec_fix_paths(s1v, env@);
                        assert(self@ == s2);
                        assert(actions.deep_view() =~= acts1 + a2);
                    }
                },
            }
        } else {
            proof {
                let (s2, a2) = spec_fix_paths(s1v, env@);
                assert(self@ == s2);
                assert(actions.deep_view() =~= acts1 + a2);
            }
        }
        let ghost s2v = self@;
        let ghost acts2 = actions.deep_view();
        let issue = self.find_issue();
        self.fix_issue(issue, actions);
        proof {
            let (rec, acts, err) = spec_fix(old(self)@, env@);
            let a2 = spec_fix_paths(s1v, env@).1;
            let a3 = spec_fix_issue(s2v, spec_issue(s2v)).1;
            assert(acts2 == acts1 + a2);
            assert(acts =~= a1 + a2 + a3);
            assert(final(actions).deep_view() =~= a0 + acts);
        }
        Ok(())
    }
}

/// Whether a record is healthy in its environment: the module store entry is
/// consistent, the resolved paths agree, and the presence pattern raises no
/// issue. `Err` carries the git-dir that could not be resolved.
pub open spec fn spec_is_healthy(s: SubmoduleView, env: SubmoduleEnvView) -> Result<
    bool,
    Seq<char>,
> {
    match spec_sub_module_consistent(s, env) {
        Err(p) => Err(p),
        Ok(false) => Ok(false),
        Ok(true) => Ok(
            spec_paths_consistent(spec_resolved_paths(s, env)) && spec_issue(s)
                == PartsIssue::Healthy,
        ),
    }
}

} // verus!

verus! {

/// A record present in all four sources, with mutually consistent resolved
/// paths, is classified healthy.
pub proof fn lemma_classify_all_present(s: SubmoduleView, paths: SubmodulePathsView)
    requires
        s.in_gitmodules is Some,
        s.in_config is Some,
        s.in_modules is Some,
        s.in_index is Some,
        spec_paths_consistent(paths),
    ensures
        spec_issue(s) == PartsIssue::Healthy,
{
}

/// A record that exists (at least one source present) but is missing its
/// index entry is classified as missing the index, whatever the other
/// sources hold.
pub proof fn lemma_classify_missing_index(s: SubmoduleView)
    requires
        s.in_index is None,
        s.in_gitmodules is Some || s.in_config is Some || s.in_modules is Some,
    ensures
        spec_issue(s) == PartsIssue::MissingIndex,
{
}

/// A record that is missing its manifest entry but still has an index entry
/// is classified as missing the manifest. (Without an index entry the missing
/// index wins: a record with only a local-config entry classifies as
/// `MissingIndex`, not as `MissingInGitModules`.)
pub proof fn lemma_classify_missing_manifest(s: SubmoduleView)
    requires
        s.in_gitmodules is None,
        s.in_index is Some,
    ensures
        spec_issue(s) == PartsIssue::MissingInGitModules,
{
}

/// Fixing an already-healthy record is a no-op: it decides on no action and
/// leaves the record unchanged.
pub proof fn lemma_fix_healthy_noop(s: SubmoduleView, env: SubmoduleEnvView)
    requires
        spec_is_healthy(s, env) == Result::<bool, Seq<char>>::Ok(true),
    ensures
        spec_fix(s, env).0 == s,
        spec_fix(s, env).1 == Seq::<ActionView>::empty(),
        spec_fix(s, env).2 is None,
{
    assert(spec_fix(s, env).1 =~= Seq::<ActionView>::empty());
}

/// The repair converges after one pass: running it a second time on the
/// record it produced, in the same environment, leaves that record as it is.
pub proof fn lemma_fix_convergent(s: SubmoduleView, env: SubmoduleEnvView)
    ensures
        spec_fix(spec_fix(s, env).0, env).0 == spec_fix(s, env).0,
{
}

/// A module-store entry whose recorded git-dir resolves to a place other
/// than the expected `<git-dir>/modules/<name>` location is inconsistent,
/// and the repair deletes that module store.
pub proof fn lemma_fix_bad_git_dir(s: SubmoduleView, env: SubmoduleEnvView, m: GitModuleView)
    requires
        s.in_modules == Option::Some(m),
        m.git_dir is Some,
        env.module_git_dir is Some,
        env.module_git_dir != Option::Some(env.expected_git_dir),
    ensures
        spec_sub_module_consistent(s, env) == Result::<bool, Seq<char>>::Ok(false),
        spec_fix(s, env).0.in_modules is None,
        spec_fix(s, env).1.contains(
            ActionView::RemoveModuleDir { name: m.name, worktree: m.worktree },
        ),
{
    let acts = spec_fix(s, env).1;
    assert(acts[0] == ActionView::RemoveModuleDir { name: m.name, worktree: m.worktree });
    assert(acts.contains(acts[0]));
}

} // verus!

use crate::strutil::clone_opt;

verus! {

/// Copy a manifest record.
pub(crate) fn clone_in_gitmodules(g: &InGitmodules) -> (r: InGitmodules)
    ensures
        r@ == g@,
{
    InGitmodules {
        name: g.name.clone(),
        path: clone_opt(&g.path),
        url: clone_opt(&g.url),
        branch: clone_opt(&g.branch),
    }
}

/// Copy a local-config record.
pub(crate) fn clone_in_config(c: &InGitConfig) -> (r: InGitConfig)
    ensures
        r@ == c@,
{
    InGitConfig { name: c.name.clone(), url: c.url.clone() }
}

/// Copy a module-store record.
pub(crate) fn clone_in_git_module(m: &InGitModule) -> (r: InGitModule)
    ensures
        r@ == m@,
{
    InGitModule {
        name: m.name.clone(),
        worktree: clone_opt(&m.worktree),
        head_sha: clone_opt(&m.head_sha),
        git_dir: clone_opt(&m.git_dir),
    }
}

/// Copy an index entry.
pub(crate) fn clone_index_object(i: &IndexObject) -> (r: IndexObject)
    ensures
        r@ == i@,
{
    IndexObject { path: i.path.clone(), sha: i.sha.clone() }
}

/// Copy a whole submodule record.
pub(crate) fn clone_submodule(s: &Submodule) -> (r: Submodule)
    ensures
        r@ == s@,
{
    Submodule {
        in_gitmodules: match &s.in_gitmodules {
            Option::Some(g) => Option::Some(clone_in_gitmodules(g)),
            Option::None => Option::None,
        },
        in_config: match &s.in_config {
            Option::Some(c) => Option::Some(clone_in_config(c)),
            Option::None => Option::None,
        },
        in_modules: match &s.in_modules {
            Option::Some(m) => Option::Some(clone_in_git_module(m)),
            Option::None => Option::None,
        },
        in_index: match &s.in_index {
            Option::Some(i) => Option::Some(clone_index_object(i)),
            Option::None => Option::None,
        },
    }
}

} // verus!
