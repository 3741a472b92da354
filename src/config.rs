//! The declarative metadata of one project and of the workspace.
//!
//! Each keyed mapping is a list of `(key, value)` pairs with distinct keys
//! (`wf`), in the order in which the loader hands them over; the text of
//! listings and which partial match comes first follow that order.
use vstd::prelude::*;
use crate::text::str_eq;

verus! {

/// No key occurs twice.
pub open spec fn unique_keys<V>(entries: Seq<(String, V)>) -> bool {
    forall|i: int, j: int|
        0 <= i < entries.len() && 0 <= j < entries.len() && i != j ==> #[trigger] entries[i].0@
            != #[trigger] entries[j].0@
}

/// Whether no key occurs twice.
pub fn keys_unique<V>(entries: &Vec<(String, V)>) -> (r: bool)
    ensures
        r == unique_keys(entries@),
{
    let n = entries.len();
    let mut i: usize = 0;
    while i < n
        invariant
            n == entries@.len(),
            i <= n,
            forall|a: int, b: int|
                0 <= a < i && 0 <= b < n && a != b ==> #[trigger] entries@[a].0@
                    != #[trigger] entries@[b].0@,
        decreases n - i,
    {
        let mut j: usize = 0;
        while j < n
            invariant
                n == entries@.len(),
                i < n,
                j <= n,
                forall|a: int, b: int|
                    0 <= a < i && 0 <= b < n && a != b ==> #[trigger] entries@[a].0@
                        != #[trigger] entries@[b].0@,
                forall|b: int| 0 <= b < j && b != i ==> entries@[i as int].0@ != #[trigger] entries@[b].0@,
            decreases n - j,
        {
            if j != i && str_eq(entries[i].0.as_str(), entries[j].0.as_str()) {
                return false;
            }
            j = j + 1;
        }
        i = i + 1;
    }
    true
}

/// The `[project]` table of a project descriptor.
#[derive(Clone, Debug)]
pub struct ProjectInfo {
    pub name: String,
    pub description: String,
    pub language: Option<String>,
    pub version: Option<String>,
    pub repository: Option<String>,
}

/// Internal (workspace project) and external (package) dependencies.
#[derive(Clone, Debug)]
pub struct Dependencies {
    pub internal: Vec<String>,
    pub external: Vec<String>,
}

/// Upstream projects this one depends on, and downstream ones that depend on it.
#[derive(Clone, Debug)]
pub struct RelatedProjects {
    pub upstream: Vec<String>,
    pub downstream: Vec<String>,
}

/// Where a project's API is described and served.
#[derive(Clone, Debug)]
pub struct ApiInfo {
    pub openapi: Option<String>,
    pub base_url: Option<String>,
    pub endpoints: Vec<String>,
}

/// A named architectural area: its files, relative to the project root, and a summary.
#[derive(Clone, Debug)]
pub struct Concept {
    pub files: Vec<String>,
    pub summary: String,
}

/// The contents of one project descriptor.
#[derive(Clone, Debug)]
pub struct ProjectConfig {
    pub project: ProjectInfo,
    pub commands: Vec<(String, String)>,
    pub entry_points: Vec<(String, String)>,
    pub dependencies: Dependencies,
    pub related_projects: RelatedProjects,
    pub api: Option<ApiInfo>,
    pub concepts: Vec<(String, Concept)>,
}

impl ProjectConfig {
    /// The commands, entry points and concepts each have distinct names.
    pub open spec fn wf(&self) -> bool {
        unique_keys(self.commands@) && unique_keys(self.entry_points@) && unique_keys(
            self.concepts@,
        )
    }

    pub fn is_valid(&self) -> (r: bool)
        ensures
            r == self.wf(),
    {
        keys_unique(&self.commands) && keys_unique(&self.entry_points) && keys_unique(
            &self.concepts,
        )
    }
}

/// Prompt topics of a project, each with the path of the file that holds it.
#[derive(Clone, Debug)]
pub struct ProjectPrompts {
    pub prompts: Vec<(String, String)>,
}

impl ProjectPrompts {
    /// Each topic occurs once.
    pub open spec fn wf(&self) -> bool {
        unique_keys(self.prompts@)
    }

    pub fn is_valid(&self) -> (r: bool)
        ensures
            r == self.wf(),
    {
        keys_unique(&self.prompts)
    }
}

/// Conventions and gotchas of a project, each a name with its text.
#[derive(Clone, Debug)]
pub struct ProjectConventions {
    pub conventions: Vec<(String, String)>,
    pub gotchas: Vec<(String, String)>,
}

impl ProjectConventions {
    /// Conventions have distinct names, and so have gotchas.
    pub open spec fn wf(&self) -> bool {
        unique_keys(self.conventions@) && unique_keys(self.gotchas@)
    }

    pub fn is_valid(&self) -> (r: bool)
        ensures
            r == self.wf(),
    {
        keys_unique(&self.conventions) && keys_unique(&self.gotchas)
    }
}

/// One indexed document: its path relative to the project root and a summary.
#[derive(Clone, Debug)]
pub struct DocEntry {
    pub path: String,
    pub summary: String,
}

/// The documentation index of a project, keyed by topic.
#[derive(Clone, Debug)]
pub struct ProjectDocs {
    pub docs: Vec<(String, DocEntry)>,
}

impl ProjectDocs {
    /// Each topic occurs once.
    pub open spec fn wf(&self) -> bool {
        unique_keys(self.docs@)
    }

    pub fn is_valid(&self) -> (r: bool)
        ensures
            r == self.wf(),
    {
        keys_unique(&self.docs)
    }
}

/// The `[workspace]` table of the workspace descriptor.
#[derive(Clone, Debug)]
pub struct WorkspaceInfo {
    pub name: Option<String>,
    pub description: Option<String>,
}

/// The workspace descriptor at the root of the tree.
#[derive(Clone, Debug)]
pub struct WorkspaceConfig {
    pub workspace: WorkspaceInfo,
    pub conventions: Vec<(String, String)>,
    pub gotchas: Vec<(String, String)>,
}

impl WorkspaceConfig {
    /// Conventions have distinct names, and so have gotchas.
    pub open spec fn wf(&self) -> bool {
        unique_keys(self.conventions@) && unique_keys(self.gotchas@)
    }

    pub fn is_valid(&self) -> (r: bool)
        ensures
            r == self.wf(),
    {
        keys_unique(&self.conventions) && keys_unique(&self.gotchas)
    }
}

} // verus!
