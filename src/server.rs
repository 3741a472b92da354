//! The server state: the workspace root, its descriptor and the registry of
//! the last discovery pass.
//!
//! Freshness policy: before every tool call (`needs_discovery` says when)
//! a whole discovery pass is redone, and `reload` replaces the workspace
//! descriptor and the registry with what it found.
use vstd::prelude::*;
use crate::config::WorkspaceConfig;
use crate::registry::{registry_of, sources_wf, ProjectSource, Registry};

verus! {

/// The arguments of a tool call that the tools read; an argument that was
/// absent or not a string is `None`.
#[derive(Clone, Debug)]
pub struct ToolArgs {
    pub project: Option<String>,
    pub field: Option<String>,
    pub command_type: Option<String>,
    pub concept: Option<String>,
    pub query: Option<String>,
    pub topic: Option<String>,
    pub category: Option<String>,
}

pub open spec fn opt_view(o: Option<String>) -> Option<Seq<char>> {
    match o {
        Some(s) => Some(s@),
        None => None,
    }
}

pub open spec fn result_view(r: Result<String, String>) -> Result<Seq<char>, Seq<char>> {
    match r {
        Ok(s) => Ok(s@),
        Err(e) => Err(e@),
    }
}

impl ToolArgs {
    /// Arguments with nothing given.
    pub fn none() -> (r: ToolArgs)
        ensures
            r.project is None,
            r.field is None,
            r.command_type is None,
            r.concept is None,
            r.query is None,
            r.topic is None,
            r.category is None,
    {
        ToolArgs {
            project: None,
            field: None,
            command_type: None,
            concept: None,
            query: None,
            topic: None,
            category: None,
        }
    }
}

/// The server: the root it serves, the workspace descriptor found there,
/// and the registry of the last discovery pass.
#[derive(Clone, Debug)]
pub struct Server {
    pub root: String,
    pub workspace: Option<WorkspaceConfig>,
    pub registry: Registry,
}

impl Server {
    pub open spec fn wf(&self) -> bool {
        &&& self.registry.wf()
        &&& (self.workspace matches Some(w) ==> w.wf())
    }

    /// A server for `root`, with the workspace descriptor loaded there (if
    /// any) and the sources of a first discovery pass.
    pub fn new(root: String, workspace: Option<WorkspaceConfig>, sources: Vec<ProjectSource>) -> (r:
        Server)
        requires
            workspace matches Some(w) ==> w.wf(),
            sources_wf(sources@),
        ensures
            r.wf(),
            r.root@ == root@,
            r.workspace == workspace,
            r.registry.projects@ == registry_of(sources@),
    {
        Server { root, workspace, registry: Registry::build(sources) }
    }

    /// Takes in the outcome of a new discovery pass: the workspace descriptor
    /// and the registry are replaced, and nothing of the previous ones survives.
    pub fn reload(&mut self, workspace: Option<WorkspaceConfig>, sources: Vec<ProjectSource>)
        requires
            workspace matches Some(w) ==> w.wf(),
            sources_wf(sources@),
        ensures
            final(self).wf(),
            final(self).root == old(self).root,
            final(self).workspace == workspace,
            final(self).registry.projects@ == registry_of(sources@),
    {
        self.workspace = workspace;
        self.registry = Registry::build(sources);
    }
}

} // verus!
