//! The project registry: what one discovery pass found, keyed by project name.
//!
//! Walking the tree and reading files happen outside the library; it hands
//! over, in traversal order, one `ProjectSource` per project marker with the
//! outcome of each load. Building the registry from those sources, where the
//! markers and the auxiliary files lie, and which prompt files count, is
//! decided here.
use vstd::prelude::*;
use crate::config::{ProjectConfig, ProjectConventions, ProjectDocs, ProjectPrompts};
use crate::text::{
    ends_with_str, first_index, join_path, lemma_first_index, lemma_first_index_at,
    lemma_first_index_none, path_join, seq_ends_with, str_eq, views,
};

verus! {

/// What was read for one project marker. Each load is best-effort: `None`
/// records a file that was absent, unreadable or malformed.
#[derive(Clone, Debug)]
pub struct ProjectSource {
    pub project_dir: String,
    pub descriptor: Option<ProjectConfig>,
    pub prompts: ProjectPrompts,
    pub conventions: Option<ProjectConventions>,
    pub docs: Option<ProjectDocs>,
}

/// One project of the registry: its root directory, its descriptor, and its
/// auxiliary facets (`None` for a facet that could not be loaded).
#[derive(Clone, Debug)]
pub struct ProjectEntry {
    pub dir: String,
    pub config: ProjectConfig,
    pub prompts: ProjectPrompts,
    pub conventions: Option<ProjectConventions>,
    pub docs: Option<ProjectDocs>,
}

/// The projects of one discovery pass, at most one per name.
#[derive(Clone, Debug)]
pub struct Registry {
    pub projects: Vec<ProjectEntry>,
}

pub open spec fn name_of(e: ProjectEntry) -> Seq<char> {
    e.config.project.name@
}

/// The entry whose project is called `name`.
pub open spec fn named(name: Seq<char>) -> spec_fn(ProjectEntry) -> bool {
    |e: ProjectEntry| name_of(e) == name
}

pub open spec fn unique_names(reg: Seq<ProjectEntry>) -> bool {
    forall|i: int, j: int|
        0 <= i < reg.len() && 0 <= j < reg.len() && i != j ==> name_of(#[trigger] reg[i])
            != name_of(#[trigger] reg[j])
}

impl ProjectSource {
    /// Every mapping that loaded has distinct keys.
    pub open spec fn wf(&self) -> bool {
        &&& (self.descriptor matches Some(c) ==> c.wf())
        &&& self.prompts.wf()
        &&& (self.conventions matches Some(c) ==> c.wf())
        &&& (self.docs matches Some(d) ==> d.wf())
    }

    pub fn is_valid(&self) -> (r: bool)
        ensures
            r == self.wf(),
    {
        let descriptor = match &self.descriptor {
            Some(c) => c.is_valid(),
            None => true,
        };
        let conventions = match &self.conventions {
            Some(c) => c.is_valid(),
            None => true,
        };
        let docs = match &self.docs {
            Some(d) => d.is_valid(),
            None => true,
        };
        descriptor && self.prompts.is_valid() && conventions && docs
    }
}

impl ProjectEntry {
    /// Every mapping of the project has distinct keys.
    pub open spec fn wf(&self) -> bool {
        &&& self.config.wf()
        &&& self.prompts.wf()
        &&& (self.conventions matches Some(c) ==> c.wf())
        &&& (self.docs matches Some(d) ==> d.wf())
    }
}

/// Every source is well formed.
pub open spec fn sources_wf(sources: Seq<ProjectSource>) -> bool {
    forall|i: int| 0 <= i < sources.len() ==> (#[trigger] sources[i]).wf()
}

impl Registry {
    /// Project names are distinct, and every project is well formed.
    pub open spec fn wf(&self) -> bool {
        &&& unique_names(self.projects@)
        &&& forall|k: int| 0 <= k < self.projects@.len() ==> (#[trigger] self.projects@[k]).wf()
    }
}

/// The entry a source yields: none when its descriptor did not load.
pub open spec fn entry_of(s: ProjectSource) -> Option<ProjectEntry> {
    match s.descriptor {
        Some(c) => Some(
            ProjectEntry {
                dir: s.project_dir,
                config: c,
                prompts: s.prompts,
                conventions: s.conventions,
                docs: s.docs,
            },
        ),
        None => None,
    }
}

/// Adds an entry; one with the same name is replaced in its place.
pub open spec fn insert_entry(reg: Seq<ProjectEntry>, e: ProjectEntry) -> Seq<ProjectEntry> {
    match first_index(reg, named(name_of(e))) {
        Some(i) => reg.update(i, e),
        None => reg.push(e),
    }
}

/// The registry that the sources give when taken in order.
pub open spec fn registry_of(sources: Seq<ProjectSource>) -> Seq<ProjectEntry>
    decreases sources.len(),
{
    if sources.len() == 0 {
        Seq::empty()
    } else {
        let reg = registry_of(sources.drop_last());
        match entry_of(sources.last()) {
            Some(e) => insert_entry(reg, e),
            None => reg,
        }
    }
}

/// The entry of the registry for `name`.
pub open spec fn lookup(reg: Seq<ProjectEntry>, name: Seq<char>) -> Option<ProjectEntry> {
    match first_index(reg, named(name)) {
        Some(i) => Some(reg[i]),
        None => None,
    }
}

/// The entry of the last source whose descriptor loaded and names `name`.
pub open spec fn last_named(sources: Seq<ProjectSource>, name: Seq<char>) -> Option<ProjectEntry>
    decreases sources.len(),
{
    if sources.len() == 0 {
        None
    } else {
        match entry_of(sources.last()) {
            Some(e) => if name_of(e) == name {
                Some(e)
            } else {
                last_named(sources.drop_last(), name)
            },
            None => last_named(sources.drop_last(), name),
        }
    }
}

proof fn lemma_insert_entry(reg: Seq<ProjectEntry>, e: ProjectEntry, name: Seq<char>)
    requires
        unique_names(reg),
    ensures
        unique_names(insert_entry(reg, e)),
        lookup(insert_entry(reg, e), name) == if name_of(e) == name {
            Some(e)
        } else {
            lookup(reg, name)
        },
{
    let k = name_of(e);
    let r2 = insert_entry(reg, e);
    lemma_first_index(reg, named(k));
    lemma_first_index(reg, named(name));
    match first_index(reg, named(k)) {
        Some(i) => {
            assert forall|j: int| 0 <= j < reg.len() implies name_of(#[trigger] r2[j]) == name_of(
                reg[j],
            ) by {}
            if name == k {
                lemma_first_index_at(r2, named(name), i);
            } else {
                match first_index(reg, named(name)) {
                    Some(j) => {
                        assert(r2[j] == reg[j]);
                        lemma_first_index_at(r2, named(name), j);
                    },
                    None => {
                        lemma_first_index_none(r2, named(name));
                    },
                }
            }
        },
        None => {
            assert forall|j: int| 0 <= j < reg.len() implies name_of(#[trigger] r2[j]) == name_of(
                reg[j],
            ) by {}
            if name == k {
                lemma_first_index_at(r2, named(name), reg.len() as int);
            } else {
                match first_index(reg, named(name)) {
                    Some(j) => {
                        lemma_first_index_at(r2, named(name), j);
                    },
                    None => {
                        lemma_first_index_none(r2, named(name));
                    },
                }
            }
        },
    }
}

/// Every registry built from sources holds at most one entry per project
/// name, and the entry for a name is the one of the last source, in
/// traversal order, whose descriptor loaded and carries that name. So a
/// duplicate name yields exactly one entry, the last one visited; and since
/// the registry is rebuilt from the sources of each pass, a project whose
/// descriptor is gone from disk is gone from it, and one that was added is in it.
pub proof fn law_last_source_wins(sources: Seq<ProjectSource>, name: Seq<char>)
    ensures
        unique_names(registry_of(sources)),
        lookup(registry_of(sources), name) == last_named(sources, name),
    decreases sources.len(),
{
    if sources.len() > 0 {
        law_last_source_wins(sources.drop_last(), name);
        match entry_of(sources.last()) {
            Some(e) => {
                lemma_insert_entry(registry_of(sources.drop_last()), e, name);
            },
            None => {},
        }
    } else {
        lemma_first_index_none(registry_of(sources), named(name));
    }
}

/// Every entry of a registry is the entry of one of its sources.
pub proof fn lemma_entries_from_sources(sources: Seq<ProjectSource>)
    ensures
        forall|k: int|
            #![trigger registry_of(sources)[k]]
            0 <= k < registry_of(sources).len() ==> exists|i: int|
                0 <= i < sources.len() && entry_of(#[trigger] sources[i]) == Some(
                    registry_of(sources)[k],
                ),
    decreases sources.len(),
{
    if sources.len() > 0 {
        let init = sources.drop_last();
        lemma_entries_from_sources(init);
        let reg = registry_of(init);
        let last = sources.len() - 1;
        assert forall|k: int|
            #![trigger registry_of(sources)[k]]
            0 <= k < registry_of(sources).len() implies exists|i: int|
            0 <= i < sources.len() && entry_of(#[trigger] sources[i]) == Some(
                registry_of(sources)[k],
            ) by {
            let r2 = registry_of(sources);
            assert(sources.last() == sources[last]);
            if k < reg.len() && r2[k] == reg[k] {
                let i = choose|i: int| 0 <= i < init.len() && entry_of(#[trigger] init[i]) == Some(reg[k]);
                assert(sources[i] == init[i]);
            } else {
                match entry_of(sources.last()) {
                    Some(e) => {
                        lemma_first_index(reg, named(name_of(e)));
                        assert(r2[k] == e);
                    },
                    None => {},
                }
            }
        }
    }
}

/// Whether some source's descriptor loaded and names `name`.
pub open spec fn declared(sources: Seq<ProjectSource>, name: Seq<char>) -> bool {
    exists|i: int|
        0 <= i < sources.len() && (#[trigger] entry_of(sources[i])) is Some && name_of(
            entry_of(sources[i])->Some_0,
        ) == name
}

proof fn lemma_last_named_declared(sources: Seq<ProjectSource>, name: Seq<char>)
    ensures
        last_named(sources, name) is Some <==> declared(sources, name),
    decreases sources.len(),
{
    if sources.len() > 0 {
        let init = sources.drop_last();
        lemma_last_named_declared(init, name);
        if declared(init, name) {
            let i = choose|i: int|
                0 <= i < init.len() && (#[trigger] entry_of(init[i])) is Some && name_of(
                    entry_of(init[i])->Some_0,
                ) == name;
            assert(sources[i] == init[i]);
        }
        if declared(sources, name) {
            let i = choose|i: int|
                0 <= i < sources.len() && (#[trigger] entry_of(sources[i])) is Some && name_of(
                    entry_of(sources[i])->Some_0,
                ) == name;
            if i < sources.len() - 1 {
                assert(init[i] == sources[i]);
            }
        }
    }
}

/// A registry rebuilt from the current sources holds a project exactly when
/// some descriptor on disk now declares it: one deleted since the previous
/// pass is gone, one added since is there, with no restart.
pub proof fn law_registry_follows_disk(sources: Seq<ProjectSource>, name: Seq<char>)
    ensures
        lookup(registry_of(sources), name) is Some <==> declared(sources, name),
{
    law_last_source_wins(sources, name);
    lemma_last_named_declared(sources, name);
}

/// A source whose descriptor did not load leaves the registry as if it had
/// not been visited: the projects around it are found all the same.
pub proof fn law_malformed_source_skipped(
    before: Seq<ProjectSource>,
    bad: ProjectSource,
    after: Seq<ProjectSource>,
)
    requires
        bad.descriptor is None,
    ensures
        registry_of(before + seq![bad] + after) == registry_of(before + after),
    decreases after.len(),
{
    if after.len() == 0 {
        assert((before + seq![bad] + after).drop_last() =~= before);
        assert(before + after =~= before);
    } else {
        law_malformed_source_skipped(before, bad, after.drop_last());
        assert((before + seq![bad] + after).drop_last() =~= before + seq![bad] + after.drop_last());
        assert((before + after).drop_last() =~= before + after.drop_last());
    }
}

proof fn lemma_last_named_at(sources: Seq<ProjectSource>, name: Seq<char>, ok: int)
    requires
        0 <= ok < sources.len(),
        entry_of(sources[ok]) matches Some(e) && name_of(e) == name,
        forall|j: int|
            ok < j < sources.len() && (#[trigger] entry_of(sources[j])) is Some ==> name_of(
                entry_of(sources[j])->Some_0,
            ) != name,
    ensures
        last_named(sources, name) == entry_of(sources[ok]),
    decreases sources.len(),
{
    let last = sources.len() - 1;
    assert(sources.last() == sources[last]);
    if ok < last {
        let init = sources.drop_last();
        assert(init[ok] == sources[ok]);
        assert forall|j: int|
            ok < j < init.len() && (#[trigger] entry_of(init[j])) is Some implies name_of(
                entry_of(init[j])->Some_0,
            ) != name by {
            assert(init[j] == sources[j]);
        }
        lemma_last_named_at(init, name, ok);
    }
}

/// A malformed descriptor does not hide a sibling: the sibling named `name`
/// is found with its own directory, provided no later descriptor takes the
/// same name (else that one wins); and no project is listed under the
/// malformed one's directory, provided no loaded descriptor sits there.
pub proof fn law_malformed_sibling_found(
    sources: Seq<ProjectSource>,
    bad: int,
    ok: int,
    name: Seq<char>,
)
    requires
        0 <= bad < sources.len(),
        0 <= ok < sources.len(),
        sources[bad].descriptor is None,
        entry_of(sources[ok]) matches Some(e) && name_of(e) == name,
        forall|j: int|
            ok < j < sources.len() && (#[trigger] entry_of(sources[j])) is Some ==> name_of(
                entry_of(sources[j])->Some_0,
            ) != name,
        forall|j: int|
            0 <= j < sources.len() && (#[trigger] entry_of(sources[j])) is Some
                ==> sources[j].project_dir@ != sources[bad].project_dir@,
    ensures
        lookup(registry_of(sources), name) == entry_of(sources[ok]),
        lookup(registry_of(sources), name)->Some_0.dir == sources[ok].project_dir,
        forall|k: int|
            0 <= k < registry_of(sources).len() ==> (#[trigger] registry_of(sources)[k]).dir@
                != sources[bad].project_dir@,
{
    law_last_source_wins(sources, name);
    lemma_last_named_at(sources, name, ok);
    lemma_entries_from_sources(sources);
    assert forall|k: int| 0 <= k < registry_of(sources).len() implies (#[trigger] registry_of(
        sources,
    )[k]).dir@ != sources[bad].project_dir@ by {
        let i = choose|i: int|
            0 <= i < sources.len() && entry_of(#[trigger] sources[i]) == Some(registry_of(sources)[k]);
        assert(entry_of(sources[i]) is Some);
    }
}

/// The position of the project called `name`.
pub fn find_project(projects: &Vec<ProjectEntry>, name: &str) -> (r: Option<usize>)
    ensures
        match r {
            Some(i) => first_index(projects@, named(name@)) == Some(i as int),
            None => first_index(projects@, named(name@)) == None::<int>,
        },
{
    let mut i: usize = 0;
    while i < projects.len()
        invariant
            i <= projects@.len(),
            forall|j: int| 0 <= j < i ==> !named(name@)(#[trigger] projects@[j]),
        decreases projects@.len() - i,
    {
        if str_eq(projects[i].config.project.name.as_str(), name) {
            proof {
                lemma_first_index_at(projects@, named(name@), i as int);
            }
            return Some(i);
        }
        i = i + 1;
    }
    proof {
        lemma_first_index_none(projects@, named(name@));
    }
    None
}

fn insert_project(projects: &mut Vec<ProjectEntry>, e: ProjectEntry)
    ensures
        final(projects)@ == insert_entry(old(projects)@, e),
{
    match find_project(projects, e.config.project.name.as_str()) {
        Some(i) => {
            proof {
                lemma_first_index(projects@, named(name_of(e)));
            }
            projects.set(i, e);
        },
        None => {
            projects.push(e);
        },
    }
}

impl Registry {
    /// The registry of one discovery pass, from its sources in traversal order.
    pub fn build(sources: Vec<ProjectSource>) -> (r: Registry)
        requires
            sources_wf(sources@),
        ensures
            r.projects@ == registry_of(sources@),
            r.wf(),
    {
        let ghost all = sources@;
        let n = sources.len();
        let mut rest = sources;
        let mut projects: Vec<ProjectEntry> = Vec::new();
        let mut k: usize = 0;
        while rest.len() > 0
            invariant
                k <= all.len(),
                all.len() == n,
                rest@ == all.subrange(k as int, all.len() as int),
                projects@ == registry_of(all.take(k as int)),
            decreases rest@.len(),
        {
            let s = rest.remove(0);
            assert(all.take(k + 1).drop_last() =~= all.take(k as int));
            assert(s == all[k as int]);
            match s.descriptor {
                Some(c) => {
                    let e = ProjectEntry {
                        dir: s.project_dir,
                        config: c,
                        prompts: s.prompts,
                        conventions: s.conventions,
                        docs: s.docs,
                    };
                    insert_project(&mut projects, e);
                },
                None => {},
            }
            k = k + 1;
            assert(rest@ =~= all.subrange(k as int, all.len() as int));
        }
        assert(all.take(k as int) =~= all);
        proof {
            law_last_source_wins(all, Seq::empty());
            lemma_entries_from_sources(all);
            assert forall|k: int| 0 <= k < projects@.len() implies (#[trigger] projects@[k]).wf() by {
                let i = choose|i: int| 0 <= i < all.len() && entry_of(#[trigger] all[i]) == Some(projects@[k]);
                assert(all[i].wf());
            }
        }
        Registry { projects }
    }

    /// The position of the project called `name`.
    pub fn find(&self, name: &str) -> (r: Option<usize>)
        ensures
            match r {
                Some(i) => i < self.projects@.len() && lookup(self.projects@, name@) == Some(
                    self.projects@[i as int],
                ),
                None => lookup(self.projects@, name@) == None::<ProjectEntry>,
            },
    {
        let r = find_project(&self.projects, name);
        proof {
            lemma_first_index(self.projects@, named(name@));
        }
        r
    }
}

/// A path that names a project descriptor: `project.toml` inside a
/// `.jumble` directory.
pub open spec fn is_marker(path: Seq<char>) -> bool {
    path == ".jumble/project.toml"@ || seq_ends_with(path, "/.jumble/project.toml"@)
}

/// Whether a walked path is a project descriptor.
pub fn is_project_marker(path: &str) -> (r: bool)
    ensures
        r == is_marker(path@),
{
    str_eq(path, ".jumble/project.toml") || ends_with_str(path, "/.jumble/project.toml")
}

/// The metadata directory of a marker: the marker without its last component.
pub open spec fn metadata_dir_of(marker: Seq<char>) -> Seq<char> {
    marker.subrange(0, marker.len() - "/project.toml"@.len())
}

/// The project directory of a marker: the parent of its metadata directory.
pub open spec fn project_dir_of(marker: Seq<char>) -> Seq<char> {
    if marker == ".jumble/project.toml"@ {
        Seq::empty()
    } else {
        let prefix = marker.subrange(0, marker.len() - "/.jumble/project.toml"@.len());
        if prefix.len() == 0 {
            seq!['/']
        } else {
            prefix
        }
    }
}

/// Where the files that belong to one project marker lie.
#[derive(Clone, Debug)]
pub struct MarkerPaths {
    pub project_dir: String,
    pub metadata_dir: String,
    pub conventions: String,
    pub docs: String,
    pub prompts_dir: String,
}

/// The project directory of a marker and the paths of its auxiliary files.
pub fn marker_paths(marker: &str) -> (r: MarkerPaths)
    requires
        is_marker(marker@),
    ensures
        r.project_dir@ == project_dir_of(marker@),
        r.metadata_dir@ == metadata_dir_of(marker@),
        r.conventions@ == path_join(metadata_dir_of(marker@), "conventions.toml"@),
        r.docs@ == path_join(metadata_dir_of(marker@), "docs.toml"@),
        r.prompts_dir@ == path_join(metadata_dir_of(marker@), "prompts"@),
{
    proof {
        reveal_strlit("/project.toml");
        reveal_strlit("/.jumble/project.toml");
        reveal_strlit(".jumble/project.toml");
    }
    let n = marker.unicode_len();
    let metadata = marker.substring_char(0, n - 13);
    let project_dir = if str_eq(marker, ".jumble/project.toml") {
        String::new()
    } else {
        let prefix = marker.substring_char(0, n - 21);
        if n == 21 {
            "/".to_owned()
        } else {
            prefix.to_owned()
        }
    };
    proof {
        reveal_strlit("/");
    }
    MarkerPaths {
        project_dir,
        metadata_dir: metadata.to_owned(),
        conventions: join_path(metadata, "conventions.toml"),
        docs: join_path(metadata, "docs.toml"),
        prompts_dir: join_path(metadata, "prompts"),
    }
}

/// The topic of a prompt file: the stem of a name with the `md` extension,
/// where the dot does not open the name.
pub open spec fn prompt_topic_of(file_name: Seq<char>) -> Option<Seq<char>> {
    let n = file_name.len();
    if n > 3 && file_name.subrange(n - 3, n as int) == ".md"@ {
        Some(file_name.subrange(0, n - 3))
    } else {
        None
    }
}

/// The prompt topic that a file name gives, if any.
pub fn prompt_topic(file_name: &str) -> (r: Option<String>)
    ensures
        match r {
            Some(t) => prompt_topic_of(file_name@) == Some(t@),
            None => prompt_topic_of(file_name@) is None,
        },
{
    let n = file_name.unicode_len();
    if n > 3 && ends_with_str(file_name, ".md") {
        proof {
            reveal_strlit(".md");
        }
        Some(file_name.substring_char(0, n - 3).to_owned())
    } else {
        proof {
            reveal_strlit(".md");
        }
        None
    }
}

/// The prompt pairs `(topic, path)` given by the file names of a prompts
/// directory, in the order listed.
pub open spec fn prompts_of(dir: Seq<char>, names: Seq<Seq<char>>) -> Seq<(Seq<char>, Seq<char>)>
    decreases names.len(),
{
    if names.len() == 0 {
        Seq::empty()
    } else {
        let rest = prompts_of(dir, names.drop_last());
        match prompt_topic_of(names.last()) {
            Some(t) => rest.push((t, path_join(dir, names.last()))),
            None => rest,
        }
    }
}

pub open spec fn pair_views(s: Seq<(String, String)>) -> Seq<(Seq<char>, Seq<char>)> {
    s.map_values(|e: (String, String)| (e.0@, e.1@))
}

pub open spec fn prompt_pairs(p: ProjectPrompts) -> Seq<(Seq<char>, Seq<char>)> {
    pair_views(p.prompts@)
}

/// The prompts of a project, from the file names listed in its prompts directory.
pub fn collect_prompts(prompts_dir: &str, file_names: &Vec<String>) -> (r: ProjectPrompts)
    ensures
        prompt_pairs(r) == prompts_of(prompts_dir@, views(file_names@)),
{
    let mut prompts: Vec<(String, String)> = Vec::new();
    let mut i: usize = 0;
    while i < file_names.len()
        invariant
            i <= file_names@.len(),
            pair_views(prompts@) == prompts_of(
                prompts_dir@,
                views(file_names@.take(i as int)),
            ),
        decreases file_names@.len() - i,
    {
        assert(views(file_names@.take(i + 1)).drop_last() =~= views(file_names@.take(i as int)));
        let ghost prev = prompts@;
        match prompt_topic(file_names[i].as_str()) {
            Some(t) => {
                let path = join_path(prompts_dir, file_names[i].as_str());
                prompts.push((t, path));
                assert(pair_views(prompts@) =~= pair_views(prev).push((t@, path@)));
            },
            None => {},
        }
        i = i + 1;
    }
    assert(file_names@.take(i as int) =~= file_names@);
    ProjectPrompts { prompts }
}

} // verus!
