//! The workspace-level tools: the overview of all projects and the
//! conventions that apply across them.
use vstd::prelude::*;
use crate::config::WorkspaceConfig;
use crate::registry::{name_of, unique_names, ProjectEntry};
use crate::server::{opt_view, result_view, Server, ToolArgs};
use crate::text::{chars_of, concat_map, joined, join_strings, lemma_concat_map_step, views};
use crate::tools::{categories_spec, language_of, language_or_unknown, not_found_msg, render_categories};

verus! {

/// Lexicographic order of texts, character by character (the order of
/// `String`).
pub open spec fn lex_lt(a: Seq<char>, b: Seq<char>) -> bool
    decreases a.len(),
{
    if b.len() == 0 {
        false
    } else if a.len() == 0 {
        true
    } else if a[0] != b[0] {
        (a[0] as int) < (b[0] as int)
    } else {
        lex_lt(a.drop_first(), b.drop_first())
    }
}

pub proof fn lemma_lex_lt_asymmetric(a: Seq<char>, b: Seq<char>)
    requires
        lex_lt(a, b),
    ensures
        !lex_lt(b, a),
    decreases a.len(),
{
    if a.len() > 0 && b.len() > 0 && a[0] == b[0] {
        lemma_lex_lt_asymmetric(a.drop_first(), b.drop_first());
    }
}

pub proof fn lemma_lex_lt_irreflexive(a: Seq<char>)
    ensures
        !lex_lt(a, a),
    decreases a.len(),
{
    if a.len() > 0 {
        lemma_lex_lt_irreflexive(a.drop_first());
    }
}

/// Two different texts are ordered one way or the other.
pub proof fn lemma_lex_lt_total(a: Seq<char>, b: Seq<char>)
    requires
        a != b,
    ensures
        lex_lt(a, b) || lex_lt(b, a),
    decreases a.len(),
{
    if a.len() > 0 && b.len() > 0 {
        if a[0] == b[0] {
            if a.drop_first() == b.drop_first() {
                assert(a.drop_first().len() == b.drop_first().len());
                assert(a.len() == b.len());
                assert forall|i: int| 0 <= i < a.len() implies a[i] == b[i] by {
                    if i > 0 {
                        assert(a[i] == a.drop_first()[i - 1]);
                        assert(b[i] == b.drop_first()[i - 1]);
                    }
                }
                assert(a =~= b);
            }
            lemma_lex_lt_total(a.drop_first(), b.drop_first());
        } else {
            assert((a[0] as int) != (b[0] as int));
        }
    } else if a.len() == 0 && b.len() == 0 {
        assert(a =~= b);
    }
}

pub proof fn lemma_lex_lt_transitive(a: Seq<char>, b: Seq<char>, c: Seq<char>)
    requires
        lex_lt(a, b),
        lex_lt(b, c),
    ensures
        lex_lt(a, c),
    decreases a.len(),
{
    if a.len() > 0 && b.len() > 0 && c.len() > 0 && a[0] == b[0] && b[0] == c[0] {
        lemma_lex_lt_transitive(a.drop_first(), b.drop_first(), c.drop_first());
    }
}

/// With distinct names, a name order is strictly increasing.
proof fn lemma_name_order_strict(reg: Seq<ProjectEntry>, order: Seq<usize>, j: int)
    requires
        unique_names(reg),
        name_order(reg, order),
        0 <= j < order.len(),
    ensures
        forall|i: int|
            0 <= i < j ==> lex_lt(
                name_of(reg[#[trigger] order[i] as int]),
                name_of(reg[order[j] as int]),
            ),
    decreases j,
{
    if j > 0 {
        lemma_name_order_strict(reg, order, j - 1);
        let prev = name_of(reg[order[j - 1] as int]);
        let cur = name_of(reg[order[j] as int]);
        assert(order[j - 1] != order[j]);
        assert(prev != cur);
        lemma_lex_lt_total(prev, cur);
        assert forall|i: int| 0 <= i < j implies lex_lt(
            name_of(reg[#[trigger] order[i] as int]),
            cur,
        ) by {
            if i < j - 1 {
                lemma_lex_lt_transitive(name_of(reg[order[i] as int]), prev, cur);
            }
        }
    }
}

proof fn lemma_name_order_agree_at(reg: Seq<ProjectEntry>, o1: Seq<usize>, o2: Seq<usize>, i: int)
    requires
        unique_names(reg),
        name_order(reg, o1),
        name_order(reg, o2),
        0 <= i < o1.len(),
        forall|p: int| 0 <= p < i ==> o1[p] == o2[p],
    ensures
        o1[i] == o2[i],
{
    let x = o1[i];
    let y = o2[i];
    if x != y {
        assert(o1.contains(y));
        let p = choose|p: int| 0 <= p < o1.len() && o1[p] == y;
        assert(o2.contains(x));
        let q = choose|q: int| 0 <= q < o2.len() && o2[q] == x;
        if p < i {
            assert(o2[p] == y);
        } else if q < i {
            assert(o1[q] == x);
        } else {
            lemma_name_order_strict(reg, o1, p);
            lemma_name_order_strict(reg, o2, q);
            assert(o1[i] == x);
            assert(o2[i] == y);
            lemma_lex_lt_asymmetric(name_of(reg[x as int]), name_of(reg[y as int]));
        }
    }
}

proof fn lemma_name_order_agree_upto(reg: Seq<ProjectEntry>, o1: Seq<usize>, o2: Seq<usize>, i: int)
    requires
        unique_names(reg),
        name_order(reg, o1),
        name_order(reg, o2),
        0 <= i <= o1.len(),
    ensures
        forall|p: int| 0 <= p < i ==> o1[p] == o2[p],
    decreases i,
{
    if i > 0 {
        lemma_name_order_agree_upto(reg, o1, o2, i - 1);
        lemma_name_order_agree_at(reg, o1, o2, i - 1);
    }
}

/// With distinct names there is exactly one name order.
pub proof fn lemma_name_order_unique(reg: Seq<ProjectEntry>, o1: Seq<usize>, o2: Seq<usize>)
    requires
        unique_names(reg),
        name_order(reg, o1),
        name_order(reg, o2),
    ensures
        o1 == o2,
{
    lemma_name_order_agree_upto(reg, o1, o2, o1.len() as int);
    assert(o1 =~= o2);
}

/// Whether `a` comes strictly before `b`.
pub fn lex_less(a: &str, b: &str) -> (r: bool)
    ensures
        r == lex_lt(a@, b@),
{
    let x = chars_of(a);
    let y = chars_of(b);
    let mut i: usize = 0;
    assert(a@.skip(0) =~= a@);
    assert(b@.skip(0) =~= b@);
    while i < x.len() && i < y.len()
        invariant
            x@ == a@,
            y@ == b@,
            i <= x@.len(),
            i <= y@.len(),
            lex_lt(a@, b@) == lex_lt(a@.skip(i as int), b@.skip(i as int)),
        decreases x@.len() - i,
    {
        assert(a@.skip(i as int)[0] == x@[i as int]);
        assert(b@.skip(i as int)[0] == y@[i as int]);
        if x[i] != y[i] {
            return x[i] < y[i];
        }
        assert(a@.skip(i as int).drop_first() =~= a@.skip(i + 1));
        assert(b@.skip(i as int).drop_first() =~= b@.skip(i + 1));
        i = i + 1;
    }
    i < y.len()
}

/// `order` lists every position of `reg` once, by project name.
pub open spec fn name_order(reg: Seq<ProjectEntry>, order: Seq<usize>) -> bool {
    &&& order.len() == reg.len()
    &&& order.no_duplicates()
    &&& forall|i: int| 0 <= i < order.len() ==> (#[trigger] order[i] as int) < reg.len()
    &&& forall|j: usize| (j as int) < reg.len() ==> #[trigger] order.contains(j)
    &&& forall|i: int|
        1 <= i < order.len() ==> !lex_lt(
            name_of(reg[#[trigger] order[i] as int]),
            name_of(reg[order[i - 1] as int]),
        )
}

/// The positions of the projects, ordered by name.
pub fn sort_by_name(projects: &Vec<ProjectEntry>) -> (order: Vec<usize>)
    ensures
        name_order(projects@, order@),
{
    let ghost reg = projects@;
    let mut order: Vec<usize> = Vec::new();
    let mut k: usize = 0;
    while k < projects.len()
        invariant
            reg == projects@,
            k <= reg.len(),
            order@.len() == k,
            order@.no_duplicates(),
            forall|i: int| 0 <= i < order@.len() ==> (#[trigger] order@[i] as int) < k,
            forall|j: usize| j < k ==> #[trigger] order@.contains(j),
            forall|i: int|
                1 <= i < order@.len() ==> !lex_lt(
                    name_of(reg[#[trigger] order@[i] as int]),
                    name_of(reg[order@[i - 1] as int]),
                ),
        decreases reg.len() - k,
    {
        let name = projects[k].config.project.name.as_str();
        let mut pos: usize = 0;
        let mut stop = false;
        while !stop && pos < order.len()
            invariant
                reg == projects@,
                k < reg.len(),
                name@ == name_of(reg[k as int]),
                pos <= order@.len(),
                forall|i: int| 0 <= i < order@.len() ==> (#[trigger] order@[i] as int) < k,
                forall|q: int| 0 <= q < pos ==> !lex_lt(name@, name_of(reg[#[trigger] order@[q] as int])),
                stop ==> pos < order@.len() && lex_lt(name@, name_of(reg[order@[pos as int] as int])),
            decreases order@.len() - pos + (if stop { 0int } else { 1int }),
        {
            let other = order[pos];
            if lex_less(name, projects[other].config.project.name.as_str()) {
                stop = true;
            } else {
                pos = pos + 1;
            }
        }
        let ghost old_order = order@;
        order.insert(pos, k);
        proof {
            let o = old_order;
            let n = order@;
            assert(n == o.insert(pos as int, k));
            assert forall|i: int| 0 <= i < n.len() implies (#[trigger] n[i] as int) < k + 1 by {
                if i < pos {
                    assert(n[i] == o[i]);
                } else if i > pos {
                    assert(n[i] == o[i - 1]);
                }
            }
            assert forall|i: int, j: int| 0 <= i < n.len() && 0 <= j < n.len() && i != j implies n[i]
                != n[j] by {
                if i != pos && j != pos {
                    let oi = if i < pos { i } else { i - 1 };
                    let oj = if j < pos { j } else { j - 1 };
                    assert(n[i] == o[oi]);
                    assert(n[j] == o[oj]);
                } else if i == pos {
                    let oj = if j < pos { j } else { j - 1 };
                    assert(n[j] == o[oj]);
                } else {
                    let oi = if i < pos { i } else { i - 1 };
                    assert(n[i] == o[oi]);
                }
            }
            assert forall|j: usize| j < k + 1 implies #[trigger] n.contains(j) by {
                if j == k {
                    assert(n[pos as int] == k);
                } else {
                    assert(o.contains(j));
                    let p = choose|p: int| 0 <= p < o.len() && o[p] == j;
                    if p < pos {
                        assert(n[p] == o[p]);
                    } else {
                        assert(n[p + 1] == o[p]);
                    }
                }
            }
            assert forall|i: int| 1 <= i < n.len() implies !lex_lt(
                name_of(reg[#[trigger] n[i] as int]),
                name_of(reg[n[i - 1] as int]),
            ) by {
                if i < pos {
                    assert(n[i] == o[i] && n[i - 1] == o[i - 1]);
                } else if i == pos {
                    assert(n[i - 1] == o[i - 1]);
                } else if i == pos + 1 {
                    assert(n[i] == o[pos as int]);
                    lemma_lex_lt_asymmetric(name@, name_of(reg[o[pos as int] as int]));
                } else {
                    assert(n[i] == o[i - 1] && n[i - 1] == o[i - 2]);
                }
            }
        }
        k = k + 1;
    }
    order
}

/// The projects in the given order of their positions.
pub open spec fn ordered(reg: Seq<ProjectEntry>, order: Seq<usize>) -> Seq<ProjectEntry> {
    order.map_values(|i: usize| reg[i as int])
}

pub open spec fn overview_header(ws: Option<WorkspaceConfig>) -> Seq<char> {
    match ws {
        None => "# Workspace Overview\n\n"@,
        Some(w) => (match w.workspace.name {
            Some(n) => "# "@ + n@ + "\n\n"@,
            None => "# Workspace Overview\n\n"@,
        }) + (match w.workspace.description {
            Some(d) => d@ + "\n\n"@,
            None => Seq::empty(),
        }),
    }
}

pub open spec fn overview_line(e: ProjectEntry) -> Seq<char> {
    "- **"@ + e.config.project.name@ + "** ("@ + language_or_unknown(e) + "): "@
        + e.config.project.description@ + "\n"@
}

pub open spec fn has_links(e: ProjectEntry) -> bool {
    e.config.related_projects.upstream@.len() > 0 || e.config.related_projects.downstream@.len() > 0
}

/// The first-hop relations that a project declares itself.
pub open spec fn dependency_block(e: ProjectEntry) -> Seq<char> {
    let up = e.config.related_projects.upstream@;
    let down = e.config.related_projects.downstream@;
    if !has_links(e) {
        Seq::empty()
    } else {
        "**"@ + e.config.project.name@ + "**:\n"@ + (if up.len() > 0 {
            "  ← depends on: "@ + joined(views(up), ", "@) + "\n"@
        } else {
            Seq::empty()
        }) + (if down.len() > 0 {
            "  → used by: "@ + joined(views(down), ", "@) + "\n"@
        } else {
            Seq::empty()
        })
    }
}

/// The overview of the workspace, with the projects listed in `order`.
pub open spec fn overview_text(
    root: Seq<char>,
    ws: Option<WorkspaceConfig>,
    reg: Seq<ProjectEntry>,
    order: Seq<usize>,
) -> Seq<char> {
    let head = overview_header(ws) + "**Root:** "@ + root + "\n\n"@;
    if reg.len() == 0 {
        head + "No projects found.\n"@
    } else {
        let projects = ordered(reg, order);
        head + "## Projects\n\n"@ + concat_map(projects, |e: ProjectEntry| overview_line(e))
            + "\n## Dependencies\n\n"@ + concat_map(
            projects,
            |e: ProjectEntry| dependency_block(e),
        ) + (if exists|i: int| 0 <= i < projects.len() && has_links(#[trigger] projects[i]) {
            Seq::empty()
        } else {
            "No cross-project dependencies defined.\n"@
        }) + (if ws is Some {
            "\n*Use get_workspace_conventions() for workspace-wide coding standards.*"@
        } else {
            Seq::empty()
        })
    }
}

fn render_header(ws: &Option<WorkspaceConfig>) -> (r: String)
    ensures
        r@ == overview_header(*ws),
{
    match ws {
        None => "# Workspace Overview\n\n".to_owned(),
        Some(w) => {
            let mut out = match &w.workspace.name {
                Some(n) => {
                    let mut h = "# ".to_owned();
                    h.append(n.as_str());
                    h.append("\n\n");
                    h
                },
                None => "# Workspace Overview\n\n".to_owned(),
            };
            match &w.workspace.description {
                Some(d) => {
                    out.append(d.as_str());
                    out.append("\n\n");
                },
                None => {},
            }
            assert(out@ =~= overview_header(*ws));
            out
        },
    }
}

fn render_dependency_block(e: &ProjectEntry) -> (r: String)
    ensures
        r@ == dependency_block(*e),
{
    let up = &e.config.related_projects.upstream;
    let down = &e.config.related_projects.downstream;
    if up.len() == 0 && down.len() == 0 {
        return String::new();
    }
    let mut out = "**".to_owned();
    out.append(e.config.project.name.as_str());
    out.append("**:\n");
    if up.len() > 0 {
        out.append("  ← depends on: ");
        let j = join_strings(up, ", ");
        out.append(j.as_str());
        out.append("\n");
    }
    if down.len() > 0 {
        out.append("  → used by: ");
        let j = join_strings(down, ", ");
        out.append(j.as_str());
        out.append("\n");
    }
    assert(out@ =~= dependency_block(*e));
    out
}

fn push_overview_lines(out: &mut String, projects: &Vec<ProjectEntry>, order: &Vec<usize>)
    requires
        name_order(projects@, order@),
    ensures
        final(out)@ == old(out)@ + concat_map(
            ordered(projects@, order@),
            |e: ProjectEntry| overview_line(e),
        ),
{
    let ghost list = ordered(projects@, order@);
    let ghost f = |e: ProjectEntry| overview_line(e);
    let ghost start = out@;
    let mut i: usize = 0;
    while i < order.len()
        invariant
            name_order(projects@, order@),
            list == ordered(projects@, order@),
            f == (|e: ProjectEntry| overview_line(e)),
            i <= order@.len(),
            out@ == start + concat_map(list.take(i as int), f),
        decreases order@.len() - i,
    {
        proof {
            lemma_concat_map_step(list, f, i as int);
        }
        let e = &projects[order[i]];
        let ghost before = out@;
        out.append("- **");
        out.append(e.config.project.name.as_str());
        out.append("** (");
        out.append(language_of(e));
        out.append("): ");
        out.append(e.config.project.description.as_str());
        out.append("\n");
        assert(out@ =~= before + f(list[i as int]));
        i = i + 1;
    }
    assert(list.take(i as int) =~= list);
}

/// Appends the dependency blocks; tells whether any project declares a relation.
fn push_dependency_blocks(out: &mut String, projects: &Vec<ProjectEntry>, order: &Vec<usize>) -> (any:
    bool)
    requires
        name_order(projects@, order@),
    ensures
        final(out)@ == old(out)@ + concat_map(
            ordered(projects@, order@),
            |e: ProjectEntry| dependency_block(e),
        ),
        any == exists|j: int|
            0 <= j < order@.len() && has_links(#[trigger] ordered(projects@, order@)[j]),
{
    let ghost list = ordered(projects@, order@);
    let ghost g = |e: ProjectEntry| dependency_block(e);
    let ghost start = out@;
    let mut any = false;
    let mut i: usize = 0;
    while i < order.len()
        invariant
            name_order(projects@, order@),
            list == ordered(projects@, order@),
            g == (|e: ProjectEntry| dependency_block(e)),
            i <= order@.len(),
            out@ == start + concat_map(list.take(i as int), g),
            any == exists|j: int| 0 <= j < i && has_links(#[trigger] list[j]),
        decreases order@.len() - i,
    {
        proof {
            lemma_concat_map_step(list, g, i as int);
        }
        let e = &projects[order[i]];
        assert(list[i as int] == *e);
        let block = render_dependency_block(e);
        out.append(block.as_str());
        if e.config.related_projects.upstream.len() > 0
            || e.config.related_projects.downstream.len() > 0 {
            any = true;
        }
        i = i + 1;
    }
    assert(list.take(i as int) =~= list);
    any
}

pub open spec fn no_workspace_msg() -> Seq<char> {
    "No workspace.toml found. Create .jumble/workspace.toml at the workspace root to define workspace-level conventions."@
}

pub open spec fn workspace_name(w: WorkspaceConfig) -> Seq<char> {
    match w.workspace.name {
        Some(n) => n@,
        None => "Workspace"@,
    }
}

pub open spec fn workspace_conventions_spec(ws: Option<WorkspaceConfig>, args: ToolArgs) -> Result<
    Seq<char>,
    Seq<char>,
> {
    match ws {
        None => Err(no_workspace_msg()),
        Some(w) => if w.conventions@.len() == 0 && w.gotchas@.len() == 0 {
            Ok("Workspace config exists but no conventions or gotchas defined."@)
        } else {
            categories_spec(
                w.conventions@,
                w.gotchas@,
                opt_view(args.category),
                "# "@ + workspace_name(w) + " Conventions\n\n"@,
                "# "@ + workspace_name(w) + " Gotchas\n\n"@,
                "No workspace conventions defined."@,
                "No workspace gotchas defined."@,
            )
        },
    }
}

/// Without a workspace descriptor, the workspace conventions tool answers
/// with its own message, which no "project not found" message equals.
pub proof fn law_no_workspace_is_distinct(args: ToolArgs, project: Seq<char>)
    ensures
        workspace_conventions_spec(None, args) == Err::<Seq<char>, Seq<char>>(no_workspace_msg()),
        no_workspace_msg() != not_found_msg(project),
{
    reveal_strlit(
        "No workspace.toml found. Create .jumble/workspace.toml at the workspace root to define workspace-level conventions.",
    );
    reveal_strlit("Project '");
    assert(no_workspace_msg()[0] == 'N');
    assert(not_found_msg(project)[0] == 'P');
}

impl Server {
    /// The workspace's name and description, its root, its projects sorted
    /// by name, and the relations each project declares. Never an error.
    pub fn tool_get_workspace_overview(&self) -> (r: Result<String, String>)
        requires
            self.wf(),
        ensures
            r is Ok,
            exists|order: Seq<usize>| name_order(self.registry.projects@, order),
            forall|order: Seq<usize>|
                #[trigger] name_order(self.registry.projects@, order) ==> result_view(r) == Ok::<
                    Seq<char>,
                    Seq<char>,
                >(overview_text(self.root@, self.workspace, self.registry.projects@, order)),
    {
        let projects = &self.registry.projects;
        let mut out = render_header(&self.workspace);
        out.append("**Root:** ");
        out.append(self.root.as_str());
        out.append("\n\n");
        if projects.len() == 0 {
            out.append("No projects found.\n");
            let order: Vec<usize> = Vec::new();
            assert(name_order(projects@, order@));
            assert(out@ =~= overview_text(self.root@, self.workspace, projects@, order@));
            proof {
                assert forall|o: Seq<usize>| #[trigger] name_order(projects@, o) implies o == order@ by {
                    lemma_name_order_unique(projects@, o, order@);
                }
            }
            return Ok(out);
        }
        let order = sort_by_name(projects);
        out.append("## Projects\n\n");
        push_overview_lines(&mut out, projects, &order);
        out.append("\n## Dependencies\n\n");
        let any = push_dependency_blocks(&mut out, projects, &order);
        if !any {
            out.append("No cross-project dependencies defined.\n");
        }
        if self.workspace.is_some() {
            out.append("\n*Use get_workspace_conventions() for workspace-wide coding standards.*");
        }
        assert(out@ =~= overview_text(self.root@, self.workspace, projects@, order@));
        proof {
            assert forall|o: Seq<usize>| #[trigger] name_order(projects@, o) implies o == order@ by {
                lemma_name_order_unique(projects@, o, order@);
            }
        }
        Ok(out)
    }

    /// The conventions and gotchas of the workspace, all or of one category;
    /// an error of its own when there is no workspace descriptor.
    pub fn tool_get_workspace_conventions(&self, args: &ToolArgs) -> (r: Result<String, String>)
        ensures
            result_view(r) == workspace_conventions_spec(self.workspace, *args),
    {
        let w = match &self.workspace {
            None => {
                return Err(
                    "No workspace.toml found. Create .jumble/workspace.toml at the workspace root to define workspace-level conventions.".to_owned(),
                );
            },
            Some(w) => w,
        };
        if w.conventions.len() == 0 && w.gotchas.len() == 0 {
            return Ok("Workspace config exists but no conventions or gotchas defined.".to_owned());
        }
        let name = match &w.workspace.name {
            Some(n) => n.as_str(),
            None => "Workspace",
        };
        let mut conventions_title = "# ".to_owned();
        conventions_title.append(name);
        conventions_title.append(" Conventions\n\n");
        let mut gotchas_title = "# ".to_owned();
        gotchas_title.append(name);
        gotchas_title.append(" Gotchas\n\n");
        render_categories(
            &w.conventions,
            &w.gotchas,
            &args.category,
            conventions_title.as_str(),
            gotchas_title.as_str(),
            "No workspace conventions defined.",
            "No workspace gotchas defined.",
        )
    }
}

} // verus!
