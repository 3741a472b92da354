//! The per-project tools: lookups in the registry rendered as text, or a
//! message saying why the request cannot be served.
use vstd::prelude::*;
use crate::concepts::{
    holds, key_equals, lower_concepts, lowered, related_block, related_concepts, render_related,
    resolve_concept, resolve_concept_spec,
};
use crate::config::{Concept, DocEntry};
use crate::format::{
    api_text, commands_text, concept_text, dependencies_text, entry_points_text, format_api,
    format_commands, format_concept, format_dependencies, format_entry_points,
    format_related_projects, optional_line, pairs_text, push_optional_line, push_pairs,
    related_projects_text,
};
use crate::registry::{lookup, ProjectEntry};
use crate::server::{opt_view, result_view, Server, ToolArgs};
use crate::text::{
    concat_map, find_key, first_index, join_keys, join_path, joined, key_is, keys_of,
    lemma_concat_map_step, lemma_first_index, lower_of, lowercase, path_join, seq_contains,
    str_eq,
};

verus! {

pub open spec fn missing_msg(arg: Seq<char>) -> Seq<char> {
    "Missing '"@ + arg + "' argument"@
}

/// The message for a project that the registry does not hold.
pub open spec fn not_found_msg(project: Seq<char>) -> Seq<char> {
    "Project '"@ + project + "' not found"@
}

fn missing(arg: &str) -> (r: String)
    ensures
        r@ == missing_msg(arg@),
{
    let mut out = "Missing '".to_owned();
    out.append(arg);
    out.append("' argument");
    out
}

fn not_found(project: &str) -> (r: String)
    ensures
        r@ == not_found_msg(project@),
{
    let mut out = "Project '".to_owned();
    out.append(project);
    out.append("' not found");
    out
}

pub open spec fn language_or_unknown(e: ProjectEntry) -> Seq<char> {
    match e.config.project.language {
        Some(l) => l@,
        None => "unknown"@,
    }
}

pub open spec fn project_line(e: ProjectEntry) -> Seq<char> {
    "- **"@ + e.config.project.name@ + "** ("@ + language_or_unknown(e) + "): "@
        + e.config.project.description@ + "\n  Path: "@ + e.dir@ + "\n"@
}

pub open spec fn list_projects_text(reg: Seq<ProjectEntry>) -> Seq<char> {
    if reg.len() == 0 {
        "No projects found. Make sure .jumble/project.toml files exist in your workspace."@
    } else {
        concat_map(reg, |e: ProjectEntry| project_line(e))
    }
}

pub fn language_of(e: &ProjectEntry) -> (r: &str)
    ensures
        r@ == language_or_unknown(*e),
{
    match &e.config.project.language {
        Some(l) => l.as_str(),
        None => "unknown",
    }
}

pub open spec fn concept_summary_lines(concepts: Seq<(String, Concept)>) -> Seq<char> {
    concat_map(concepts, |c: (String, Concept)| "- **"@ + c.0@ + "**: "@ + c.1.summary@ + "\n"@)
}

pub open spec fn project_summary(e: ProjectEntry) -> Seq<char> {
    let p = e.config.project;
    "# "@ + p.name@ + "\n\n"@ + "**Description:** "@ + p.description@ + "\n"@ + optional_line(
        "**Language:** "@,
        p.language,
        "\n"@,
    ) + optional_line("**Version:** "@, p.version, "\n"@) + optional_line(
        "**Repository:** "@,
        p.repository,
        "\n"@,
    ) + "**Path:** "@ + e.dir@ + "\n"@ + (if e.config.entry_points@.len() == 0 {
        Seq::empty()
    } else {
        "\n## Entry Points\n"@ + entry_points_text(e.config.entry_points@)
    }) + (if e.config.concepts@.len() == 0 {
        Seq::empty()
    } else {
        "\n## Concepts\n"@ + concept_summary_lines(e.config.concepts@)
    })
}

/// The facet of a project that a field names, or `None` for an unknown field.
pub open spec fn field_text(e: ProjectEntry, field: Seq<char>) -> Option<Seq<char>> {
    if field == "commands"@ {
        Some(commands_text(e.config.commands@))
    } else if field == "entry_points"@ {
        Some(entry_points_text(e.config.entry_points@))
    } else if field == "dependencies"@ {
        Some(dependencies_text(e.config.dependencies))
    } else if field == "api"@ {
        Some(api_text(e.config.api))
    } else if field == "related_projects"@ {
        Some(related_projects_text(e.config.related_projects))
    } else {
        None
    }
}

pub open spec fn project_info_spec(reg: Seq<ProjectEntry>, args: ToolArgs) -> Result<
    Seq<char>,
    Seq<char>,
> {
    match opt_view(args.project) {
        None => Err(missing_msg("project"@)),
        Some(p) => match lookup(reg, p) {
            None => Err(not_found_msg(p)),
            Some(e) => match opt_view(args.field) {
                None => Ok(project_summary(e)),
                Some(f) => match field_text(e, f) {
                    Some(t) => Ok(t),
                    None => Err("Unknown field: "@ + f),
                },
            },
        },
    }
}

/// An empty registry lists as the fixed advisory, and listing never fails.
pub proof fn law_empty_registry_lists_advisory(reg: Seq<ProjectEntry>)
    ensures
        reg.len() == 0 ==> list_projects_text(reg)
            == "No projects found. Make sure .jumble/project.toml files exist in your workspace."@,
{
}

/// For a project in the registry, the summary is always given; an unknown
/// field always fails with a message that names the field.
pub proof fn law_project_info_outcomes(reg: Seq<ProjectEntry>, args: ToolArgs)
    ensures
        match args.project {
            Some(p) => lookup(reg, p@) is Some && args.field is None ==> project_info_spec(
                reg,
                args,
            ) is Ok,
            None => true,
        },
        match (args.project, args.field) {
            (Some(p), Some(f)) => lookup(reg, p@) is Some && field_text(
                lookup(reg, p@)->Some_0,
                f@,
            ) is None ==> (project_info_spec(reg, args) matches Err(m) && seq_contains(m, f@)),
            _ => true,
        },
{
    if let Some(p) = args.project {
        if let Some(f) = args.field {
            if lookup(reg, p@) is Some && field_text(lookup(reg, p@)->Some_0, f@) is None {
                let m = "Unknown field: "@ + f@;
                let k = "Unknown field: "@.len() as int;
                assert(m.subrange(k, k + f@.len()) =~= f@);
            }
        }
    }
}

pub open spec fn commands_spec(reg: Seq<ProjectEntry>, args: ToolArgs) -> Result<
    Seq<char>,
    Seq<char>,
> {
    match opt_view(args.project) {
        None => Err(missing_msg("project"@)),
        Some(p) => match lookup(reg, p) {
            None => Err(not_found_msg(p)),
            Some(e) => match opt_view(args.command_type) {
                None => Ok(commands_text(e.config.commands@)),
                Some(t) => match first_index(e.config.commands@, key_is::<String>(t)) {
                    Some(i) => Ok(t + ": "@ + e.config.commands@[i].1@),
                    None => Err(
                        "Command '"@ + t + "' not found for project '"@ + p + "'"@,
                    ),
                },
            },
        },
    }
}

fn push_concept_summaries(out: &mut String, concepts: &Vec<(String, Concept)>)
    ensures
        final(out)@ == old(out)@ + concept_summary_lines(concepts@),
{
    let ghost start = out@;
    let ghost f = |c: (String, Concept)| "- **"@ + c.0@ + "**: "@ + c.1.summary@ + "\n"@;
    let mut i: usize = 0;
    while i < concepts.len()
        invariant
            i <= concepts@.len(),
            f == (|c: (String, Concept)| "- **"@ + c.0@ + "**: "@ + c.1.summary@ + "\n"@),
            out@ == start + concat_map(concepts@.take(i as int), f),
        decreases concepts@.len() - i,
    {
        proof {
            lemma_concat_map_step(concepts@, f, i as int);
        }
        let ghost before = out@;
        out.append("- **");
        out.append(concepts[i].0.as_str());
        out.append("**: ");
        out.append(concepts[i].1.summary.as_str());
        out.append("\n");
        assert(out@ =~= before + f(concepts@[i as int]));
        i = i + 1;
    }
    assert(concepts@.take(i as int) =~= concepts@);
}

fn render_project_summary(e: &ProjectEntry) -> (r: String)
    ensures
        r@ == project_summary(*e),
{
    let p = &e.config.project;
    let mut out = "# ".to_owned();
    out.append(p.name.as_str());
    out.append("\n\n");
    out.append("**Description:** ");
    out.append(p.description.as_str());
    out.append("\n");
    push_optional_line(&mut out, "**Language:** ", &p.language, "\n");
    push_optional_line(&mut out, "**Version:** ", &p.version, "\n");
    push_optional_line(&mut out, "**Repository:** ", &p.repository, "\n");
    out.append("**Path:** ");
    out.append(e.dir.as_str());
    out.append("\n");
    if e.config.entry_points.len() > 0 {
        out.append("\n## Entry Points\n");
        let eps = format_entry_points(&e.config.entry_points);
        out.append(eps.as_str());
    }
    if e.config.concepts.len() > 0 {
        out.append("\n## Concepts\n");
        push_concept_summaries(&mut out, &e.config.concepts);
    }
    assert(out@ =~= project_summary(*e));
    out
}

impl Server {
    /// Every project with its language, description and root directory; an
    /// advisory when there are none. Never an error.
    pub fn tool_list_projects(&self) -> (r: Result<String, String>)
        ensures
            result_view(r) == Ok::<Seq<char>, Seq<char>>(
                list_projects_text(self.registry.projects@),
            ),
    {
        let projects = &self.registry.projects;
        if projects.len() == 0 {
            return Ok(
                "No projects found. Make sure .jumble/project.toml files exist in your workspace.".to_owned(),
            );
        }
        let ghost f = |e: ProjectEntry| project_line(e);
        let mut out = String::new();
        let mut i: usize = 0;
        while i < projects.len()
            invariant
                i <= projects@.len(),
                projects@ == self.registry.projects@,
                f == (|e: ProjectEntry| project_line(e)),
                out@ == concat_map(projects@.take(i as int), f),
            decreases projects@.len() - i,
        {
            proof {
                lemma_concat_map_step(projects@, f, i as int);
            }
            let e = &projects[i];
            let ghost before = out@;
            out.append("- **");
            out.append(e.config.project.name.as_str());
            out.append("** (");
            out.append(language_of(e));
            out.append("): ");
            out.append(e.config.project.description.as_str());
            out.append("\n  Path: ");
            out.append(e.dir.as_str());
            out.append("\n");
            assert(out@ =~= before + f(projects@[i as int]));
            i = i + 1;
        }
        assert(projects@.take(i as int) =~= projects@);
        Ok(out)
    }

    /// The project's summary, or the one facet that `field` names.
    pub fn tool_get_project_info(&self, args: &ToolArgs) -> (r: Result<String, String>)
        ensures
            result_view(r) == project_info_spec(self.registry.projects@, *args),
    {
        let p = match &args.project {
            None => return Err(missing("project")),
            Some(p) => p,
        };
        let e = match self.registry.find(p.as_str()) {
            None => return Err(not_found(p.as_str())),
            Some(i) => &self.registry.projects[i],
        };
        match &args.field {
            None => Ok(render_project_summary(e)),
            Some(f) => {
                let f = f.as_str();
                if str_eq(f, "commands") {
                    Ok(format_commands(&e.config.commands))
                } else if str_eq(f, "entry_points") {
                    Ok(format_entry_points(&e.config.entry_points))
                } else if str_eq(f, "dependencies") {
                    Ok(format_dependencies(&e.config.dependencies))
                } else if str_eq(f, "api") {
                    Ok(format_api(&e.config.api))
                } else if str_eq(f, "related_projects") {
                    Ok(format_related_projects(&e.config.related_projects))
                } else {
                    let mut msg = "Unknown field: ".to_owned();
                    msg.append(f);
                    Err(msg)
                }
            },
        }
    }

    /// All commands of a project, or the one that `command_type` names.
    pub fn tool_get_commands(&self, args: &ToolArgs) -> (r: Result<String, String>)
        ensures
            result_view(r) == commands_spec(self.registry.projects@, *args),
    {
        let p = match &args.project {
            None => return Err(missing("project")),
            Some(p) => p,
        };
        let e = match self.registry.find(p.as_str()) {
            None => return Err(not_found(p.as_str())),
            Some(i) => &self.registry.projects[i],
        };
        match &args.command_type {
            None => Ok(format_commands(&e.config.commands)),
            Some(t) => match find_key(&e.config.commands, t.as_str()) {
                Some(i) => {
                    proof {
                        lemma_first_index(e.config.commands@, key_is::<String>(t@));
                    }
                    let mut out = t.clone();
                    out.append(": ");
                    out.append(e.config.commands[i].1.as_str());
                    Ok(out)
                },
                None => {
                    let mut msg = "Command '".to_owned();
                    msg.append(t.as_str());
                    msg.append("' not found for project '");
                    msg.append(p.as_str());
                    msg.append("'");
                    Err(msg)
                },
            },
        }
    }
}


pub open spec fn architecture_spec(reg: Seq<ProjectEntry>, args: ToolArgs) -> Result<
    Seq<char>,
    Seq<char>,
> {
    match opt_view(args.project) {
        None => Err(missing_msg("project"@)),
        Some(p) => match opt_view(args.concept) {
            None => Err(missing_msg("concept"@)),
            Some(c) => match lookup(reg, p) {
                None => Err(not_found_msg(p)),
                Some(e) => match resolve_concept_spec(e.config.concepts@, c) {
                    Some(i) => Ok(
                        concept_text(e.dir@, e.config.concepts@[i].0@, e.config.concepts@[i].1),
                    ),
                    None => Err(
                        "Concept '"@ + c + "' not found. Available concepts: "@ + joined(
                            keys_of(e.config.concepts@),
                            ", "@,
                        ),
                    ),
                },
            },
        },
    }
}

pub open spec fn related_files_spec(reg: Seq<ProjectEntry>, args: ToolArgs) -> Result<
    Seq<char>,
    Seq<char>,
> {
    match opt_view(args.project) {
        None => Err(missing_msg("project"@)),
        Some(p) => match opt_view(args.query) {
            None => Err(missing_msg("query"@)),
            Some(q) => match lookup(reg, p) {
                None => Err(not_found_msg(p)),
                Some(e) => {
                    let found = related_concepts(e.config.concepts@, q);
                    if found.len() == 0 {
                        Err("No concepts matching '"@ + q + "' found"@)
                    } else {
                        Ok(
                            "Files related to '"@ + q + "': \n\n"@ + concat_map(
                                found,
                                related_block(e.dir@),
                            ),
                        )
                    }
                },
            },
        },
    }
}

impl Server {
    /// The concept that `concept` resolves to, with its files under the
    /// project root; else the list of the concepts there are.
    pub fn tool_get_architecture(&self, args: &ToolArgs) -> (r: Result<String, String>)
        ensures
            result_view(r) == architecture_spec(self.registry.projects@, *args),
    {
        let p = match &args.project {
            None => return Err(missing("project")),
            Some(p) => p,
        };
        let c = match &args.concept {
            None => return Err(missing("concept")),
            Some(c) => c,
        };
        let e = match self.registry.find(p.as_str()) {
            None => return Err(not_found(p.as_str())),
            Some(i) => &self.registry.projects[i],
        };
        match resolve_concept(&e.config.concepts, c.as_str()) {
            Some(i) => {
                proof {
                    let low = lowered(e.config.concepts@);
                    lemma_first_index(e.config.concepts@, key_is::<Concept>(c@));
                    lemma_first_index(low, key_equals(lower_of(c@)));
                    lemma_first_index(low, holds(lower_of(c@)));
                }
                let entry = &e.config.concepts[i];
                Ok(format_concept(e.dir.as_str(), entry.0.as_str(), &entry.1))
            },
            None => {
                let mut msg = "Concept '".to_owned();
                msg.append(c.as_str());
                msg.append("' not found. Available concepts: ");
                let keys = join_keys(&e.config.concepts, ", ");
                msg.append(keys.as_str());
                Err(msg)
            },
        }
    }

    /// The files of every concept whose key or summary holds the query, up
    /// to case, grouped by concept.
    pub fn tool_get_related_files(&self, args: &ToolArgs) -> (r: Result<String, String>)
        ensures
            result_view(r) == related_files_spec(self.registry.projects@, *args),
    {
        let p = match &args.project {
            None => return Err(missing("project")),
            Some(p) => p,
        };
        let query = match &args.query {
            None => return Err(missing("query")),
            Some(q) => q,
        };
        let e = match self.registry.find(p.as_str()) {
            None => return Err(not_found(p.as_str())),
            Some(i) => &self.registry.projects[i],
        };
        let low = lower_concepts(&e.config.concepts);
        let q = lowercase(query.as_str());
        let (body, count) = render_related(e.dir.as_str(), &e.config.concepts, &low, q.as_str());
        if count == 0 {
            let mut msg = "No concepts matching '".to_owned();
            msg.append(query.as_str());
            msg.append("' found");
            return Err(msg);
        }
        let mut out = "Files related to '".to_owned();
        out.append(query.as_str());
        out.append("': \n\n");
        out.append(body.as_str());
        Ok(out)
    }
}


pub open spec fn key_lines(entries: Seq<(String, String)>) -> Seq<char> {
    concat_map(entries, |e: (String, String)| "- "@ + e.0@ + "\n"@)
}

fn push_key_lines(out: &mut String, entries: &Vec<(String, String)>)
    ensures
        final(out)@ == old(out)@ + key_lines(entries@),
{
    let ghost start = out@;
    let ghost f = |e: (String, String)| "- "@ + e.0@ + "\n"@;
    let mut i: usize = 0;
    while i < entries.len()
        invariant
            i <= entries@.len(),
            f == (|e: (String, String)| "- "@ + e.0@ + "\n"@),
            out@ == start + concat_map(entries@.take(i as int), f),
        decreases entries@.len() - i,
    {
        proof {
            lemma_concat_map_step(entries@, f, i as int);
        }
        let ghost before = out@;
        out.append("- ");
        out.append(entries[i].0.as_str());
        out.append("\n");
        assert(out@ =~= before + f(entries@[i as int]));
        i = i + 1;
    }
    assert(entries@.take(i as int) =~= entries@);
}

pub open spec fn list_prompts_spec(reg: Seq<ProjectEntry>, args: ToolArgs) -> Result<
    Seq<char>,
    Seq<char>,
> {
    match opt_view(args.project) {
        None => Err(missing_msg("project"@)),
        Some(p) => match lookup(reg, p) {
            None => Err(not_found_msg(p)),
            Some(e) => if e.prompts.prompts@.len() == 0 {
                Ok(
                    "No prompts found for '"@ + p
                        + "'. Create .jumble/prompts/*.md files to add task-specific context."@,
                )
            } else {
                Ok(
                    "Available prompts for '"@ + p + "':\n\n"@ + key_lines(e.prompts.prompts@)
                        + "\nUse get_prompt(project, topic) to retrieve a specific prompt."@,
                )
            },
        },
    }
}

/// `Ok` with the path of the prompt file to read, or the message saying why
/// there is none.
pub open spec fn prompt_path_spec(reg: Seq<ProjectEntry>, args: ToolArgs) -> Result<
    Seq<char>,
    Seq<char>,
> {
    match opt_view(args.project) {
        None => Err(missing_msg("project"@)),
        Some(p) => match opt_view(args.topic) {
            None => Err(missing_msg("topic"@)),
            Some(t) => match lookup(reg, p) {
                None => Err(not_found_msg(p)),
                Some(e) => {
                    let prompts = e.prompts.prompts@;
                    match first_index(prompts, key_is::<String>(t)) {
                        Some(i) => Ok(prompts[i].1@),
                        None => if prompts.len() == 0 {
                            Err("No prompts found for '"@ + p + "'"@)
                        } else {
                            Err(
                                "Prompt '"@ + t + "' not found. Available: "@ + joined(
                                    keys_of(prompts),
                                    ", "@,
                                ),
                            )
                        },
                    }
                },
            },
        },
    }
}

pub open spec fn prompt_text_spec(read: Result<Seq<char>, Seq<char>>) -> Result<
    Seq<char>,
    Seq<char>,
> {
    match read {
        Ok(content) => Ok(content),
        Err(e) => Err("Failed to read prompt: "@ + e),
    }
}

/// The answer to a prompt request once its file was read: the text as it
/// is, or the read failure, told apart from a missing topic.
pub fn prompt_text(read: Result<String, String>) -> (r: Result<String, String>)
    ensures
        result_view(r) == prompt_text_spec(result_view(read)),
{
    match read {
        Ok(content) => Ok(content),
        Err(e) => {
            let mut msg = "Failed to read prompt: ".to_owned();
            msg.append(e.as_str());
            Err(msg)
        },
    }
}

/// `## name` and the text, for each entry of a category.
pub open spec fn section_text(title: Seq<char>, entries: Seq<(String, String)>) -> Seq<char> {
    title + pairs_text(entries, "## "@, "\n"@, "\n\n"@)
}

/// The conventions and gotchas of a scope, by category.
pub open spec fn categories_spec(
    conventions: Seq<(String, String)>,
    gotchas: Seq<(String, String)>,
    category: Option<Seq<char>>,
    conventions_title: Seq<char>,
    gotchas_title: Seq<char>,
    no_conventions: Seq<char>,
    no_gotchas: Seq<char>,
) -> Result<Seq<char>, Seq<char>> {
    match category {
        None => Ok(
            (if conventions.len() > 0 {
                section_text(conventions_title, conventions)
            } else {
                Seq::empty()
            }) + (if gotchas.len() > 0 {
                section_text(gotchas_title, gotchas)
            } else {
                Seq::empty()
            }),
        ),
        Some(c) => if c == "conventions"@ {
            if conventions.len() == 0 {
                Ok(no_conventions)
            } else {
                Ok(section_text(conventions_title, conventions))
            }
        } else if c == "gotchas"@ {
            if gotchas.len() == 0 {
                Ok(no_gotchas)
            } else {
                Ok(section_text(gotchas_title, gotchas))
            }
        } else {
            Err("Unknown category '"@ + c + "'. Use 'conventions' or 'gotchas'."@)
        },
    }
}

fn push_section(out: &mut String, title: &str, entries: &Vec<(String, String)>)
    ensures
        final(out)@ == old(out)@ + section_text(title@, entries@),
{
    let ghost start = out@;
    out.append(title);
    push_pairs(out, entries, "## ", "\n", "\n\n");
    assert(out@ =~= start + section_text(title@, entries@));
}

pub fn render_categories(
    conventions: &Vec<(String, String)>,
    gotchas: &Vec<(String, String)>,
    category: &Option<String>,
    conventions_title: &str,
    gotchas_title: &str,
    no_conventions: &str,
    no_gotchas: &str,
) -> (r: Result<String, String>)
    ensures
        result_view(r) == categories_spec(
            conventions@,
            gotchas@,
            opt_view(*category),
            conventions_title@,
            gotchas_title@,
            no_conventions@,
            no_gotchas@,
        ),
{
    match category {
        None => {
            let mut out = String::new();
            if conventions.len() > 0 {
                push_section(&mut out, conventions_title, conventions);
            }
            if gotchas.len() > 0 {
                push_section(&mut out, gotchas_title, gotchas);
            }
            assert(out@ =~= (if conventions@.len() > 0 {
                section_text(conventions_title@, conventions@)
            } else {
                Seq::empty()
            }) + (if gotchas@.len() > 0 {
                section_text(gotchas_title@, gotchas@)
            } else {
                Seq::empty()
            }));
            Ok(out)
        },
        Some(c) => {
            if str_eq(c.as_str(), "conventions") {
                if conventions.len() == 0 {
                    return Ok(no_conventions.to_owned());
                }
                let mut out = String::new();
                push_section(&mut out, conventions_title, conventions);
                assert(out@ =~= section_text(conventions_title@, conventions@));
                Ok(out)
            } else if str_eq(c.as_str(), "gotchas") {
                if gotchas.len() == 0 {
                    return Ok(no_gotchas.to_owned());
                }
                let mut out = String::new();
                push_section(&mut out, gotchas_title, gotchas);
                assert(out@ =~= section_text(gotchas_title@, gotchas@));
                Ok(out)
            } else {
                let mut msg = "Unknown category '".to_owned();
                msg.append(c.as_str());
                msg.append("'. Use 'conventions' or 'gotchas'.");
                Err(msg)
            }
        },
    }
}

pub open spec fn conventions_of(e: ProjectEntry) -> Seq<(String, String)> {
    match e.conventions {
        Some(c) => c.conventions@,
        None => Seq::empty(),
    }
}

pub open spec fn gotchas_of(e: ProjectEntry) -> Seq<(String, String)> {
    match e.conventions {
        Some(c) => c.gotchas@,
        None => Seq::empty(),
    }
}

pub open spec fn conventions_spec(reg: Seq<ProjectEntry>, args: ToolArgs) -> Result<
    Seq<char>,
    Seq<char>,
> {
    match opt_view(args.project) {
        None => Err(missing_msg("project"@)),
        Some(p) => match lookup(reg, p) {
            None => Err(not_found_msg(p)),
            Some(e) => if conventions_of(e).len() == 0 && gotchas_of(e).len() == 0 {
                Ok(
                    "No conventions found for '"@ + p
                        + "'. Create .jumble/conventions.toml to add project-specific conventions and gotchas."@,
                )
            } else {
                categories_spec(
                    conventions_of(e),
                    gotchas_of(e),
                    opt_view(args.category),
                    "# Conventions for '"@ + p + "'\n\n"@,
                    "# Gotchas for '"@ + p + "'\n\n"@,
                    "No conventions defined."@,
                    "No gotchas defined."@,
                )
            },
        },
    }
}

pub open spec fn docs_of(e: ProjectEntry) -> Seq<(String, DocEntry)> {
    match e.docs {
        Some(d) => d.docs@,
        None => Seq::empty(),
    }
}

pub open spec fn doc_lines(docs: Seq<(String, DocEntry)>) -> Seq<char> {
    concat_map(docs, |d: (String, DocEntry)| "- **"@ + d.0@ + "**: "@ + d.1.summary@ + "\n"@)
}

pub open spec fn docs_spec(reg: Seq<ProjectEntry>, args: ToolArgs) -> Result<Seq<char>, Seq<char>> {
    match opt_view(args.project) {
        None => Err(missing_msg("project"@)),
        Some(p) => match lookup(reg, p) {
            None => Err(not_found_msg(p)),
            Some(e) => {
                let docs = docs_of(e);
                if docs.len() == 0 {
                    Ok(
                        "No documentation index found for '"@ + p
                            + "'. Create .jumble/docs.toml to index project documentation."@,
                    )
                } else {
                    match opt_view(args.topic) {
                        Some(t) => match first_index(docs, key_is::<DocEntry>(t)) {
                            Some(i) => Ok(
                                "## "@ + t + "\n**Summary:** "@ + docs[i].1.summary@
                                    + "\n**Path:** "@ + path_join(e.dir@, docs[i].1.path@),
                            ),
                            None => Err(
                                "Doc '"@ + t + "' not found. Available: "@ + joined(
                                    keys_of(docs),
                                    ", "@,
                                ),
                            ),
                        },
                        None => Ok(
                            "# Documentation for '"@ + p + "'\n\n"@ + doc_lines(docs)
                                + "\nUse get_docs(project, topic) to get the path to a specific doc."@,
                        ),
                    }
                }
            },
        },
    }
}

fn push_doc_lines(out: &mut String, docs: &Vec<(String, DocEntry)>)
    ensures
        final(out)@ == old(out)@ + doc_lines(docs@),
{
    let ghost start = out@;
    let ghost f = |d: (String, DocEntry)| "- **"@ + d.0@ + "**: "@ + d.1.summary@ + "\n"@;
    let mut i: usize = 0;
    while i < docs.len()
        invariant
            i <= docs@.len(),
            f == (|d: (String, DocEntry)| "- **"@ + d.0@ + "**: "@ + d.1.summary@ + "\n"@),
            out@ == start + concat_map(docs@.take(i as int), f),
        decreases docs@.len() - i,
    {
        proof {
            lemma_concat_map_step(docs@, f, i as int);
        }
        let ghost before = out@;
        out.append("- **");
        out.append(docs[i].0.as_str());
        out.append("**: ");
        out.append(docs[i].1.summary.as_str());
        out.append("\n");
        assert(out@ =~= before + f(docs@[i as int]));
        i = i + 1;
    }
    assert(docs@.take(i as int) =~= docs@);
}

impl Server {
    /// The prompt topics of a project, or an advisory when it has none.
    pub fn tool_list_prompts(&self, args: &ToolArgs) -> (r: Result<String, String>)
        ensures
            result_view(r) == list_prompts_spec(self.registry.projects@, *args),
    {
        let p = match &args.project {
            None => return Err(missing("project")),
            Some(p) => p,
        };
        let e = match self.registry.find(p.as_str()) {
            None => return Err(not_found(p.as_str())),
            Some(i) => &self.registry.projects[i],
        };
        if e.prompts.prompts.len() == 0 {
            let mut out = "No prompts found for '".to_owned();
            out.append(p.as_str());
            out.append("'. Create .jumble/prompts/*.md files to add task-specific context.");
            return Ok(out);
        }
        let mut out = "Available prompts for '".to_owned();
        out.append(p.as_str());
        out.append("':\n\n");
        push_key_lines(&mut out, &e.prompts.prompts);
        out.append("\nUse get_prompt(project, topic) to retrieve a specific prompt.");
        Ok(out)
    }

    /// The path of the file that holds the prompt `topic` of a project; the
    /// file is read afresh for every request, and `prompt_text` turns the
    /// outcome of the read into the answer.
    pub fn tool_get_prompt(&self, args: &ToolArgs) -> (r: Result<String, String>)
        ensures
            result_view(r) == prompt_path_spec(self.registry.projects@, *args),
    {
        let p = match &args.project {
            None => return Err(missing("project")),
            Some(p) => p,
        };
        let t = match &args.topic {
            None => return Err(missing("topic")),
            Some(t) => t,
        };
        let e = match self.registry.find(p.as_str()) {
            None => return Err(not_found(p.as_str())),
            Some(i) => &self.registry.projects[i],
        };
        let prompts = &e.prompts.prompts;
        match find_key(prompts, t.as_str()) {
            Some(i) => {
                proof {
                    lemma_first_index(prompts@, key_is::<String>(t@));
                }
                Ok(prompts[i].1.clone())
            },
            None => {
                if prompts.len() == 0 {
                    let mut msg = "No prompts found for '".to_owned();
                    msg.append(p.as_str());
                    msg.append("'");
                    Err(msg)
                } else {
                    let mut msg = "Prompt '".to_owned();
                    msg.append(t.as_str());
                    msg.append("' not found. Available: ");
                    let keys = join_keys(prompts, ", ");
                    msg.append(keys.as_str());
                    Err(msg)
                }
            },
        }
    }

    /// The conventions and gotchas of a project, all or of one category.
    pub fn tool_get_conventions(&self, args: &ToolArgs) -> (r: Result<String, String>)
        ensures
            result_view(r) == conventions_spec(self.registry.projects@, *args),
    {
        let p = match &args.project {
            None => return Err(missing("project")),
            Some(p) => p,
        };
        let e = match self.registry.find(p.as_str()) {
            None => return Err(not_found(p.as_str())),
            Some(i) => &self.registry.projects[i],
        };
        let no_entries: Vec<(String, String)> = Vec::new();
        let (conventions, gotchas) = match &e.conventions {
            Some(c) => (&c.conventions, &c.gotchas),
            None => (&no_entries, &no_entries),
        };
        if conventions.len() == 0 && gotchas.len() == 0 {
            let mut out = "No conventions found for '".to_owned();
            out.append(p.as_str());
            out.append(
                "'. Create .jumble/conventions.toml to add project-specific conventions and gotchas.",
            );
            return Ok(out);
        }
        let mut conventions_title = "# Conventions for '".to_owned();
        conventions_title.append(p.as_str());
        conventions_title.append("'\n\n");
        let mut gotchas_title = "# Gotchas for '".to_owned();
        gotchas_title.append(p.as_str());
        gotchas_title.append("'\n\n");
        render_categories(
            conventions,
            gotchas,
            &args.category,
            conventions_title.as_str(),
            gotchas_title.as_str(),
            "No conventions defined.",
            "No gotchas defined.",
        )
    }

    /// The documentation index of a project, or one topic's summary and path.
    pub fn tool_get_docs(&self, args: &ToolArgs) -> (r: Result<String, String>)
        ensures
            result_view(r) == docs_spec(self.registry.projects@, *args),
    {
        let p = match &args.project {
            None => return Err(missing("project")),
            Some(p) => p,
        };
        let e = match self.registry.find(p.as_str()) {
            None => return Err(not_found(p.as_str())),
            Some(i) => &self.registry.projects[i],
        };
        let no_docs: Vec<(String, DocEntry)> = Vec::new();
        let docs = match &e.docs {
            Some(d) => &d.docs,
            None => &no_docs,
        };
        if docs.len() == 0 {
            let mut out = "No documentation index found for '".to_owned();
            out.append(p.as_str());
            out.append("'. Create .jumble/docs.toml to index project documentation.");
            return Ok(out);
        }
        match &args.topic {
            Some(t) => match find_key(docs, t.as_str()) {
                Some(i) => {
                    proof {
                        lemma_first_index(docs@, key_is::<DocEntry>(t@));
                    }
                    let doc = &docs[i].1;
                    let mut out = "## ".to_owned();
                    out.append(t.as_str());
                    out.append("\n**Summary:** ");
                    out.append(doc.summary.as_str());
                    out.append("\n**Path:** ");
                    let full = join_path(e.dir.as_str(), doc.path.as_str());
                    out.append(full.as_str());
                    Ok(out)
                },
                None => {
                    let mut msg = "Doc '".to_owned();
                    msg.append(t.as_str());
                    msg.append("' not found. Available: ");
                    let keys = join_keys(docs, ", ");
                    msg.append(keys.as_str());
                    Err(msg)
                },
            },
            None => {
                let mut out = "# Documentation for '".to_owned();
                out.append(p.as_str());
                out.append("'\n\n");
                push_doc_lines(&mut out, docs);
                out.append("\nUse get_docs(project, topic) to get the path to a specific doc.");
                Ok(out)
            },
        }
    }
}

} // verus!
