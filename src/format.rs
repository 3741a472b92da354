//! Rendering of single facets of a project descriptor as Markdown text.
use vstd::prelude::*;
use crate::config::{ApiInfo, Concept, Dependencies, RelatedProjects};
use crate::text::{concat_map, lemma_concat_map_step};

verus! {

/// `open + key + mid + value + close` for one pair.
pub open spec fn pair_line(open: Seq<char>, mid: Seq<char>, close: Seq<char>) -> spec_fn(
    (String, String),
) -> Seq<char> {
    |e: (String, String)| open + e.0@ + mid + e.1@ + close
}

/// `open + item + close` for one item.
pub open spec fn item_line(open: Seq<char>, close: Seq<char>) -> spec_fn(String) -> Seq<char> {
    |x: String| open + x@ + close
}

pub open spec fn pairs_text(
    entries: Seq<(String, String)>,
    open: Seq<char>,
    mid: Seq<char>,
    close: Seq<char>,
) -> Seq<char> {
    concat_map(entries, pair_line(open, mid, close))
}

pub open spec fn items_text(items: Seq<String>, open: Seq<char>, close: Seq<char>) -> Seq<char> {
    concat_map(items, item_line(open, close))
}

/// Appends one line per pair.
pub fn push_pairs(out: &mut String, entries: &Vec<(String, String)>, open: &str, mid: &str, close: &str)
    ensures
        final(out)@ == old(out)@ + pairs_text(entries@, open@, mid@, close@),
{
    let ghost start = out@;
    let ghost f = pair_line(open@, mid@, close@);
    let mut i: usize = 0;
    while i < entries.len()
        invariant
            i <= entries@.len(),
            f == pair_line(open@, mid@, close@),
            out@ == start + concat_map(entries@.take(i as int), f),
        decreases entries@.len() - i,
    {
        proof {
            lemma_concat_map_step(entries@, f, i as int);
        }
        let ghost before = out@;
        out.append(open);
        out.append(entries[i].0.as_str());
        out.append(mid);
        out.append(entries[i].1.as_str());
        out.append(close);
        assert(out@ =~= before + f(entries@[i as int]));
        i = i + 1;
    }
    assert(entries@.take(i as int) =~= entries@);
}

/// Appends one line per item.
pub fn push_items(out: &mut String, items: &Vec<String>, open: &str, close: &str)
    ensures
        final(out)@ == old(out)@ + items_text(items@, open@, close@),
{
    let ghost start = out@;
    let ghost f = item_line(open@, close@);
    let mut i: usize = 0;
    while i < items.len()
        invariant
            i <= items@.len(),
            f == item_line(open@, close@),
            out@ == start + concat_map(items@.take(i as int), f),
        decreases items@.len() - i,
    {
        proof {
            lemma_concat_map_step(items@, f, i as int);
        }
        let ghost before = out@;
        out.append(open);
        out.append(items[i].as_str());
        out.append(close);
        assert(out@ =~= before + f(items@[i as int]));
        i = i + 1;
    }
    assert(items@.take(i as int) =~= items@);
}

pub open spec fn commands_text(commands: Seq<(String, String)>) -> Seq<char> {
    if commands.len() == 0 {
        "No commands defined."@
    } else {
        pairs_text(commands, "- **"@, "**: `"@, "`\n"@)
    }
}

/// One bullet per command: its name in bold and the command in backticks.
pub fn format_commands(commands: &Vec<(String, String)>) -> (r: String)
    ensures
        r@ == commands_text(commands@),
{
    if commands.len() == 0 {
        return "No commands defined.".to_owned();
    }
    let mut out = String::new();
    push_pairs(&mut out, commands, "- **", "**: `", "`\n");
    out
}

pub open spec fn entry_points_text(entry_points: Seq<(String, String)>) -> Seq<char> {
    if entry_points.len() == 0 {
        "No entry points defined."@
    } else {
        pairs_text(entry_points, "- **"@, "**: "@, "\n"@)
    }
}

/// One bullet per entry point: its name in bold and its path.
pub fn format_entry_points(entry_points: &Vec<(String, String)>) -> (r: String)
    ensures
        r@ == entry_points_text(entry_points@),
{
    if entry_points.len() == 0 {
        return "No entry points defined.".to_owned();
    }
    let mut out = String::new();
    push_pairs(&mut out, entry_points, "- **", "**: ", "\n");
    out
}

/// A titled list, or nothing when the list is empty.
pub open spec fn titled_list(title: Seq<char>, items: Seq<String>) -> Seq<char> {
    if items.len() == 0 {
        Seq::empty()
    } else {
        title + items_text(items, "- "@, "\n"@)
    }
}

fn push_titled_list(out: &mut String, title: &str, items: &Vec<String>)
    ensures
        final(out)@ == old(out)@ + titled_list(title@, items@),
{
    if items.len() > 0 {
        let ghost start = out@;
        out.append(title);
        push_items(out, items, "- ", "\n");
        assert(out@ =~= start + titled_list(title@, items@));
    } else {
        assert(out@ =~= out@ + titled_list(title@, items@));
    }
}

pub open spec fn dependencies_text(deps: Dependencies) -> Seq<char> {
    if deps.internal@.len() == 0 && deps.external@.len() == 0 {
        "No dependencies defined."@
    } else {
        titled_list("**Internal dependencies:**\n"@, deps.internal@) + titled_list(
            "**External dependencies:**\n"@,
            deps.external@,
        )
    }
}

/// The internal and the external dependencies, each under its own title.
pub fn format_dependencies(deps: &Dependencies) -> (r: String)
    ensures
        r@ == dependencies_text(*deps),
{
    if deps.internal.len() == 0 && deps.external.len() == 0 {
        return "No dependencies defined.".to_owned();
    }
    let mut out = String::new();
    push_titled_list(&mut out, "**Internal dependencies:**\n", &deps.internal);
    push_titled_list(&mut out, "**External dependencies:**\n", &deps.external);
    assert(out@ =~= dependencies_text(*deps));
    out
}

pub open spec fn related_projects_text(related: RelatedProjects) -> Seq<char> {
    if related.upstream@.len() == 0 && related.downstream@.len() == 0 {
        "No related projects defined."@
    } else {
        titled_list("**Upstream (this project depends on):**\n"@, related.upstream@) + titled_list(
            "**Downstream (depends on this project):**\n"@,
            related.downstream@,
        )
    }
}

/// The upstream and the downstream projects, each under its own title.
pub fn format_related_projects(related: &RelatedProjects) -> (r: String)
    ensures
        r@ == related_projects_text(*related),
{
    if related.upstream.len() == 0 && related.downstream.len() == 0 {
        return "No related projects defined.".to_owned();
    }
    let mut out = String::new();
    push_titled_list(&mut out, "**Upstream (this project depends on):**\n", &related.upstream);
    push_titled_list(&mut out, "**Downstream (depends on this project):**\n", &related.downstream);
    assert(out@ =~= related_projects_text(*related));
    out
}

/// `open + value + close` when the value is present, else nothing.
pub open spec fn optional_line(open: Seq<char>, value: Option<String>, close: Seq<char>) -> Seq<
    char,
> {
    match value {
        Some(v) => open + v@ + close,
        None => Seq::empty(),
    }
}

pub fn push_optional_line(out: &mut String, open: &str, value: &Option<String>, close: &str)
    ensures
        final(out)@ == old(out)@ + optional_line(open@, *value, close@),
{
    match value {
        Some(v) => {
            let ghost start = out@;
            out.append(open);
            out.append(v.as_str());
            out.append(close);
            assert(out@ =~= start + optional_line(open@, *value, close@));
        },
        None => {
            assert(out@ =~= out@ + optional_line(open@, *value, close@));
        },
    }
}

pub open spec fn api_text(api: Option<ApiInfo>) -> Seq<char> {
    match api {
        None => "No API information defined."@,
        Some(info) => if info.openapi is None && info.base_url is None && info.endpoints@.len()
            == 0 {
            "API section defined but empty."@
        } else {
            optional_line("**OpenAPI spec:** "@, info.openapi, "\n"@) + optional_line(
                "**Base URL:** "@,
                info.base_url,
                "\n"@,
            ) + titled_list("**Endpoints:**\n"@, info.endpoints@)
        },
    }
}

/// The API's spec location, base URL and endpoints, as far as they are given.
pub fn format_api(api: &Option<ApiInfo>) -> (r: String)
    ensures
        r@ == api_text(*api),
{
    match api {
        None => "No API information defined.".to_owned(),
        Some(info) => {
            if info.openapi.is_none() && info.base_url.is_none() && info.endpoints.len() == 0 {
                return "API section defined but empty.".to_owned();
            }
            let mut out = String::new();
            push_optional_line(&mut out, "**OpenAPI spec:** ", &info.openapi, "\n");
            push_optional_line(&mut out, "**Base URL:** ", &info.base_url, "\n");
            push_titled_list(&mut out, "**Endpoints:**\n", &info.endpoints);
            assert(out@ =~= api_text(*api));
            out
        },
    }
}

/// The bullet of one file of a concept, under the project root.
pub open spec fn file_lines(root: Seq<char>, files: Seq<String>) -> Seq<char> {
    items_text(files, "- "@ + root + "/"@, "\n"@)
}

pub fn push_file_lines(out: &mut String, root: &str, files: &Vec<String>)
    ensures
        final(out)@ == old(out)@ + file_lines(root@, files@),
{
    let mut open = "- ".to_owned();
    open.append(root);
    open.append("/");
    push_items(out, files, open.as_str(), "\n");
}

pub open spec fn concept_text(root: Seq<char>, name: Seq<char>, concept: Concept) -> Seq<char> {
    "## "@ + name + "\n\n"@ + concept.summary@ + "\n\n**Files:**\n"@ + file_lines(
        root,
        concept.files@,
    )
}

/// A concept's name, summary and files, each file joined under the project root.
pub fn format_concept(project_path: &str, name: &str, concept: &Concept) -> (r: String)
    ensures
        r@ == concept_text(project_path@, name@, *concept),
{
    let mut out = "## ".to_owned();
    out.append(name);
    out.append("\n\n");
    out.append(concept.summary.as_str());
    out.append("\n\n**Files:**\n");
    push_file_lines(&mut out, project_path, &concept.files);
    out
}

} // verus!
