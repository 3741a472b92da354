//! Maintenance of the section about this server in an agent guidance file:
//! the section is taken out wherever it stands and written afresh.
use vstd::prelude::*;
use crate::text::{
    contains_str, first_index, join_strings, joined, lemma_first_index_at,
    lemma_first_index_none, seq_contains, seq_starts_with, starts_with_str, views,
};

verus! {

/// The section that guides an agent to this server's tools.
pub const JUMBLE_SECTION: &'static str = r#"## Using Jumble for Project Context

ALWAYS start workspace exploration by calling `get_workspace_overview()` from the Jumble MCP server to understand the workspace structure, available projects, and their relationships.

### When to Use Jumble Tools

**Before suggesting commands:**
- Call `get_commands(project, type)` to get exact build/test/lint/run commands
- Never guess commands when jumble can provide them

**Before making architectural changes:**
- Call `get_architecture(project, concept)` to understand existing patterns
- Use `get_related_files(project, query)` to find related code

**Before writing new code:**
- Call `get_conventions(project)` for project-specific patterns
- Call `get_workspace_conventions()` for workspace-wide standards
- Review both conventions AND gotchas

**Before searching for documentation:**
- Call `get_docs(project)` to see available documentation
- Use topic names to get specific doc paths

**For specific tasks:**
- Call `list_skills(project)` to see available task-specific guidance
- Use `get_skill(project, topic)` for focused instructions

### Handling Missing Context

If jumble returns "No projects found":
1. Call `get_jumble_authoring_prompt()` to get the creation prompt
2. Offer to create `.jumble/project.toml` for the current project
3. Follow the AUTHORING.md guide

### Workflow

1. **Enter workspace** → `get_workspace_overview()`
2. **Working on a project** → `get_project_info(project)`
3. **Making changes** → Check conventions, architecture, skills
4. **Writing code** → Follow conventions, avoid gotchas
5. **Running commands** → Use `get_commands(project, type)`
"#;

/// The heading that opens the section.
pub const JUMBLE_SECTION_MARKER: &'static str = "## Using Jumble for Project Context";

/// A line without a `\r` that ended it before its `\n`.
pub open spec fn strip_cr(line: Seq<char>) -> Seq<char> {
    if line.len() > 0 && line.last() == '\r' {
        line.drop_last()
    } else {
        line
    }
}

/// The finished lines of `s` and the line still open at its end.
pub open spec fn split_acc(s: Seq<char>) -> (Seq<Seq<char>>, Seq<char>)
    decreases s.len(),
{
    if s.len() == 0 {
        (seq![], seq![])
    } else {
        let (done, cur) = split_acc(s.drop_last());
        if s.last() == '\n' {
            (done.push(strip_cr(cur)), seq![])
        } else {
            (done, cur.push(s.last()))
        }
    }
}

/// The lines of a text as `str::lines` gives them: split at each `\n`, a
/// `\r` before it dropped, and the last line kept only when not empty.
pub open spec fn lines_of(s: Seq<char>) -> Seq<Seq<char>> {
    let (done, cur) = split_acc(s);
    if cur.len() == 0 {
        done
    } else {
        done.push(cur)
    }
}

proof fn lemma_split_acc_open(s: Seq<char>)
    ensures
        exists|start: int| 0 <= start <= s.len() && split_acc(s).1 == s.subrange(start, s.len() as int),
    decreases s.len(),
{
    if s.len() > 0 {
        lemma_split_acc_open(s.drop_last());
        let start = choose|start: int|
            0 <= start <= s.drop_last().len() && split_acc(s.drop_last()).1 == s.drop_last().subrange(
                start,
                s.drop_last().len() as int,
            );
        if s.last() == '\n' {
            assert(split_acc(s).1 =~= s.subrange(s.len() as int, s.len() as int));
        } else {
            assert(split_acc(s).1 =~= s.subrange(start, s.len() as int));
        }
    } else {
        assert(split_acc(s).1 =~= s.subrange(0, 0));
    }
}

/// The lines of a text, as `str::lines` gives them.
pub fn split_lines(s: &str) -> (r: Vec<String>)
    ensures
        views(r@) == lines_of(s@),
{
    let n = s.unicode_len();
    let mut done: Vec<String> = Vec::new();
    let mut start: usize = 0;
    let mut i: usize = 0;
    assert(s@.take(0) =~= seq![]);
    while i < n
        invariant
            n == s@.len(),
            start <= i <= n,
            split_acc(s@.take(i as int)) == (views(done@), s@.subrange(start as int, i as int)),
        decreases n - i,
    {
        let c = s.get_char(i);
        assert(s@.take(i + 1).drop_last() =~= s@.take(i as int));
        if c == '\n' {
            let end = if i > start && s.get_char(i - 1) == '\r' {
                i - 1
            } else {
                i
            };
            let line = s.substring_char(start, end).to_owned();
            let ghost prev = done@;
            assert(line@ =~= strip_cr(s@.subrange(start as int, i as int)));
            done.push(line);
            assert(views(done@) =~= views(prev).push(line@));
            start = i + 1;
        } else {
            assert(s@.subrange(start as int, i + 1) =~= s@.subrange(start as int, i as int).push(c));
        }
        i = i + 1;
        assert(s@.subrange(start as int, i as int) =~= if c == '\n' {
            seq![]
        } else {
            s@.subrange(start as int, i as int)
        });
    }
    assert(s@.take(n as int) =~= s@);
    if start < n {
        let ghost prev = done@;
        let line = s.substring_char(start, n).to_owned();
        done.push(line);
        assert(views(done@) =~= views(prev).push(line@));
    } else {
        assert(s@.subrange(start as int, n as int) =~= seq![]);
    }
    done
}

/// A line that opens the section.
pub open spec fn opens_section(line: Seq<char>) -> bool {
    seq_starts_with(line, JUMBLE_SECTION_MARKER@)
}

/// A line that closes the section: another top heading, or another
/// second-level heading that is not about this server.
pub open spec fn closes_section(line: Seq<char>) -> bool {
    seq_starts_with(line, "# "@) || (seq_starts_with(line, "## "@) && !seq_contains(
        line,
        "Using Jumble"@,
    ))
}

/// Whether the section is open after `line`, when it was open before it or not.
pub open spec fn after_line(open: bool, line: Seq<char>) -> bool {
    if opens_section(line) {
        true
    } else if open && closes_section(line) {
        false
    } else {
        open
    }
}

/// Whether the section is open after the lines.
pub open spec fn open_after(lines: Seq<Seq<char>>) -> bool
    decreases lines.len(),
{
    if lines.len() == 0 {
        false
    } else {
        after_line(open_after(lines.drop_last()), lines.last())
    }
}

/// The lines that stand outside the section.
pub open spec fn outside_section(lines: Seq<Seq<char>>) -> Seq<Seq<char>>
    decreases lines.len(),
{
    if lines.len() == 0 {
        seq![]
    } else {
        let prev = outside_section(lines.drop_last());
        let line = lines.last();
        if !opens_section(line) && !after_line(open_after(lines.drop_last()), line) {
            prev.push(line)
        } else {
            prev
        }
    }
}

/// A top heading other than the file's own title.
pub open spec fn later_title(line: Seq<char>) -> bool {
    seq_starts_with(line, "# "@) && !seq_starts_with(line, "# WARP"@)
}

pub open spec fn later_title_at() -> spec_fn(Seq<char>) -> bool {
    |line: Seq<char>| later_title(line)
}

/// The text with the section taken out and written anew: before the first
/// later top heading, framed by blank lines, or else at the end after one.
pub open spec fn replaced_text(content: Seq<char>) -> Seq<char> {
    let kept = outside_section(lines_of(content));
    let section = lines_of(JUMBLE_SECTION@);
    let lines = match first_index(kept, later_title_at()) {
        Some(p) => kept.take(p) + section + seq![seq![], seq![]] + kept.skip(p),
        None => kept + seq![seq![]] + section,
    };
    joined(lines, "\n"@)
}

fn push_all(out: &mut Vec<String>, lines: &Vec<String>, from: usize, to: usize)
    requires
        from <= to <= lines@.len(),
    ensures
        views(final(out)@) == views(old(out)@) + views(lines@).subrange(from as int, to as int),
{
    let ghost start = views(out@);
    let mut i: usize = from;
    while i < to
        invariant
            from <= i <= to <= lines@.len(),
            views(out@) == start + views(lines@).subrange(from as int, i as int),
        decreases to - i,
    {
        let ghost prev = out@;
        out.push(lines[i].clone());
        assert(views(out@) =~= views(prev).push(lines@[i as int]@));
        assert(views(lines@).subrange(from as int, i + 1) =~= views(lines@).subrange(
            from as int,
            i as int,
        ).push(lines@[i as int]@));
        i = i + 1;
    }
}

/// `content` with the section replaced by its current text.
pub fn replace_jumble_section(content: &str) -> (r: String)
    ensures
        r@ == replaced_text(content@),
{
    let lines = split_lines(content);
    let ghost all = views(lines@);
    let mut kept: Vec<String> = Vec::new();
    let mut open = false;
    let mut i: usize = 0;
    while i < lines.len()
        invariant
            all == views(lines@),
            i <= lines@.len(),
            open == open_after(all.take(i as int)),
            views(kept@) == outside_section(all.take(i as int)),
        decreases lines@.len() - i,
    {
        let line = lines[i].as_str();
        assert(all.take(i + 1).drop_last() =~= all.take(i as int));
        assert(all.take(i + 1).last() == line@);
        if starts_with_str(line, JUMBLE_SECTION_MARKER) {
            open = true;
        } else {
            if open && (starts_with_str(line, "# ") || (starts_with_str(line, "## ")
                && !contains_str(line, "Using Jumble"))) {
                open = false;
            }
            if !open {
                let ghost prev = kept@;
                kept.push(line.to_owned());
                assert(views(kept@) =~= views(prev).push(line@));
            }
        }
        i = i + 1;
    }
    assert(all.take(i as int) =~= all);
    let mut pos: usize = 0;
    let mut found = false;
    while !found && pos < kept.len()
        invariant
            pos <= kept@.len(),
            forall|q: int| 0 <= q < pos ==> !later_title_at()(#[trigger] views(kept@)[q]),
            found ==> pos < kept@.len() && later_title_at()(views(kept@)[pos as int]),
        decreases kept@.len() - pos + (if found { 0int } else { 1int }),
    {
        let line = kept[pos].as_str();
        if starts_with_str(line, "# ") && !starts_with_str(line, "# WARP") {
            found = true;
        } else {
            pos = pos + 1;
        }
    }
    let section = split_lines(JUMBLE_SECTION);
    let ghost kv = views(kept@);
    let mut out: Vec<String> = Vec::new();
    if found {
        proof {
            lemma_first_index_at(kv, later_title_at(), pos as int);
        }
        push_all(&mut out, &kept, 0, pos);
        assert(views(out@) =~= kv.take(pos as int));
        let ghost a = views(out@);
        push_all(&mut out, &section, 0, section.len());
        assert(views(section@).subrange(0, section@.len() as int) =~= views(section@));
        let ghost b = views(out@);
        out.push(String::new());
        assert(views(out@) =~= b.push(seq![]));
        let ghost c = views(out@);
        out.push(String::new());
        assert(views(out@) =~= c.push(seq![]));
        push_all(&mut out, &kept, pos, kept.len());
        assert(kv.subrange(pos as int, kv.len() as int) =~= kv.skip(pos as int));
        assert(views(out@) =~= kv.take(pos as int) + views(section@) + seq![seq![], seq![]]
            + kv.skip(pos as int));
    } else {
        proof {
            lemma_first_index_none(kv, later_title_at());
        }
        push_all(&mut out, &kept, 0, kept.len());
        assert(views(out@) =~= kv);
        let ghost a = views(out@);
        out.push(String::new());
        assert(views(out@) =~= a.push(seq![]));
        let ghost b = views(out@);
        push_all(&mut out, &section, 0, section.len());
        assert(views(section@).subrange(0, section@.len() as int) =~= views(section@));
        assert(views(out@) =~= kv + seq![seq![]] + views(section@));
    }
    join_strings(&out, "\n")
}

} // verus!
