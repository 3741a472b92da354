use jumble::setup::{replace_jumble_section, split_lines, JUMBLE_SECTION, JUMBLE_SECTION_MARKER};

#[test]
fn test_replace_jumble_section() {
    let content = r#"# WARP.md

## Using Jumble for Project Context

Old content here.

More old content.

## Another Section

Keep this section.
"#;

    let result = replace_jumble_section(content);

    assert!(result.contains("get_workspace_overview()"));
    assert!(!result.contains("Old content here"));
    assert!(result.contains("## Another Section"));
}

#[test]
fn section_goes_before_a_later_title() {
    let content = "# WARP.md\n\n## Using Jumble for Project Context\nold\n# Appendix\ntext";
    let result = replace_jumble_section(content);
    let section: Vec<&str> = JUMBLE_SECTION.lines().collect();
    let mut expected = vec!["# WARP.md", ""];
    expected.extend(section.iter().copied());
    expected.extend(["", "", "# Appendix", "text"]);
    assert_eq!(result, expected.join("\n"));
    assert_eq!(result.matches(JUMBLE_SECTION_MARKER).count(), 1);
}

#[test]
fn section_appended_when_absent() {
    let result = replace_jumble_section("# WARP.md\n\nIntro.\n");
    assert_eq!(result, format!("# WARP.md\n\nIntro.\n\n{}", JUMBLE_SECTION.trim_end_matches('\n')));
}

#[test]
fn lines_as_std_splits_them() {
    for text in ["", "a", "a\n", "a\r\nb", "a\n\nb\n", "\n", "x\r", "a\rb\n"] {
        let ours = split_lines(text);
        let theirs: Vec<String> = text.lines().map(|l| l.to_string()).collect();
        assert_eq!(ours, theirs, "text {:?}", text);
    }
}
