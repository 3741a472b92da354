use jumble::format::{format_api, format_concept, format_dependencies, format_related_projects};
use jumble::config::{ApiInfo, Concept, Dependencies, RelatedProjects};
use jumble::text::{contains_str, join_path, lowercase, str_eq};
use jumble::workspace::lex_less;

#[test]
fn lowercase_changes_the_text() {
    assert_eq!(lowercase("AuTh Ä"), "auth ä");
    assert_eq!(lowercase(""), "");
}

#[test]
fn substring_and_equality() {
    assert!(contains_str("authentication", "then"));
    assert!(contains_str("abc", ""));
    assert!(!contains_str("ab", "abc"));
    assert!(str_eq("same", "same"));
    assert!(!str_eq("same", "Same"));
    assert!(lex_less("api", "web"));
    assert!(lex_less("ab", "abc"));
    assert!(!lex_less("b", "a"));
}

#[test]
fn path_joining() {
    assert_eq!(join_path("/ws/app", "docs/a.md"), "/ws/app/docs/a.md");
    assert_eq!(join_path("/ws/app/", "docs/a.md"), "/ws/app/docs/a.md");
    assert_eq!(join_path("/ws/app", "/abs/a.md"), "/abs/a.md");
    assert_eq!(join_path("", "a.md"), "a.md");
}

#[test]
fn facet_formatting() {
    let deps = Dependencies { internal: vec![], external: vec!["serde".to_string(), "tokio".to_string()] };
    assert_eq!(format_dependencies(&deps), "**External dependencies:**\n- serde\n- tokio\n");
    let none = Dependencies { internal: vec![], external: vec![] };
    assert_eq!(format_dependencies(&none), "No dependencies defined.");
    let related = RelatedProjects { upstream: vec!["core".to_string()], downstream: vec![] };
    assert_eq!(format_related_projects(&related), "**Upstream (this project depends on):**\n- core\n");
    let empty = RelatedProjects { upstream: vec![], downstream: vec![] };
    assert_eq!(format_related_projects(&empty), "No related projects defined.");
    let api = ApiInfo {
        openapi: Some("spec.yaml".to_string()),
        base_url: Some("http://x".to_string()),
        endpoints: vec!["GET /a".to_string()],
    };
    assert_eq!(
        format_api(&Some(api)),
        "**OpenAPI spec:** spec.yaml\n**Base URL:** http://x\n**Endpoints:**\n- GET /a\n"
    );
    let bare = ApiInfo { openapi: None, base_url: None, endpoints: vec![] };
    assert_eq!(format_api(&Some(bare)), "API section defined but empty.");
    let c = Concept { files: vec!["a.rs".to_string()], summary: "S".to_string() };
    assert_eq!(format_concept("/p", "n", &c), "## n\n\nS\n\n**Files:**\n- /p/a.rs\n");
}
