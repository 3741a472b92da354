use jumble::config::{
    Dependencies, ProjectConfig, ProjectInfo, ProjectPrompts, RelatedProjects, WorkspaceConfig,
    WorkspaceInfo,
};
use jumble::registry::{collect_prompts, is_project_marker, marker_paths, prompt_topic, ProjectSource, Registry};
use jumble::server::{Server, ToolArgs};

fn config(name: &str, description: &str) -> ProjectConfig {
    ProjectConfig {
        project: ProjectInfo {
            name: name.to_string(),
            description: description.to_string(),
            language: None,
            version: None,
            repository: None,
        },
        commands: Vec::new(),
        entry_points: Vec::new(),
        dependencies: Dependencies { internal: Vec::new(), external: Vec::new() },
        related_projects: RelatedProjects { upstream: Vec::new(), downstream: Vec::new() },
        api: None,
        concepts: Vec::new(),
    }
}

fn source(dir: &str, descriptor: Option<ProjectConfig>) -> ProjectSource {
    ProjectSource {
        project_dir: dir.to_string(),
        descriptor,
        prompts: ProjectPrompts { prompts: Vec::new() },
        conventions: None,
        docs: None,
    }
}

#[test]
fn duplicate_name_keeps_last_visited() {
    let reg = Registry::build(vec![
        source("/ws/a", Some(config("dup", "first"))),
        source("/ws/other", Some(config("other", "o"))),
        source("/ws/b", Some(config("dup", "second"))),
    ]);
    assert_eq!(reg.projects.len(), 2);
    let i = reg.find("dup").unwrap();
    assert_eq!(reg.projects[i].dir, "/ws/b");
    assert_eq!(reg.projects[i].config.project.description, "second");
    assert_eq!(reg.projects.iter().filter(|e| e.config.project.name == "dup").count(), 1);
}

#[test]
fn malformed_descriptor_does_not_hide_siblings() {
    let reg = Registry::build(vec![
        source("/ws/a", Some(config("a", "A"))),
        source("/ws/broken", None),
        source("/ws/c", Some(config("c", "C"))),
    ]);
    assert_eq!(reg.projects.len(), 2);
    assert!(reg.find("a").is_some());
    assert!(reg.find("c").is_some());
}

#[test]
fn reload_reflects_deleted_and_added_projects() {
    let mut server = Server::new(
        "/ws".to_string(),
        None,
        vec![source("/ws/a", Some(config("a", "A"))), source("/ws/b", Some(config("b", "B")))],
    );
    let mut args = ToolArgs::none();
    args.project = Some("b".to_string());
    assert!(server.tool_get_project_info(&args).is_ok());
    server.reload(None, vec![source("/ws/a", Some(config("a", "A"))), source("/ws/c", Some(config("c", "C")))]);
    assert_eq!(server.tool_get_project_info(&args), Err("Project 'b' not found".to_string()));
    args.project = Some("c".to_string());
    assert!(server.tool_get_project_info(&args).is_ok());
}

#[test]
fn snapshot_is_stale_until_reload() {
    let mut server = Server::new("/ws".to_string(), None, vec![source("/ws/a", Some(config("a", "A")))]);
    let before = server.tool_list_projects().unwrap();
    server.reload(None, vec![source("/ws/a", Some(config("a", "A2")))]);
    let after = server.tool_list_projects().unwrap();
    assert_eq!(before, "- **a** (unknown): A\n  Path: /ws/a\n");
    assert_eq!(after, "- **a** (unknown): A2\n  Path: /ws/a\n");
}

#[test]
fn markers_and_their_paths() {
    assert!(is_project_marker("/ws/app/.jumble/project.toml"));
    assert!(is_project_marker(".jumble/project.toml"));
    assert!(!is_project_marker("/ws/app/x.jumble/project.toml"));
    assert!(!is_project_marker("/ws/app/.jumble/workspace.toml"));
    let p = marker_paths("/ws/app/.jumble/project.toml");
    assert_eq!(p.project_dir, "/ws/app");
    assert_eq!(p.metadata_dir, "/ws/app/.jumble");
    assert_eq!(p.conventions, "/ws/app/.jumble/conventions.toml");
    assert_eq!(p.docs, "/ws/app/.jumble/docs.toml");
    assert_eq!(p.prompts_dir, "/ws/app/.jumble/prompts");
    assert_eq!(marker_paths("/.jumble/project.toml").project_dir, "/");
    assert_eq!(marker_paths(".jumble/project.toml").project_dir, "");
    assert_eq!(marker_paths("./.jumble/project.toml").project_dir, ".");
}

#[test]
fn prompt_files_by_extension() {
    assert_eq!(prompt_topic("debug.md"), Some("debug".to_string()));
    assert_eq!(prompt_topic("notes.txt"), None);
    assert_eq!(prompt_topic(".md"), None);
    assert_eq!(prompt_topic("a.b.md"), Some("a.b".to_string()));
    let names = vec!["debug.md".to_string(), "README".to_string(), "add-endpoint.md".to_string()];
    let prompts = collect_prompts("/ws/.jumble/prompts", &names);
    assert_eq!(
        prompts.prompts,
        vec![
            ("debug".to_string(), "/ws/.jumble/prompts/debug.md".to_string()),
            ("add-endpoint".to_string(), "/ws/.jumble/prompts/add-endpoint.md".to_string()),
        ]
    );
}

#[test]
fn reload_reads_the_workspace_descriptor_afresh() {
    let mut server = Server::new("/ws".to_string(), None, Vec::new());
    assert!(server.tool_get_workspace_conventions(&ToolArgs::none()).is_err());
    let ws = WorkspaceConfig {
        workspace: WorkspaceInfo { name: None, description: None },
        conventions: vec![("naming".to_string(), "snake_case".to_string())],
        gotchas: Vec::new(),
    };
    server.reload(Some(ws), Vec::new());
    assert_eq!(
        server.tool_get_workspace_conventions(&ToolArgs::none()).unwrap(),
        "# Workspace Conventions\n\n## naming\nsnake_case\n\n"
    );
}

#[test]
fn duplicate_keys_make_a_source_invalid() {
    let mut c = config("app", "d");
    c.commands = vec![("build".to_string(), "make".to_string()), ("test".to_string(), "make t".to_string())];
    let good = source("/ws/app", Some(c.clone()));
    assert!(good.is_valid());
    c.commands.push(("build".to_string(), "cargo build".to_string()));
    let bad = source("/ws/app", Some(c));
    assert!(!bad.is_valid());
    assert!(source("/ws/broken", None).is_valid());
}
