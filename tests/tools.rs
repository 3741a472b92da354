use jumble::config::{
    Concept, Dependencies, DocEntry, ProjectConfig, ProjectConventions, ProjectDocs, ProjectInfo,
    ProjectPrompts, RelatedProjects, WorkspaceConfig, WorkspaceInfo,
};
use jumble::concepts::{lower_concepts, pick_concept, render_related};
use jumble::registry::ProjectSource;
use jumble::server::{Server, ToolArgs};

fn pairs(items: &[(&str, &str)]) -> Vec<(String, String)> {
    items.iter().map(|(k, v)| (k.to_string(), v.to_string())).collect()
}

fn strings(items: &[&str]) -> Vec<String> {
    items.iter().map(|s| s.to_string()).collect()
}

fn config(name: &str, description: &str) -> ProjectConfig {
    ProjectConfig {
        project: ProjectInfo {
            name: name.to_string(),
            description: description.to_string(),
            language: None,
            version: None,
            repository: None,
        },
        commands: Vec::new(),
        entry_points: Vec::new(),
        dependencies: Dependencies { internal: Vec::new(), external: Vec::new() },
        related_projects: RelatedProjects { upstream: Vec::new(), downstream: Vec::new() },
        api: None,
        concepts: Vec::new(),
    }
}

fn concept(summary: &str, files: &[&str]) -> Concept {
    Concept { files: strings(files), summary: summary.to_string() }
}

fn source(dir: &str, descriptor: Option<ProjectConfig>) -> ProjectSource {
    ProjectSource {
        project_dir: dir.to_string(),
        descriptor,
        prompts: ProjectPrompts { prompts: Vec::new() },
        conventions: None,
        docs: None,
    }
}

fn server_with(configs: Vec<ProjectConfig>) -> Server {
    let sources = configs
        .into_iter()
        .enumerate()
        .map(|(i, c)| source(&format!("/ws/dir{}", i), Some(c)))
        .collect();
    Server::new("/ws".to_string(), None, sources)
}

fn args(project: Option<&str>) -> ToolArgs {
    let mut a = ToolArgs::none();
    a.project = project.map(|p| p.to_string());
    a
}

#[test]
fn list_projects_on_empty_registry_is_advisory() {
    let server = Server::new("/ws".to_string(), None, Vec::new());
    assert_eq!(
        server.tool_list_projects(),
        Ok("No projects found. Make sure .jumble/project.toml files exist in your workspace.".to_string())
    );
}

#[test]
fn list_projects_renders_each_project() {
    let mut c = config("api", "The API");
    c.project.language = Some("rust".to_string());
    let server = server_with(vec![c, config("web", "The site")]);
    assert_eq!(
        server.tool_list_projects().unwrap(),
        "- **api** (rust): The API\n  Path: /ws/dir0\n- **web** (unknown): The site\n  Path: /ws/dir1\n"
    );
}

#[test]
fn project_info_without_field_succeeds() {
    let mut c = config("api", "The API");
    c.project.language = Some("rust".to_string());
    c.project.version = Some("1.0".to_string());
    c.entry_points = pairs(&[("main", "src/main.rs")]);
    c.concepts = vec![("auth".to_string(), concept("Login flow", &["src/auth.rs"]))];
    let server = server_with(vec![c]);
    assert_eq!(
        server.tool_get_project_info(&args(Some("api"))).unwrap(),
        "# api\n\n**Description:** The API\n**Language:** rust\n**Version:** 1.0\n**Path:** /ws/dir0\n\n## Entry Points\n- **main**: src/main.rs\n\n## Concepts\n- **auth**: Login flow\n"
    );
}

#[test]
fn project_info_unknown_field_names_it() {
    let server = server_with(vec![config("api", "The API")]);
    let mut a = args(Some("api"));
    a.field = Some("colour".to_string());
    assert_eq!(server.tool_get_project_info(&a), Err("Unknown field: colour".to_string()));
}

#[test]
fn project_info_fields() {
    let mut c = config("api", "The API");
    c.dependencies.internal = strings(&["core"]);
    c.related_projects.downstream = strings(&["web"]);
    let server = server_with(vec![c]);
    let mut a = args(Some("api"));
    a.field = Some("dependencies".to_string());
    assert_eq!(
        server.tool_get_project_info(&a).unwrap(),
        "**Internal dependencies:**\n- core\n"
    );
    a.field = Some("related_projects".to_string());
    assert_eq!(
        server.tool_get_project_info(&a).unwrap(),
        "**Downstream (depends on this project):**\n- web\n"
    );
    a.field = Some("api".to_string());
    assert_eq!(server.tool_get_project_info(&a).unwrap(), "No API information defined.");
    a.field = Some("entry_points".to_string());
    assert_eq!(server.tool_get_project_info(&a).unwrap(), "No entry points defined.");
    a.field = Some("commands".to_string());
    assert_eq!(server.tool_get_project_info(&a).unwrap(), "No commands defined.");
}

#[test]
fn missing_and_unknown_project() {
    let server = server_with(vec![config("api", "The API")]);
    assert_eq!(
        server.tool_get_project_info(&args(None)),
        Err("Missing 'project' argument".to_string())
    );
    assert_eq!(
        server.tool_get_commands(&args(Some("nope"))),
        Err("Project 'nope' not found".to_string())
    );
}

#[test]
fn round_trip_commands_single_bullet() {
    let mut c = config("demo", "x");
    c.commands = pairs(&[("build", "make")]);
    let server = server_with(vec![c]);
    let out = server.tool_get_commands(&args(Some("demo"))).unwrap();
    assert_eq!(out, "- **build**: `make`\n");
    assert_eq!(out.lines().count(), 1);
    assert!(out.contains("build") && out.contains("make"));
}

#[test]
fn commands_by_type() {
    let mut c = config("demo", "x");
    c.commands = pairs(&[("build", "make"), ("test", "make test")]);
    let server = server_with(vec![c]);
    let mut a = args(Some("demo"));
    a.command_type = Some("test".to_string());
    assert_eq!(server.tool_get_commands(&a), Ok("test: make test".to_string()));
    a.command_type = Some("lint".to_string());
    assert_eq!(
        server.tool_get_commands(&a),
        Err("Command 'lint' not found for project 'demo'".to_string())
    );
}

fn architecture_server() -> Server {
    let mut c = config("app", "d");
    c.concepts = vec![
        ("storage".to_string(), concept("Holds Auth tokens", &["src/db.rs"])),
        ("AUTH".to_string(), concept("Upper case key", &["src/upper.rs"])),
        ("auth".to_string(), concept("Login", &["src/auth.rs", "src/session.rs"])),
    ];
    server_with(vec![c])
}

#[test]
fn architecture_exact_match_wins() {
    let server = architecture_server();
    let mut a = args(Some("app"));
    a.concept = Some("auth".to_string());
    assert_eq!(
        server.tool_get_architecture(&a).unwrap(),
        "## auth\n\nLogin\n\n**Files:**\n- /ws/dir0/src/auth.rs\n- /ws/dir0/src/session.rs\n"
    );
}

#[test]
fn architecture_case_insensitive_before_substring() {
    let server = architecture_server();
    let mut a = args(Some("app"));
    a.concept = Some("Auth".to_string());
    assert_eq!(
        server.tool_get_architecture(&a).unwrap(),
        "## AUTH\n\nUpper case key\n\n**Files:**\n- /ws/dir0/src/upper.rs\n"
    );
}

#[test]
fn architecture_substring_and_missing() {
    let server = architecture_server();
    let mut a = args(Some("app"));
    a.concept = Some("TOKEN".to_string());
    assert!(server.tool_get_architecture(&a).unwrap().starts_with("## storage\n"));
    a.concept = Some("routing".to_string());
    assert_eq!(
        server.tool_get_architecture(&a),
        Err("Concept 'routing' not found. Available concepts: storage, AUTH, auth".to_string())
    );
    a.concept = None;
    assert_eq!(server.tool_get_architecture(&a), Err("Missing 'concept' argument".to_string()));
}

#[test]
fn related_files_returns_every_match() {
    let server = architecture_server();
    let mut a = args(Some("app"));
    a.query = Some("AUTH".to_string());
    assert_eq!(
        server.tool_get_related_files(&a).unwrap(),
        "Files related to 'AUTH': \n\n## storage\nHolds Auth tokens\n\nFiles:\n- /ws/dir0/src/db.rs\n\n## AUTH\nUpper case key\n\nFiles:\n- /ws/dir0/src/upper.rs\n\n## auth\nLogin\n\nFiles:\n- /ws/dir0/src/auth.rs\n- /ws/dir0/src/session.rs\n\n"
    );
    a.query = Some("cache".to_string());
    assert_eq!(
        server.tool_get_related_files(&a),
        Err("No concepts matching 'cache' found".to_string())
    );
}

fn prompt_server() -> Server {
    let mut s = source("/ws/app", Some(config("app", "d")));
    s.prompts = ProjectPrompts { prompts: pairs(&[("debug", "/ws/app/.jumble/prompts/debug.md")]) };
    let empty = source("/ws/lib", Some(config("lib", "d")));
    Server::new("/ws".to_string(), None, vec![s, empty])
}

#[test]
fn prompts_list_and_lookup() {
    let server = prompt_server();
    assert_eq!(
        server.tool_list_prompts(&args(Some("app"))).unwrap(),
        "Available prompts for 'app':\n\n- debug\n\nUse get_prompt(project, topic) to retrieve a specific prompt."
    );
    assert_eq!(
        server.tool_list_prompts(&args(Some("lib"))).unwrap(),
        "No prompts found for 'lib'. Create .jumble/prompts/*.md files to add task-specific context."
    );
    let mut a = args(Some("app"));
    a.topic = Some("debug".to_string());
    assert_eq!(server.tool_get_prompt(&a), Ok("/ws/app/.jumble/prompts/debug.md".to_string()));
    a.topic = Some("deploy".to_string());
    assert_eq!(server.tool_get_prompt(&a), Err("Prompt 'deploy' not found. Available: debug".to_string()));
    let mut b = args(Some("lib"));
    b.topic = Some("debug".to_string());
    assert_eq!(server.tool_get_prompt(&b), Err("No prompts found for 'lib'".to_string()));
}

#[test]
fn prompt_read_failure_is_distinct() {
    let server = prompt_server();
    let ok = server.finish_prompt(Ok("Step one".to_string()));
    assert_eq!((ok.text.as_str(), ok.is_error), ("Step one", false));
    let failed = server.finish_prompt(Err("permission denied".to_string()));
    assert_eq!(failed.text, "Error: Failed to read prompt: permission denied");
    assert!(failed.is_error);
}

fn conventions_server() -> Server {
    let mut s = source("/ws/app", Some(config("app", "d")));
    s.conventions = Some(ProjectConventions {
        conventions: pairs(&[("errors", "Use anyhow")]),
        gotchas: pairs(&[("tz", "Times are UTC")]),
    });
    let bare = source("/ws/lib", Some(config("lib", "d")));
    Server::new("/ws".to_string(), None, vec![s, bare])
}

#[test]
fn conventions_by_category() {
    let server = conventions_server();
    let mut a = args(Some("app"));
    assert_eq!(
        server.tool_get_conventions(&a).unwrap(),
        "# Conventions for 'app'\n\n## errors\nUse anyhow\n\n# Gotchas for 'app'\n\n## tz\nTimes are UTC\n\n"
    );
    a.category = Some("gotchas".to_string());
    assert_eq!(server.tool_get_conventions(&a).unwrap(), "# Gotchas for 'app'\n\n## tz\nTimes are UTC\n\n");
    a.category = Some("style".to_string());
    assert_eq!(
        server.tool_get_conventions(&a),
        Err("Unknown category 'style'. Use 'conventions' or 'gotchas'.".to_string())
    );
    assert_eq!(
        server.tool_get_conventions(&args(Some("lib"))).unwrap(),
        "No conventions found for 'lib'. Create .jumble/conventions.toml to add project-specific conventions and gotchas."
    );
}

#[test]
fn docs_index_and_topic() {
    let mut s = source("/ws/app", Some(config("app", "d")));
    s.docs = Some(ProjectDocs {
        docs: vec![(
            "setup".to_string(),
            DocEntry { path: "docs/setup.md".to_string(), summary: "How to install".to_string() },
        )],
    });
    let server = Server::new("/ws".to_string(), None, vec![s, source("/ws/lib", Some(config("lib", "d")))]);
    let mut a = args(Some("app"));
    assert_eq!(
        server.tool_get_docs(&a).unwrap(),
        "# Documentation for 'app'\n\n- **setup**: How to install\n\nUse get_docs(project, topic) to get the path to a specific doc."
    );
    a.topic = Some("setup".to_string());
    assert_eq!(
        server.tool_get_docs(&a).unwrap(),
        "## setup\n**Summary:** How to install\n**Path:** /ws/app/docs/setup.md"
    );
    a.topic = Some("deploy".to_string());
    assert_eq!(server.tool_get_docs(&a), Err("Doc 'deploy' not found. Available: setup".to_string()));
    let mut b = args(Some("lib"));
    b.topic = Some("setup".to_string());
    assert_eq!(
        server.tool_get_docs(&b).unwrap(),
        "No documentation index found for 'lib'. Create .jumble/docs.toml to index project documentation."
    );
}

#[test]
fn workspace_overview_sorted_with_dependencies() {
    let mut web = config("web", "Site");
    web.related_projects.upstream = strings(&["api", "core"]);
    let mut api = config("api", "API");
    api.project.language = Some("rust".to_string());
    let ws = WorkspaceConfig {
        workspace: WorkspaceInfo { name: Some("Acme".to_string()), description: Some("All of it".to_string()) },
        conventions: Vec::new(),
        gotchas: Vec::new(),
    };
    let sources = vec![source("/ws/web", Some(web)), source("/ws/api", Some(api))];
    let server = Server::new("/ws".to_string(), Some(ws), sources);
    assert_eq!(
        server.tool_get_workspace_overview().unwrap(),
        "# Acme\n\nAll of it\n\n**Root:** /ws\n\n## Projects\n\n- **api** (rust): API\n- **web** (unknown): Site\n\n## Dependencies\n\n**web**:\n  ← depends on: api, core\n\n*Use get_workspace_conventions() for workspace-wide coding standards.*"
    );
}

#[test]
fn workspace_overview_without_projects_or_descriptor() {
    let server = Server::new("/ws".to_string(), None, Vec::new());
    assert_eq!(
        server.tool_get_workspace_overview().unwrap(),
        "# Workspace Overview\n\n**Root:** /ws\n\nNo projects found.\n"
    );
    let server = server_with(vec![config("b", "B"), config("a", "A")]);
    assert_eq!(
        server.tool_get_workspace_overview().unwrap(),
        "# Workspace Overview\n\n**Root:** /ws\n\n## Projects\n\n- **a** (unknown): A\n- **b** (unknown): B\n\n## Dependencies\n\nNo cross-project dependencies defined.\n"
    );
}

#[test]
fn workspace_conventions_without_descriptor() {
    let server = server_with(vec![config("api", "A")]);
    let no_ws = server.tool_get_workspace_conventions(&ToolArgs::none()).unwrap_err();
    assert_eq!(
        no_ws,
        "No workspace.toml found. Create .jumble/workspace.toml at the workspace root to define workspace-level conventions."
    );
    let not_found = server.tool_get_commands(&args(Some("ghost"))).unwrap_err();
    assert_ne!(no_ws, not_found);
}

#[test]
fn workspace_conventions_by_category() {
    let ws = WorkspaceConfig {
        workspace: WorkspaceInfo { name: None, description: None },
        conventions: pairs(&[("naming", "snake_case")]),
        gotchas: Vec::new(),
    };
    let server = Server::new("/ws".to_string(), Some(ws), Vec::new());
    let mut a = ToolArgs::none();
    assert_eq!(
        server.tool_get_workspace_conventions(&a).unwrap(),
        "# Workspace Conventions\n\n## naming\nsnake_case\n\n"
    );
    a.category = Some("gotchas".to_string());
    assert_eq!(server.tool_get_workspace_conventions(&a).unwrap(), "No workspace gotchas defined.");
    a.category = Some("other".to_string());
    assert!(server.tool_get_workspace_conventions(&a).is_err());
}

#[test]
fn pick_concept_on_lowered_forms() {
    let concepts = vec![
        ("Storage".to_string(), concept("Holds tokens", &["db.rs"])),
        ("Auth".to_string(), concept("Login", &["auth.rs"])),
    ];
    let low = pairs(&[("storage", "holds tokens"), ("auth", "login")]);
    assert_eq!(pick_concept(&concepts, "Auth", &low, "auth"), Some(1));
    assert_eq!(pick_concept(&concepts, "AUTH", &low, "auth"), Some(1));
    assert_eq!(pick_concept(&concepts, "TOK", &low, "tok"), Some(0));
    assert_eq!(pick_concept(&concepts, "x", &low, "x"), None);
    assert_eq!(lower_concepts(&concepts), low);
}

#[test]
fn render_related_on_lowered_forms() {
    let concepts = vec![
        ("Storage".to_string(), concept("Holds tokens", &["db.rs"])),
        ("Auth".to_string(), concept("Login tokens", &["auth.rs"])),
        ("Ui".to_string(), concept("Views", &["ui.rs"])),
    ];
    let low = pairs(&[("storage", "holds tokens"), ("auth", "login tokens"), ("ui", "views")]);
    let (body, count) = render_related("/p", &concepts, &low, "token");
    assert_eq!(count, 2);
    assert_eq!(
        body,
        "## Storage\nHolds tokens\n\nFiles:\n- /p/db.rs\n\n## Auth\nLogin tokens\n\nFiles:\n- /p/auth.rs\n\n"
    );
    assert_eq!(render_related("/p", &concepts, &low, "nothing").1, 0);
}
