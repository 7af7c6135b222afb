use shell_assistant::docker::DockerPlugin;
use shell_assistant::git::GitPlugin;
use shell_assistant::manager::{BuiltinPlugin, PluginManager};
use shell_assistant::plugin::{extract_quoted_text, extract_url, Plugin};

fn proposal(p: &dyn Plugin, input: &str) -> Option<(String, String)> {
    p.handle(input).map(|r| (r.command, r.explanation))
}

#[test]
fn git_templates() {
    let git = GitPlugin::new();
    assert!(git.can_handle("Show GIT status"));
    assert_eq!(
        proposal(&git, "Show GIT status"),
        Some((
            "git status".to_string(),
            "Shows the working tree status, including tracked and untracked files.".to_string()
        ))
    );
    assert_eq!(
        proposal(&git, "commit with message \"fix bug\"").unwrap().0,
        "git commit -m \"fix bug\""
    );
    assert_eq!(
        proposal(&git, "add file main.rs"),
        Some(("git add main.rs".to_string(), "Stages changes to the file 'main.rs'.".to_string()))
    );
    assert_eq!(proposal(&git, "create branch feature-x").unwrap().0, "git branch feature-x");
    assert_eq!(
        proposal(&git, "clone https://example.com/a/b.git").unwrap().0,
        "git clone https://example.com/a/b.git"
    );
    assert_eq!(proposal(&git, "hello").unwrap().0, "git ");
}

#[test]
fn docker_templates() {
    let docker = DockerPlugin::new();
    assert_eq!(proposal(&docker, "list all containers").unwrap().0, "docker ps -a");
    assert_eq!(
        proposal(&docker, "pull image nginx:latest"),
        Some((
            "docker pull nginx:latest".to_string(),
            "Pulls the Docker image 'nginx:latest'.".to_string()
        ))
    );
    assert_eq!(proposal(&docker, "stop container web-1,").unwrap().0, "docker stop web-1");
    assert_eq!(proposal(&docker, "build image as app:v1").unwrap().0, "docker build -t app:v1 .");
    assert_eq!(proposal(&docker, "hello"), None);
    assert!(docker.process("hello").is_none());
}

#[test]
fn extraction_helpers() {
    assert_eq!(extract_quoted_text("say \"hi there\" now"), Some("hi there".to_string()));
    assert_eq!(extract_quoted_text("say \"hi"), None);
    assert_eq!(extract_url("from git@host:a.git please"), Some("git@host:a.git".to_string()));
    assert_eq!(extract_url("nothing here"), None);
}

#[test]
fn manager_dispatch() {
    let mut manager = PluginManager::new();
    manager.register_plugin(BuiltinPlugin::Git(GitPlugin::new()));
    manager.register_plugin(BuiltinPlugin::Docker(DockerPlugin::new()));
    assert_eq!(manager.plugin_count(), 2);
    assert_eq!(manager.process("show git status").unwrap().command, "git status");
    assert_eq!(manager.process("list images").unwrap().command, "docker images");
    assert!(manager.process("make coffee").is_none());
    assert_eq!(manager.get_plugin("GIT").map(|p| p.name()), Some("git"));
    assert!(manager.get_plugin("svn").is_none());
    let names: Vec<&str> = manager.list_plugins().iter().map(|(n, _)| *n).collect();
    assert_eq!(names, vec!["git", "docker"]);
}
