use std::path::PathBuf;
use wogaer::git::{command_outcome, language_for_file, parse_remote, GitRepo, GitStep, RepoStatus};

fn repo() -> GitRepo {
    GitRepo::new(PathBuf::from("/tmp/project"))
}

fn args(step: GitStep<impl Sized>) -> Vec<String> {
    match step {
        GitStep::Run(a) => a,
        GitStep::Finished(_) => panic!("expected a command"),
    }
}

fn strs(v: &[&str]) -> Vec<String> {
    v.iter().map(|s| s.to_string()).collect()
}

#[test]
fn status_of_a_repository() {
    let r = repo();
    assert_eq!(r.path(), &PathBuf::from("/tmp/project"));
    let mut done: Vec<Result<String, String>> = Vec::new();
    assert_eq!(args(r.status(&done)), strs(&["rev-parse", "--git-dir"]));
    done.push(Ok(".git".to_string()));
    assert_eq!(args(r.status(&done)), strs(&["branch", "--show-current"]));
    done.push(Ok("main".to_string()));
    assert_eq!(args(r.status(&done)), strs(&["remote", "get-url", "origin"]));
    done.push(Ok("git@github.com:octo/demo.git".to_string()));
    assert_eq!(args(r.status(&done)), strs(&["status", "--porcelain"]));
    done.push(Ok(String::new()));
    match r.status(&done) {
        GitStep::Finished(Ok(RepoStatus { is_repo, has_remote, remote_url, current_branch, is_clean })) => {
            assert!(is_repo && has_remote && is_clean);
            assert_eq!(remote_url.as_deref(), Some("git@github.com:octo/demo.git"));
            assert_eq!(current_branch.as_deref(), Some("main"));
        }
        _ => panic!("expected a status"),
    }
}

#[test]
fn status_with_failures_and_changes() {
    let r = repo();
    let done = vec![
        Ok(".git".to_string()),
        Err("Git command failed: detached".to_string()),
        Err("Git command failed: No such remote".to_string()),
        Ok("M src/lib.rs".to_string()),
    ];
    match r.status(&done) {
        GitStep::Finished(Ok(st)) => {
            assert!(st.is_repo);
            assert!(!st.has_remote);
            assert_eq!(st.remote_url, None);
            assert_eq!(st.current_branch, None);
            assert!(!st.is_clean);
        }
        _ => panic!("expected a status"),
    }
    let done = vec![Ok(".git".to_string()), Ok("dev".to_string()), Ok("u".to_string()), Err("x".to_string())];
    match r.status(&done) {
        GitStep::Finished(Ok(st)) => assert!(st.is_clean),
        _ => panic!("expected a status"),
    }
}

#[test]
fn status_outside_a_repository() {
    let r = repo();
    match r.status(&vec![Err("Failed to execute git command".to_string())]) {
        GitStep::Finished(Ok(st)) => {
            assert!(!st.is_repo && !st.has_remote && !st.is_clean);
            assert_eq!(st.remote_url, None);
        }
        _ => panic!("expected a status"),
    }
    assert!(matches!(r.is_git_repo(&vec![Err("e".to_string())]), GitStep::Finished(false)));
    assert!(matches!(r.is_git_repo(&vec![Ok(".git".to_string())]), GitStep::Finished(true)));
}

#[test]
fn init_only_when_needed() {
    let r = repo();
    assert!(matches!(r.init(&vec![Ok(".git".to_string())]), GitStep::Finished(Ok(()))));
    let done = vec![Err("not a repo".to_string())];
    assert_eq!(args(r.init(&done)), strs(&["init"]));
    let done = vec![Err("not a repo".to_string()), Err("Git command failed: denied".to_string())];
    match r.init(&done) {
        GitStep::Finished(Err(e)) => assert_eq!(e, "Git command failed: denied"),
        _ => panic!("expected failure"),
    }
}

#[test]
fn remote_is_added_only_once() {
    let r = repo();
    let url = "https://github.com/octo/demo.git";
    assert_eq!(args(r.add_remote(url, &vec![])), strs(&["remote", "get-url", "origin"]));
    assert!(matches!(r.add_remote(url, &vec![Ok("existing".to_string())]), GitStep::Finished(Ok(()))));
    assert_eq!(args(r.add_remote(url, &vec![Err("none".to_string())])), strs(&["remote", "add", "origin", url]));
    assert!(matches!(
        r.add_remote(url, &vec![Err("none".to_string()), Ok(String::new())]),
        GitStep::Finished(Ok(()))
    ));
}

#[test]
fn single_commands() {
    let r = repo();
    assert_eq!(args(r.add_all(&vec![])), strs(&["add", "."]));
    assert_eq!(args(r.commit("msg here", &vec![])), strs(&["commit", "-m", "msg here"]));
    assert_eq!(args(r.push("main", &vec![])), strs(&["push", "-u", "origin", "main"]));
    assert!(matches!(r.push("main", &vec![Ok(String::new())]), GitStep::Finished(Ok(()))));
    match r.commit("m", &vec![Err("nothing to commit".to_string())]) {
        GitStep::Finished(Err(e)) => assert_eq!(e, "nothing to commit"),
        _ => panic!("expected failure"),
    }
}

#[test]
fn command_outcomes() {
    assert_eq!(command_outcome(true, true, "  main \n", ""), Ok("main".to_string()));
    assert_eq!(command_outcome(true, false, "", "fatal: bad"), Err("Git command failed: fatal: bad".to_string()));
    assert_eq!(command_outcome(false, false, "", ""), Err("Failed to execute git command".to_string()));
}

#[test]
fn languages_of_a_project() {
    let r = repo();
    let names = strs(&["README.md", "Cargo.toml", "Dockerfile", "src", "package.json", "Cargo.toml"]);
    assert_eq!(r.detect_language(&names), strs(&["Rust", "Docker", "Node.js", "Rust"]));
    assert_eq!(language_for_file("CMakeLists.txt"), Some("C++"));
    assert_eq!(language_for_file("build.gradle"), Some("Java (Gradle)"));
    assert_eq!(language_for_file("pom.xml"), Some("Java (Maven)"));
    assert_eq!(language_for_file("go.mod"), Some("Go"));
    assert_eq!(language_for_file("requirements.txt"), Some("Python"));
    assert_eq!(language_for_file("cargo.toml"), None);
    assert!(r.detect_language(&vec![]).is_empty());
}

#[test]
fn remote_addresses() {
    assert_eq!(parse_remote("https://github.com/octo/demo.git"), (Some("octo".to_string()), Some("demo".to_string())));
    assert_eq!(parse_remote("git@github.com:octo/demo.git"), (Some("octo".to_string()), Some("demo".to_string())));
    assert_eq!(parse_remote("https://github.com/octo/demo"), (Some("octo".to_string()), Some("demo".to_string())));
    assert_eq!(parse_remote("demo"), (None, Some("demo".to_string())));
    assert_eq!(parse_remote("https://github.com/octo/"), (Some("octo".to_string()), None));
    assert_eq!(parse_remote(""), (None, None));
}

#[test]
fn a_folder_listing_detects_each_language_once() {
    let names: Vec<String> = [
        "Dockerfile", "README.md", "go.mod", "Cargo.toml", "pom.xml", "build.gradle",
        "CMakeLists.txt", "package.json", "requirements.txt", "src",
    ]
    .iter()
    .map(|s| s.to_string())
    .collect();
    let found = repo().detect_language(&names);
    assert_eq!(found.len(), 8);
    for i in 0..found.len() {
        for j in (i + 1)..found.len() {
            assert_ne!(found[i], found[j]);
        }
    }
}
