use wogaer::commands::{
    artifact_file_name, artifact_summary, build_record, build_response, device_code_failure,
    device_code_summary, device_poll_summary, dispatch_message, dispatch_options, dispatch_verdict,
    find_artifact, normalize_token, project_analysis, push_target, repo_access_message,
    repo_check_verdict, run_status_summary, supported_languages, BuildRequest,
};
use wogaer::encoding::workflow_file_content;
use wogaer::git::RepoStatus;
use wogaer::http::{ApiError, HttpReply};
use wogaer::json::{JsonNumber, JsonValue};
use wogaer::records::{history_limit, limit_param, needs_run_id_column, repo_label};
use wogaer::workflow::{Artifact, WorkflowRun};

fn s(v: &str) -> JsonValue {
    JsonValue::Str(v.to_string())
}

fn obj(entries: Vec<(&str, JsonValue)>) -> JsonValue {
    JsonValue::Object(entries.into_iter().map(|(k, v)| (k.to_string(), v)).collect())
}

fn reply(status: u16, text: &str) -> HttpReply {
    HttpReply { status, text: text.to_string(), json: Ok(JsonValue::Null) }
}

fn text_of(v: &JsonValue) -> &str {
    match v {
        JsonValue::Str(t) => t.as_str(),
        _ => panic!("not text"),
    }
}

fn members(v: &JsonValue) -> &Vec<(String, JsonValue)> {
    match v {
        JsonValue::Object(e) => e,
        _ => panic!("not an object"),
    }
}

fn run() -> WorkflowRun {
    WorkflowRun {
        id: 42,
        name: "Build".to_string(),
        status: "queued".to_string(),
        conclusion: None,
        created_at: "2024-05-01T10:00:00Z".to_string(),
        updated_at: "2024-05-01T10:01:00Z".to_string(),
        html_url: "https://github.com/octo/demo/actions/runs/42".to_string(),
        run_number: 7,
    }
}

fn request(inputs: JsonValue) -> BuildRequest {
    BuildRequest {
        repo_owner: "octo".to_string(),
        repo_name: "demo".to_string(),
        workflow_id: "build.yml".to_string(),
        ref_name: "main".to_string(),
        inputs,
        project_path: "/p".to_string(),
    }
}

#[test]
fn repository_check_explanations() {
    assert_eq!(repo_check_verdict(&Ok(reply(200, ""))), Ok(()));
    assert_eq!(
        repo_check_verdict(&Ok(reply(404, "{\"message\":\"Not Found\"}"))),
        Err("仓库不存在、无访问权限，或仓库为私有且 Token 无权限".to_string())
    );
    assert_eq!(
        repo_check_verdict(&Ok(reply(403, "forbidden"))),
        Err("Token 权限不足，请确保勾选了 workflow 权限".to_string())
    );
    assert_eq!(
        repo_check_verdict(&Ok(reply(500, "boom"))),
        Err("Repo check failed: 500 Internal Server Error - boom".to_string())
    );
    assert_eq!(
        repo_check_verdict(&Err(ApiError::Transport("Failed to validate repo access".to_string()))),
        Err("Failed to validate repo access".to_string())
    );
    assert_eq!(repo_access_message("contains 404 somewhere"), "仓库不存在、无访问权限，或仓库为私有且 Token 无权限");
}

#[test]
fn dispatch_explanations() {
    assert_eq!(dispatch_verdict(&Ok(reply(204, ""))), Ok(()));
    assert_eq!(
        dispatch_verdict(&Ok(reply(404, ""))),
        Err("workflow 文件不存在，请先生成 workflow 并推送到仓库".to_string())
    );
    assert_eq!(dispatch_verdict(&Ok(reply(422, "bad"))), Err("触发参数无效，请检查分支名或 inputs".to_string()));
    assert_eq!(
        dispatch_verdict(&Ok(reply(403, ""))),
        Err("Token 权限不足，请确保勾选了 workflow 权限".to_string())
    );
    assert_eq!(dispatch_message("other"), "other");
    assert_eq!(
        dispatch_verdict(&Err(ApiError::Transport("Failed to dispatch workflow".to_string()))),
        Err("Failed to dispatch workflow".to_string())
    );
}

#[test]
fn tokens() {
    assert_eq!(normalize_token("  ghp_abc \n"), Some("ghp_abc".to_string()));
    assert_eq!(normalize_token("   "), None);
    assert_eq!(normalize_token(""), None);
}

#[test]
fn inputs_from_request() {
    let req = request(obj(vec![("a", s("1")), ("b", JsonValue::Number(JsonNumber::PosInt(2))), ("c", s("3"))]));
    let opts = dispatch_options(&req);
    assert_eq!(opts.ref_name, "main");
    assert_eq!(opts.inputs, vec![("a".to_string(), "1".to_string()), ("c".to_string(), "3".to_string())]);
    let opts = dispatch_options(&request(JsonValue::Null));
    assert!(opts.inputs.is_empty());
    let opts = dispatch_options(&request(JsonValue::Array(vec![s("x")])));
    assert!(opts.inputs.is_empty());
}

#[test]
fn records_and_responses() {
    let rec = build_record(&request(JsonValue::Null), &run(), "linux");
    assert_eq!(rec.id, 0);
    assert_eq!(rec.run_id, 42);
    assert_eq!(rec.repo_name, "octo/demo");
    assert_eq!(rec.workflow_id, "build.yml");
    assert_eq!(rec.status, "queued");
    assert_eq!(rec.artifact_url, None);
    assert_eq!(rec.trigger_type, "manual");
    assert_eq!(rec.platform, "linux");
    let resp = build_response(&run());
    assert_eq!((resp.run_id, resp.run_number), (42, 7));
    assert_eq!(resp.html_url, "https://github.com/octo/demo/actions/runs/42");
    let sum = run_status_summary(&run());
    let m = members(&sum);
    let keys: Vec<&str> = m.iter().map(|p| p.0.as_str()).collect();
    assert_eq!(keys, vec!["id", "status", "conclusion", "updated_at", "html_url"]);
    assert!(matches!(m[2].1, JsonValue::Null));
    assert_eq!(repo_label("a", "b"), "a/b");
}

#[test]
fn artifacts_for_download() {
    let arts = vec![
        Artifact { id: 1, name: "a".to_string(), size_in_bytes: 5, created_at: "t".to_string(), download_url: "u1".to_string() },
        Artifact { id: 2, name: "b".to_string(), size_in_bytes: -1, created_at: "t".to_string(), download_url: "u2".to_string() },
    ];
    assert_eq!(find_artifact(&arts, 2), Ok(1));
    assert_eq!(find_artifact(&arts, 3), Err("找不到产物 ID: 3".to_string()));
    assert_eq!(find_artifact(&arts, -9), Err("找不到产物 ID: -9".to_string()));
    assert_eq!(artifact_file_name("app-linux"), "app-linux.zip");
    let sum = artifact_summary(&arts[1]);
    let m = members(&sum);
    assert_eq!(m[2].0, "size");
    assert!(matches!(m[2].1, JsonValue::Number(JsonNumber::NegInt(-1))));
    assert_eq!(text_of(&m[4].1), "u2");
}

#[test]
fn device_flow() {
    let start = device_code_summary(&obj(vec![("device_code", s("dc")), ("user_code", s("ABCD-1234")), ("interval", JsonValue::Number(JsonNumber::PosInt(7)))]));
    let m = members(&start);
    assert_eq!(text_of(&m[0].1), "dc");
    assert_eq!(text_of(&m[1].1), "ABCD-1234");
    assert_eq!(text_of(&m[2].1), "https://github.com/login/device");
    assert!(matches!(m[3].1, JsonValue::Number(JsonNumber::PosInt(7))));
    assert!(matches!(m[4].1, JsonValue::Number(JsonNumber::PosInt(900))));
    assert_eq!(device_code_failure(&reply(401, "no")), "设备码请求失败: 401 Unauthorized - no");

    let ok = device_poll_summary(&obj(vec![("access_token", s("gho_x"))]));
    let m = members(&ok);
    assert_eq!((text_of(&m[0].1), text_of(&m[1].1)), ("ok", "gho_x"));
    for (err, state) in [
        ("authorization_pending", "pending"),
        ("slow_down", "slow_down"),
        ("expired_token", "expired"),
        ("access_denied", "denied"),
        ("weird", "error"),
    ] {
        let p = device_poll_summary(&obj(vec![("error", s(err)), ("interval", JsonValue::Number(JsonNumber::PosInt(10)))]));
        let m = members(&p);
        assert_eq!(text_of(&m[0].1), state);
        assert!(matches!(m[1].1, JsonValue::Number(JsonNumber::PosInt(10))));
        assert_eq!(text_of(&m[2].1), err);
    }
    let p = device_poll_summary(&obj(vec![]));
    let m = members(&p);
    assert_eq!(text_of(&m[0].1), "error");
    assert_eq!(text_of(&m[2].1), "unknown_error");
    assert!(matches!(m[1].1, JsonValue::Number(JsonNumber::PosInt(5))));
}

fn status(remote: Option<&str>, branch: Option<&str>) -> RepoStatus {
    RepoStatus {
        is_repo: true,
        has_remote: remote.is_some(),
        remote_url: remote.map(|r| r.to_string()),
        current_branch: branch.map(|b| b.to_string()),
        is_clean: true,
    }
}

#[test]
fn push_targets() {
    let t = push_target(&status(Some("https://github.com/octo/demo.git"), Some("dev"))).unwrap();
    assert_eq!((t.owner.as_str(), t.name.as_str(), t.branch.as_str()), ("octo", "demo", "dev"));
    let t = push_target(&status(Some("git@github.com:octo/demo.git"), Some("  "))).unwrap();
    assert_eq!(t.branch, "main");
    let t = push_target(&status(Some("git@github.com:octo/demo.git"), None)).unwrap();
    assert_eq!(t.branch, "main");
    assert_eq!(push_target(&status(None, None)).unwrap_err(), "项目没有配置远程仓库");
    assert_eq!(push_target(&status(Some("demo"), None)).unwrap_err(), "无法解析远程仓库 owner");
    assert_eq!(push_target(&status(Some("https://github.com/octo/"), None)).unwrap_err(), "无法解析远程仓库名称");
}

#[test]
fn analysis_of_a_project() {
    let a = project_analysis(status(Some("https://github.com/octo/demo"), Some("main")), vec!["Rust".to_string()], "/p".to_string());
    assert!(a.is_git_repo && a.has_remote && a.is_clean);
    assert_eq!(a.repo_owner.as_deref(), Some("octo"));
    assert_eq!(a.repo_name.as_deref(), Some("demo"));
    assert_eq!(a.languages, vec!["Rust".to_string()]);
    let a = project_analysis(status(None, None), vec![], "/q".to_string());
    assert_eq!((a.repo_owner, a.repo_name), (None, None));
}

#[test]
fn supported_language_list() {
    assert_eq!(
        supported_languages(),
        vec!["Rust", "Node.js", "Python", "Go", "Java (Maven)", "Java (Gradle)", "C++", "Docker"]
    );
}

#[test]
fn base64_of_workflow_files() {
    assert_eq!(workflow_file_content(b""), "");
    assert_eq!(workflow_file_content(b"f"), "Zg==");
    assert_eq!(workflow_file_content(b"fo"), "Zm8=");
    assert_eq!(workflow_file_content(b"foo"), "Zm9v");
    assert_eq!(workflow_file_content(b"hello world"), "aGVsbG8gd29ybGQ=");
    assert_eq!(workflow_file_content(&[0xff, 0xfe, 0x00]), "//4A");
}

#[test]
fn history_table() {
    assert!(needs_run_id_column(&vec!["id".to_string(), "repo_name".to_string()]));
    assert!(!needs_run_id_column(&vec!["id".to_string(), "run_id".to_string()]));
    assert!(needs_run_id_column(&vec![]));
    assert_eq!(limit_param(50), 50);
    assert_eq!(limit_param(usize::MAX), -1);
    assert_eq!(history_limit(None), 50);
    assert_eq!(history_limit(Some(3)), 3);
}

#[test]
fn detected_languages_are_offered() {
    let offered = supported_languages();
    for name in ["Cargo.toml", "package.json", "requirements.txt", "go.mod", "pom.xml", "build.gradle", "CMakeLists.txt", "Dockerfile"] {
        let lang = wogaer::git::language_for_file(name).unwrap();
        assert!(offered.iter().any(|l| l == lang));
    }
}

#[test]
fn login_and_triggered_runs() {
    let zh = wogaer::i18n::I18n::new("zh");
    assert_eq!(wogaer::commands::logged_in_token(&Some("t".to_string()), &zh), Ok("t".to_string()));
    assert_eq!(wogaer::commands::logged_in_token(&None, &zh), Err("未登录 GitHub".to_string()));
    let en = wogaer::i18n::I18n::new("en");
    assert_eq!(wogaer::commands::logged_in_token(&None, &en), Err("Not logged in to GitHub".to_string()));
    let got = wogaer::commands::triggered_run(vec![run()], &en).unwrap();
    assert_eq!(got.id, 42);
    assert_eq!(wogaer::commands::triggered_run(vec![], &en).unwrap_err(), "Build failed");
}
