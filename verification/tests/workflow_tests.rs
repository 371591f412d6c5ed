use wogaer::http::{ApiError, HttpMethod, HttpReply};
use wogaer::json::{JsonNumber, JsonValue};
use wogaer::workflow::{WorkflowClient, WorkflowDispatchOptions, WorkflowRun};

fn s(v: &str) -> JsonValue {
    JsonValue::Str(v.to_string())
}

fn n(v: i64) -> JsonValue {
    if v >= 0 {
        JsonValue::Number(JsonNumber::PosInt(v as u64))
    } else {
        JsonValue::Number(JsonNumber::NegInt(v))
    }
}

fn obj(entries: Vec<(&str, JsonValue)>) -> JsonValue {
    JsonValue::Object(entries.into_iter().map(|(k, v)| (k.to_string(), v)).collect())
}

fn reply(status: u16, text: &str, json: Result<JsonValue, String>) -> HttpReply {
    HttpReply { status, text: text.to_string(), json }
}

fn client() -> WorkflowClient {
    WorkflowClient::new("tok".to_string(), "octo".to_string(), "demo".to_string())
}

fn header_pairs(h: &[(String, String)]) -> Vec<(&str, &str)> {
    h.iter().map(|(a, b)| (a.as_str(), b.as_str())).collect()
}

#[test]
fn urls_and_headers() {
    let c = client();
    assert_eq!(c.base_url(), "https://api.github.com/repos/octo/demo");
    let r = c.list_runs_request(Some("build.yml"), 1);
    assert_eq!(r.method, HttpMethod::Get);
    assert_eq!(r.url, "https://api.github.com/repos/octo/demo/actions/runs?workflow_id=build.yml&per_page=1");
    assert_eq!(
        header_pairs(&r.headers),
        vec![
            ("Authorization", "Bearer tok"),
            ("Accept", "application/vnd.github.v3+json"),
            ("User-Agent", "woGAer"),
        ]
    );
    assert_eq!(r.failure, "Failed to list runs");
    let r = c.list_runs_request(None, 30);
    assert_eq!(r.url, "https://api.github.com/repos/octo/demo/actions/runs?per_page=30");
    assert_eq!(c.get_run_status_request(-5).url, "https://api.github.com/repos/octo/demo/actions/runs/-5");
    assert_eq!(c.list_artifacts_request(77).url, "https://api.github.com/repos/octo/demo/actions/runs/77/artifacts");
    assert_eq!(c.list_workflows_request().url, "https://api.github.com/repos/octo/demo/actions/workflows");
    assert_eq!(c.validate_token_request().url, "https://api.github.com/user");
    assert_eq!(c.get_user_request().failure, "Failed to get GitHub user");
    assert_eq!(c.validate_repo_access_request().url, "https://api.github.com/repos/octo/demo");
    let p = c.push_check_request("dev", "build.yml");
    assert_eq!(p.url, "https://api.github.com/repos/octo/demo/contents/.github/workflows/build.yml?ref=dev");
}

#[test]
fn dispatch_payload_with_and_without_inputs() {
    let c = client();
    let mut opts = WorkflowDispatchOptions::new("main".to_string());
    let r = c.dispatch_workflow_request("build.yml", &opts);
    assert_eq!(r.method, HttpMethod::Post);
    assert_eq!(r.url, "https://api.github.com/repos/octo/demo/actions/workflows/build.yml/dispatches");
    match r.body {
        Some(JsonValue::Object(e)) => {
            assert_eq!(e.len(), 1);
            assert_eq!(e[0].0, "ref");
        }
        _ => panic!("no payload"),
    }
    opts.set_input("mode".to_string(), "fast".to_string());
    opts.set_input("level".to_string(), "2".to_string());
    opts.set_input("mode".to_string(), "slow".to_string());
    assert_eq!(opts.inputs.len(), 2);
    let r = c.dispatch_workflow_request("build.yml", &opts);
    match r.body {
        Some(JsonValue::Object(e)) => {
            assert_eq!(e.len(), 2);
            assert_eq!(e[1].0, "inputs");
            match &e[1].1 {
                JsonValue::Object(ins) => {
                    assert_eq!(ins.len(), 2);
                    assert_eq!(ins[0].0, "mode");
                    assert!(matches!(&ins[0].1, JsonValue::Str(v) if v == "slow"));
                }
                _ => panic!("inputs not an object"),
            }
        }
        _ => panic!("no payload"),
    }
}

#[test]
fn runs_are_read_with_defaults() {
    let data = obj(vec![(
        "workflow_runs",
        JsonValue::Array(vec![
            obj(vec![
                ("id", n(12)),
                ("name", s("Build")),
                ("status", s("queued")),
                ("conclusion", JsonValue::Null),
                ("created_at", s("2024-01-01T00:00:00Z")),
                ("html_url", s("https://github.com/octo/demo/actions/runs/12")),
                ("run_number", n(3)),
            ]),
            obj(vec![("id", JsonValue::Number(JsonNumber::PosInt(u64::MAX))), ("conclusion", s("success"))]),
        ]),
    )]);
    let runs = WorkflowClient::list_runs_result(&reply(200, "", Ok(data))).unwrap();
    assert_eq!(runs.len(), 2);
    assert_eq!(runs[0].id, 12);
    assert_eq!(runs[0].name, "Build");
    assert_eq!(runs[0].conclusion, None);
    assert_eq!(runs[0].updated_at, "");
    assert_eq!(runs[0].run_number, 3);
    assert_eq!(runs[1].id, 0);
    assert_eq!(runs[1].conclusion.as_deref(), Some("success"));
    assert_eq!(runs[1].status, "");
}

#[test]
fn run_listing_errors() {
    let e = WorkflowClient::list_runs_result(&reply(404, "missing", Err("x".to_string()))).unwrap_err();
    assert!(matches!(e, ApiError::Status(_)));
    assert_eq!(e.message(), "List runs failed: 404 Not Found - missing");
    let e = WorkflowClient::list_runs_result(&reply(200, "", Ok(obj(vec![("total_count", n(0))])))).unwrap_err();
    assert!(matches!(e, ApiError::InvalidFormat));
    assert_eq!(e.message(), "Invalid response format");
    let e = WorkflowClient::list_runs_result(&reply(200, "<html>", Err("expected value".to_string()))).unwrap_err();
    assert!(matches!(e, ApiError::Decode(_)));
    assert_eq!(e.message(), "expected value");
    let e = WorkflowClient::get_run_status_result(&reply(500, "oops", Ok(JsonValue::Null))).unwrap_err();
    assert_eq!(e.message(), "Get run failed: 500 Internal Server Error - oops");
}

#[test]
fn single_run_status() {
    let data = obj(vec![("id", n(9)), ("status", s("completed")), ("conclusion", s("failure"))]);
    let run: WorkflowRun = WorkflowClient::get_run_status_result(&reply(200, "", Ok(data))).unwrap();
    assert_eq!(run.id, 9);
    assert_eq!(run.status, "completed");
    assert_eq!(run.conclusion.as_deref(), Some("failure"));
    let run = WorkflowClient::get_run_status_result(&reply(200, "", Ok(JsonValue::Array(vec![])))).unwrap();
    assert_eq!(run.id, 0);
}

#[test]
fn artifact_links_are_the_download_requests() {
    let c = client();
    let data = obj(vec![(
        "artifacts",
        JsonValue::Array(vec![
            obj(vec![("id", n(501)), ("name", s("app-linux")), ("size_in_bytes", n(2048)), ("created_at", s("t"))]),
            obj(vec![("name", s("no-id"))]),
        ]),
    )]);
    let arts = c.list_artifacts_result(&reply(200, "", Ok(data))).unwrap();
    assert_eq!(arts.len(), 2);
    assert_eq!(arts[0].download_url, "https://api.github.com/repos/octo/demo/actions/artifacts/501/zip");
    assert_eq!(arts[0].download_url, c.download_artifact_request(arts[0].id).url);
    assert_eq!(arts[0].size_in_bytes, 2048);
    assert_eq!(arts[1].id, 0);
    assert_eq!(arts[1].download_url, c.download_artifact_request(0).url);
    let e = c.list_artifacts_result(&reply(403, "denied", Ok(JsonValue::Null))).unwrap_err();
    assert_eq!(e.message(), "List artifacts failed: 403 Forbidden - denied");
}

#[test]
fn workflows_token_user_and_repo() {
    let data = obj(vec![("workflows", JsonValue::Array(vec![obj(vec![("id", n(1))])]))]);
    let ws = WorkflowClient::list_workflows_result(reply(200, "", Ok(data))).unwrap();
    assert_eq!(ws.len(), 1);
    let ws = WorkflowClient::list_workflows_result(reply(200, "", Ok(obj(vec![])))).unwrap();
    assert!(ws.is_empty());
    assert!(WorkflowClient::validate_token_result(&reply(200, "", Ok(JsonValue::Null))));
    assert!(!WorkflowClient::validate_token_result(&reply(401, "", Ok(JsonValue::Null))));
    let user = WorkflowClient::get_user_result(&reply(200, "", Ok(obj(vec![("login", s("octocat")), ("id", n(1))])))).unwrap();
    match user {
        JsonValue::Object(e) => {
            assert_eq!(e.len(), 3);
            assert!(matches!(&e[0].1, JsonValue::Str(v) if v == "octocat"));
            assert_eq!(e[1].0, "name");
            assert!(matches!(&e[1].1, JsonValue::Str(v) if v.is_empty()));
            assert_eq!(e[2].0, "avatar_url");
        }
        _ => panic!("not an object"),
    }
    assert!(WorkflowClient::validate_repo_access_result(&reply(204, "", Ok(JsonValue::Null))).is_ok());
    let e = WorkflowClient::validate_repo_access_result(&reply(404, "{}", Ok(JsonValue::Null))).unwrap_err();
    assert_eq!(e.message(), "Repo check failed: 404 Not Found - {}");
    let e = WorkflowClient::dispatch_workflow_result(&reply(422, "bad ref", Ok(JsonValue::Null))).unwrap_err();
    assert_eq!(e.message(), "Dispatch failed: 422 Unprocessable Entity - bad ref");
    let e = WorkflowClient::download_artifact_result(&reply(410, "gone", Ok(JsonValue::Null))).unwrap_err();
    assert_eq!(e.message(), "Download failed: 410 Gone - gone");
}

#[test]
fn pushing_a_workflow_file() {
    let c = client();
    let found = WorkflowClient::push_check_result(&reply(200, "", Ok(obj(vec![("sha", s("abc123"))])))).unwrap();
    assert_eq!(found.as_deref(), Some("abc123"));
    let found = WorkflowClient::push_check_result(&reply(200, "", Ok(obj(vec![])))).unwrap();
    assert_eq!(found.as_deref(), Some(""));
    assert_eq!(WorkflowClient::push_check_result(&reply(404, "", Err("no".to_string()))).unwrap(), None);
    let e = WorkflowClient::push_check_result(&reply(500, "down", Ok(JsonValue::Null))).unwrap_err();
    assert_eq!(e.message(), "Check workflow failed: 500 - down");
    let e = WorkflowClient::push_check_result(&reply(200, "", Err("bad json".to_string()))).unwrap_err();
    assert!(matches!(e, ApiError::Decode(_)));
    let r = c.push_request("main", "build.yml", "Zm9v", Some("abc".to_string()));
    assert_eq!(r.method, HttpMethod::Put);
    assert_eq!(r.url, "https://api.github.com/repos/octo/demo/contents/.github/workflows/build.yml");
    match r.body {
        Some(JsonValue::Object(e)) => {
            let keys: Vec<&str> = e.iter().map(|p| p.0.as_str()).collect();
            assert_eq!(keys, vec!["message", "content", "branch", "sha"]);
            assert!(matches!(&e[0].1, JsonValue::Str(v) if v == "chore: add GitHub Actions build workflow"));
        }
        _ => panic!("no payload"),
    }
    let r = c.push_request("main", "build.yml", "Zm9v", None);
    match r.body {
        Some(JsonValue::Object(e)) => assert_eq!(e.len(), 3),
        _ => panic!("no payload"),
    }
    let e = WorkflowClient::push_result(&reply(409, "conflict", Ok(JsonValue::Null))).unwrap_err();
    assert_eq!(e.message(), "Push workflow failed: 409 Conflict - conflict");
}
