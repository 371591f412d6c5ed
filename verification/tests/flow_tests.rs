use wogaer::commands::{
    normalize_token, push_target, ArtifactFetch, BuildRequest, BuildTrigger, FetchAction, FetchEvent,
    TriggerAction, TriggerEvent,
};
use wogaer::download::{batch_next, BatchAction};
use wogaer::git::RepoStatus;
use wogaer::http::{ApiError, HttpMethod, HttpReply};
use wogaer::i18n::{en_strings, zh_strings, I18n};
use wogaer::json::{JsonNumber, JsonValue};
use wogaer::pairs::{find_pair, insert_pair};
use wogaer::text::{is_white_space_char, str_eq, trim_str};
use wogaer::workflow::{PushAction, WorkflowClient};

fn s(v: &str) -> JsonValue {
    JsonValue::Str(v.to_string())
}

fn n(v: i64) -> JsonValue {
    JsonValue::Number(JsonNumber::PosInt(v as u64))
}

fn obj(entries: Vec<(&str, JsonValue)>) -> JsonValue {
    JsonValue::Object(entries.into_iter().map(|(k, v)| (k.to_string(), v)).collect())
}

fn reply(status: u16, text: &str, json: JsonValue) -> HttpReply {
    HttpReply { status, text: text.to_string(), json: Ok(json) }
}

fn client() -> WorkflowClient {
    WorkflowClient::new("tok".to_string(), "octo".to_string(), "demo".to_string())
}

fn request() -> BuildRequest {
    BuildRequest {
        repo_owner: "octo".to_string(),
        repo_name: "demo".to_string(),
        workflow_id: "build.yml".to_string(),
        ref_name: "main".to_string(),
        inputs: obj(vec![("target", s("linux"))]),
        project_path: "/p".to_string(),
    }
}

fn run_listing() -> JsonValue {
    obj(vec![(
        "workflow_runs",
        JsonValue::Array(vec![obj(vec![
            ("id", n(42)),
            ("run_number", n(7)),
            ("status", s("queued")),
            ("created_at", s("2024-05-01T10:00:00Z")),
            ("html_url", s("https://github.com/octo/demo/actions/runs/42")),
        ])]),
    )])
}

fn ok(status: u16) -> TriggerEvent {
    TriggerEvent::Replied(Ok(reply(status, "", JsonValue::Null)))
}

#[test]
fn build_trigger_runs_every_step_in_order() {
    let t = BuildTrigger::new(client(), request(), "windows".to_string());
    let texts = I18n::new("en");
    let mut events: Vec<TriggerEvent> = Vec::new();
    match t.next(&events, &texts) {
        TriggerAction::Send(q) => {
            assert_eq!(q.method, HttpMethod::Get);
            assert_eq!(q.url, "https://api.github.com/repos/octo/demo");
        }
        other => panic!("unexpected {:?}", other),
    }
    events.push(ok(200));
    match t.next(&events, &texts) {
        TriggerAction::Send(q) => {
            assert_eq!(q.method, HttpMethod::Post);
            assert_eq!(q.url, "https://api.github.com/repos/octo/demo/actions/workflows/build.yml/dispatches");
            assert!(q.body.is_some());
        }
        other => panic!("unexpected {:?}", other),
    }
    events.push(ok(204));
    assert!(matches!(t.next(&events, &texts), TriggerAction::Wait(2)));
    events.push(TriggerEvent::Waited);
    match t.next(&events, &texts) {
        TriggerAction::Send(q) => assert_eq!(
            q.url,
            "https://api.github.com/repos/octo/demo/actions/runs?workflow_id=build.yml&per_page=1"
        ),
        other => panic!("unexpected {:?}", other),
    }
    events.push(TriggerEvent::Replied(Ok(reply(200, "", run_listing()))));
    match t.next(&events, &texts) {
        TriggerAction::Store(rec) => {
            assert_eq!(rec.run_id, 42);
            assert_eq!(rec.repo_name, "octo/demo");
            assert_eq!(rec.platform, "windows");
            assert_eq!(rec.trigger_type, "manual");
            assert_eq!(rec.status, "queued");
        }
        other => panic!("unexpected {:?}", other),
    }
    events.push(TriggerEvent::Stored);
    match t.next(&events, &texts) {
        TriggerAction::Finish(Ok(resp)) => {
            assert_eq!(resp.run_id, 42);
            assert_eq!(resp.run_number, 7);
            assert_eq!(resp.html_url, "https://github.com/octo/demo/actions/runs/42");
        }
        other => panic!("unexpected {:?}", other),
    }
}

#[test]
fn build_trigger_stops_at_the_first_failure() {
    let t = BuildTrigger::new(client(), request(), "linux".to_string());
    let texts = I18n::new("en");
    let events = vec![TriggerEvent::Replied(Ok(reply(404, "{}", JsonValue::Null)))];
    match t.next(&events, &texts) {
        TriggerAction::Finish(Err(m)) => {
            assert_eq!(m, "仓库不存在、无访问权限，或仓库为私有且 Token 无权限")
        }
        other => panic!("unexpected {:?}", other),
    }
    let events = vec![ok(200), TriggerEvent::Replied(Err(ApiError::Transport("Failed to dispatch workflow".to_string())))];
    match t.next(&events, &texts) {
        TriggerAction::Finish(Err(m)) => assert_eq!(m, "Failed to dispatch workflow"),
        other => panic!("unexpected {:?}", other),
    }
    let empty = obj(vec![("workflow_runs", JsonValue::Array(vec![]))]);
    let events = vec![ok(200), ok(204), TriggerEvent::Waited, TriggerEvent::Replied(Ok(reply(200, "", empty)))];
    match t.next(&events, &texts) {
        TriggerAction::Finish(Err(m)) => assert_eq!(m, "Build failed"),
        other => panic!("unexpected {:?}", other),
    }
    let events = vec![ok(200), ok(204), TriggerEvent::Waited, TriggerEvent::Replied(Ok(reply(200, "", obj(vec![]))))];
    match t.next(&events, &texts) {
        TriggerAction::Finish(Err(m)) => assert_eq!(m, "Invalid response format"),
        other => panic!("unexpected {:?}", other),
    }
}

#[test]
fn pushing_a_workflow_file_step_by_step() {
    let c = client();
    let none: Vec<Result<HttpReply, ApiError>> = Vec::new();
    match c.push_workflow_file_step("dev", "build.yml", "Zm9v", &none) {
        PushAction::Send(q) => {
            assert_eq!(q.method, HttpMethod::Get);
            assert_eq!(q.url, "https://api.github.com/repos/octo/demo/contents/.github/workflows/build.yml?ref=dev");
        }
        other => panic!("unexpected {:?}", other),
    }
    let absent = vec![Ok(reply(404, "", JsonValue::Null))];
    match c.push_workflow_file_step("dev", "build.yml", "Zm9v", &absent) {
        PushAction::Send(q) => {
            assert_eq!(q.method, HttpMethod::Put);
            match q.body {
                Some(JsonValue::Object(e)) => {
                    let keys: Vec<&str> = e.iter().map(|p| p.0.as_str()).collect();
                    assert_eq!(keys, vec!["message", "content", "branch"]);
                }
                _ => panic!("no payload"),
            }
        }
        other => panic!("unexpected {:?}", other),
    }
    let present = vec![Ok(reply(200, "", obj(vec![("sha", s("abc"))])))];
    match c.push_workflow_file_step("dev", "build.yml", "Zm9v", &present) {
        PushAction::Send(q) => match q.body {
            Some(JsonValue::Object(e)) => {
                assert_eq!(e.len(), 4);
                assert!(matches!(&e[3].1, JsonValue::Str(v) if v == "abc"));
            }
            _ => panic!("no payload"),
        },
        other => panic!("unexpected {:?}", other),
    }
    let failed = vec![Ok(reply(500, "down", JsonValue::Null))];
    match c.push_workflow_file_step("dev", "build.yml", "Zm9v", &failed) {
        PushAction::Finish(Err(m)) => assert_eq!(m, "Check workflow failed: 500 - down"),
        other => panic!("unexpected {:?}", other),
    }
    let done = vec![Ok(reply(404, "", JsonValue::Null)), Ok(reply(201, "", JsonValue::Null))];
    assert!(matches!(c.push_workflow_file_step("dev", "build.yml", "Zm9v", &done), PushAction::Finish(Ok(()))));
    let refused = vec![Ok(reply(404, "", JsonValue::Null)), Ok(reply(409, "conflict", JsonValue::Null))];
    match c.push_workflow_file_step("dev", "build.yml", "Zm9v", &refused) {
        PushAction::Finish(Err(m)) => assert_eq!(m, "Push workflow failed: 409 Conflict - conflict"),
        other => panic!("unexpected {:?}", other),
    }
}

fn artifact_listing() -> JsonValue {
    obj(vec![(
        "artifacts",
        JsonValue::Array(vec![
            obj(vec![("id", n(5)), ("name", s("app-linux"))]),
            obj(vec![("id", n(9)), ("name", s("app-windows"))]),
        ]),
    )])
}

#[test]
fn fetching_artifacts_one_after_another() {
    let f = ArtifactFetch { client: client(), run_id: 77, artifact_ids: vec![9, 5] };
    let mut events: Vec<FetchEvent> = Vec::new();
    match f.next(&events) {
        FetchAction::Send(q) => assert_eq!(q.url, "https://api.github.com/repos/octo/demo/actions/runs/77/artifacts"),
        other => panic!("unexpected {:?}", other),
    }
    events.push(FetchEvent::Replied(Ok(reply(200, "", artifact_listing()))));
    match f.next(&events) {
        FetchAction::Download { artifact_id, url, file_name } => {
            assert_eq!(artifact_id, 9);
            assert_eq!(url, "https://api.github.com/repos/octo/demo/actions/artifacts/9/zip");
            assert_eq!(file_name, "app-windows.zip");
        }
        other => panic!("unexpected {:?}", other),
    }
    events.push(FetchEvent::Downloaded(Ok(())));
    assert!(matches!(f.next(&events), FetchAction::Send(_)));
    events.push(FetchEvent::Replied(Ok(reply(200, "", artifact_listing()))));
    match f.next(&events) {
        FetchAction::Download { artifact_id, file_name, .. } => {
            assert_eq!(artifact_id, 5);
            assert_eq!(file_name, "app-linux.zip");
        }
        other => panic!("unexpected {:?}", other),
    }
    events.push(FetchEvent::Downloaded(Ok(())));
    match f.next(&events) {
        FetchAction::Finish(Ok(names)) => assert_eq!(names, vec!["app-windows.zip", "app-linux.zip"]),
        other => panic!("unexpected {:?}", other),
    }
}

#[test]
fn fetching_artifacts_stops_at_a_failure() {
    let f = ArtifactFetch { client: client(), run_id: 77, artifact_ids: vec![3] };
    let events = vec![FetchEvent::Replied(Ok(reply(200, "", artifact_listing())))];
    match f.next(&events) {
        FetchAction::Finish(Err(m)) => assert_eq!(m, "找不到产物 ID: 3"),
        other => panic!("unexpected {:?}", other),
    }
    let f = ArtifactFetch { client: client(), run_id: 77, artifact_ids: vec![5, 9] };
    let events = vec![
        FetchEvent::Replied(Ok(reply(200, "", artifact_listing()))),
        FetchEvent::Downloaded(Err("Download failed: 410 Gone - gone".to_string())),
    ];
    match f.next(&events) {
        FetchAction::Finish(Err(m)) => assert_eq!(m, "Download failed: 410 Gone - gone"),
        other => panic!("unexpected {:?}", other),
    }
    let f = ArtifactFetch { client: client(), run_id: 77, artifact_ids: vec![] };
    assert!(matches!(f.next(&Vec::new()), FetchAction::Finish(Ok(ref v)) if v.is_empty()));
}

#[test]
fn batches_of_downloads() {
    assert_eq!(batch_next(2, &vec![]), BatchAction::Download(0));
    assert_eq!(batch_next(2, &vec![Ok("a.zip".to_string())]), BatchAction::Download(1));
    assert_eq!(
        batch_next(2, &vec![Ok("a.zip".to_string()), Ok("b.zip".to_string())]),
        BatchAction::Finish(Ok(vec!["a.zip".to_string(), "b.zip".to_string()]))
    );
    assert_eq!(
        batch_next(3, &vec![Ok("a.zip".to_string()), Err("HTTP error: 500".to_string())]),
        BatchAction::Finish(Err("HTTP error: 500".to_string()))
    );
    assert_eq!(batch_next(0, &vec![]), BatchAction::Finish(Ok(vec![])));
}

#[test]
fn pairs_replace_and_find() {
    let mut p: Vec<(String, String)> = Vec::new();
    insert_pair(&mut p, "a".to_string(), "1".to_string());
    insert_pair(&mut p, "b".to_string(), "2".to_string());
    insert_pair(&mut p, "a".to_string(), "3".to_string());
    assert_eq!(p.len(), 2);
    assert_eq!(find_pair(&p, "a").map(|v| v.as_str()), Some("3"));
    assert_eq!(find_pair(&p, "b").map(|v| v.as_str()), Some("2"));
    assert_eq!(find_pair(&p, "c"), None);
}

#[test]
fn text_tables_have_no_repeated_key() {
    for table in [zh_strings(), en_strings()] {
        for i in 0..table.len() {
            for j in (i + 1)..table.len() {
                assert_ne!(table[i].0, table[j].0);
            }
        }
    }
}

#[test]
fn trimming_like_std() {
    for t in ["  x  ", "\u{3000}\t", "\u{200B}x", "\n\r a b \u{85}", "", "\u{2028}y\u{a0}"] {
        assert_eq!(trim_str(t), t.trim(), "input {:?}", t);
    }
    for c in ['\u{20}', '\u{3000}', '\u{85}', '\u{200B}', 'a', '\u{feff}', '\u{1680}'] {
        assert_eq!(is_white_space_char(c), c.is_whitespace(), "char {:?}", c);
    }
    assert_eq!(normalize_token("\u{3000}\t"), None);
    assert_eq!(normalize_token(" \u{200B}x ").as_deref(), Some("\u{200B}x"));
}

#[test]
fn blank_branch_falls_back_to_main() {
    let status = RepoStatus {
        is_repo: true,
        has_remote: true,
        remote_url: Some("https://github.com/octo/demo.git".to_string()),
        current_branch: Some(" \u{3000} ".to_string()),
        is_clean: true,
    };
    let t = push_target(&status).unwrap();
    assert_eq!(t.branch, "main");
}

#[test]
fn string_equality() {
    assert!(str_eq("abc", "abc"));
    assert!(!str_eq("abc", "abd"));
    assert!(!str_eq("ab", "abc"));
    assert!(str_eq("", ""));
    assert!(str_eq("构建", "构建"));
}
