//! The decisions behind the application's commands: project analysis,
//! login tokens, triggering builds and explaining why they fail, the device
//! login flow, artifact downloads and workflow pushes.
use vstd::prelude::*;
use crate::git::{opt_string_view, parse_remote, remote_parts, RepoStatus};
use crate::http::{
    error_message, is_success, status_display, status_failure, status_text, ApiError,
    HttpMethod, HttpReply, HttpRequest,
};
use crate::json::{
    as_array, as_str, field, i64_or, lemma_lookup_first, str_or, u64_or, JsonNumber, JsonValue,
};
use crate::i18n::{shown_text, I18n};
use crate::pairs::{keys_distinct, pair_value, pairs_map};
use crate::records::{repo_label, repo_label_spec, BuildRecord};
use crate::text::{
    contains_seq, contains_str, dec_int, dec_nat, i64_to_decimal, is_white_space, trim_str, trimmed,
    trimmed_empty_iff_blank,
};
use crate::workflow::{
    artifact_zip_url, api_call, base_url_of, dispatch_payload, is_text, run_read_from, runs_url, Artifact,
    WorkflowClient,
    WorkflowDispatchOptions, WorkflowRun,
};

verus! {

/// What the application learns about a project folder.
#[derive(Debug, Clone)]
pub struct ProjectAnalysis {
    pub is_git_repo: bool,
    pub has_remote: bool,
    pub remote_url: Option<String>,
    pub repo_owner: Option<String>,
    pub repo_name: Option<String>,
    pub current_branch: Option<String>,
    pub is_clean: bool,
    pub languages: Vec<String>,
    pub path: String,
}

/// Combines the git status, the detected languages and the folder into the
/// analysis; owner and name come from the origin address.
pub fn project_analysis(status: RepoStatus, languages: Vec<String>, path: String) -> (r:
    ProjectAnalysis)
    ensures
        r.is_git_repo == status.is_repo,
        r.has_remote == status.has_remote,
        r.remote_url == status.remote_url,
        r.current_branch == status.current_branch,
        r.is_clean == status.is_clean,
        r.languages == languages,
        r.path == path,
        match status.remote_url {
            Some(u) => (opt_string_view(r.repo_owner), opt_string_view(r.repo_name)) == remote_parts(
                u@,
            ),
            None => r.repo_owner is None && r.repo_name is None,
        },
{
    let (repo_owner, repo_name) = match &status.remote_url {
        Some(u) => parse_remote(u.as_str()),
        None => (None, None),
    };
    ProjectAnalysis {
        is_git_repo: status.is_repo,
        has_remote: status.has_remote,
        remote_url: status.remote_url,
        repo_owner,
        repo_name,
        current_branch: status.current_branch,
        is_clean: status.is_clean,
        languages,
        path,
    }
}

/// The token to keep after the user enters `token`: none when it is blank,
/// otherwise the token without surrounding white space.
pub fn normalize_token(token: &str) -> (r: Option<String>)
    ensures
        opt_string_view(r) == if trimmed(token@).len() == 0 {
            None
        } else {
            Some(trimmed(token@))
        },
{
    let t = trim_str(token);
    if t.unicode_len() == 0 {
        None
    } else {
        Some(t.to_string())
    }
}

/// The token of the logged-in user, or the "not logged in" text.
pub fn logged_in_token(token: &Option<String>, texts: &I18n) -> (r: Result<String, String>)
    ensures
        match token {
            Some(t) => r matches Ok(x) && x@ == t@,
            None => r matches Err(m) && m@ == shown_text(pairs_map(texts.strings@), "not_logged_in"@),
        },
{
    match token {
        Some(t) => Ok(t.clone()),
        None => Err(texts.get("not_logged_in")),
    }
}

/// The run that a build trigger reports: the newest listed one, or the
/// "build failed" text when the listing is empty.
pub fn triggered_run(runs: Vec<WorkflowRun>, texts: &I18n) -> (r: Result<WorkflowRun, String>)
    ensures
        runs@.len() > 0 ==> r == Ok::<WorkflowRun, String>(runs@[0]),
        runs@.len() == 0 ==> (r matches Err(m) && m@ == shown_text(
            pairs_map(texts.strings@),
            "build_failed"@,
        )),
{
    let mut runs = runs;
    if runs.len() > 0 {
        Ok(runs.remove(0))
    } else {
        Err(texts.get("build_failed"))
    }
}

/// A request to trigger a build.
#[derive(Debug)]
pub struct BuildRequest {
    pub repo_owner: String,
    pub repo_name: String,
    pub workflow_id: String,
    pub ref_name: String,
    pub inputs: JsonValue,
    pub project_path: String,
}

/// The value that input `k` gets from the members of an inputs object:
/// the last member named `k` whose value is a string.
pub open spec fn string_member(entries: Seq<(String, JsonValue)>, k: Seq<char>) -> Option<Seq<char>>
    decreases entries.len(),
{
    if entries.len() == 0 {
        None
    } else {
        match entries.last().1 {
            JsonValue::Str(v) => if entries.last().0@ == k {
                Some(v@)
            } else {
                string_member(entries.drop_last(), k)
            },
            _ => string_member(entries.drop_last(), k),
        }
    }
}

/// The inputs that the request's JSON gives: its string-valued members
/// when it is an object, no inputs otherwise.
pub open spec fn request_input(inputs: JsonValue, k: Seq<char>) -> Option<Seq<char>> {
    match inputs {
        JsonValue::Object(entries) => string_member(entries@, k),
        _ => None,
    }
}

/// The dispatch options of a build request: its branch, and its
/// string-valued inputs.
pub fn dispatch_options(request: &BuildRequest) -> (r: WorkflowDispatchOptions)
    ensures
        r.ref_name@ == request.ref_name@,
        keys_distinct(r.inputs@),
        forall|k: Seq<char>| #[trigger] pair_value(r.inputs@, k) == request_input(request.inputs, k),
{
    let mut options = WorkflowDispatchOptions::new(request.ref_name.clone());
    match &request.inputs {
        JsonValue::Object(entries) => {
            let mut i: usize = 0;
            while i < entries.len()
                invariant
                    request.inputs == JsonValue::Object(*entries),
                    i <= entries@.len(),
                    options.ref_name@ == request.ref_name@,
                    keys_distinct(options.inputs@),
                    forall|k: Seq<char>| #[trigger]
                        pair_value(options.inputs@, k) == string_member(entries@.take(i as int), k),
                decreases entries@.len() - i,
            {
                assert(entries@.take(i + 1).drop_last() =~= entries@.take(i as int));
                assert(entries@.take(i + 1).last() == entries@[i as int]);
                match &entries[i].1 {
                    JsonValue::Str(v) => {
                        options.set_input(entries[i].0.clone(), v.clone());
                    },
                    _ => {},
                }
                i = i + 1;
            }
            assert(entries@.take(entries@.len() as int) =~= entries@);
        },
        _ => {
            assert forall|k: Seq<char>| #[trigger]
                pair_value(options.inputs@, k) == request_input(request.inputs, k) by {
                assert(options.inputs@.len() == 0);
            }
        },
    }
    options
}

/// The explanation of a failed repository check.
pub open spec fn repo_access_message_spec(msg: Seq<char>) -> Seq<char> {
    if contains_seq(msg, "404"@) {
        "仓库不存在、无访问权限，或仓库为私有且 Token 无权限"@
    } else if contains_seq(msg, "403"@) {
        "Token 权限不足，请确保勾选了 workflow 权限"@
    } else {
        msg
    }
}

/// The explanation of a failed dispatch.
pub open spec fn dispatch_message_spec(msg: Seq<char>) -> Seq<char> {
    if contains_seq(msg, "404"@) {
        "workflow 文件不存在，请先生成 workflow 并推送到仓库"@
    } else if contains_seq(msg, "422"@) {
        "触发参数无效，请检查分支名或 inputs"@
    } else if contains_seq(msg, "403"@) {
        "Token 权限不足，请确保勾选了 workflow 权限"@
    } else {
        msg
    }
}

/// Explains a failed repository check by the status it mentions.
pub fn repo_access_message(msg: &str) -> (r: String)
    ensures
        r@ == repo_access_message_spec(msg@),
{
    if contains_str(msg, "404") {
        "仓库不存在、无访问权限，或仓库为私有且 Token 无权限".to_string()
    } else if contains_str(msg, "403") {
        "Token 权限不足，请确保勾选了 workflow 权限".to_string()
    } else {
        msg.to_string()
    }
}

/// Explains a failed dispatch by the status it mentions.
pub fn dispatch_message(msg: &str) -> (r: String)
    ensures
        r@ == dispatch_message_spec(msg@),
{
    if contains_str(msg, "404") {
        "workflow 文件不存在，请先生成 workflow 并推送到仓库".to_string()
    } else if contains_str(msg, "422") {
        "触发参数无效，请检查分支名或 inputs".to_string()
    } else if contains_str(msg, "403") {
        "Token 权限不足，请确保勾选了 workflow 权限".to_string()
    } else {
        msg.to_string()
    }
}

/// The message of an API failure: a transport error, or the reply's error.
pub open spec fn failure_message(prefix: Seq<char>, outcome: Result<HttpReply, ApiError>) -> Seq<char> {
    match outcome {
        Err(e) => error_message(e@),
        Ok(reply) => status_failure(prefix, reply.status, reply.text@),
    }
}

proof fn lemma_status_message_mentions_code(prefix: Seq<char>, reply: HttpReply, code: Seq<char>)
    requires
        code == dec_nat(reply.status as nat),
        crate::http::shows_code(reply.status),
    ensures
        contains_seq(status_failure(prefix, reply.status, reply.text@), code),
{
    let m = status_failure(prefix, reply.status, reply.text@);
    let at: int = prefix.len() + 2int;
    let sd = status_display(reply.status);
    assert(m == prefix + ": "@ + sd + " - "@ + reply.text@);
    reveal_strlit(": ");
    assert(sd.len() >= code.len() + 1);
    assert forall|j: int| 0 <= j < code.len() implies m.subrange(at, at + code.len() as int)[j] == code[j] by {
        assert(m[at + j] == sd[j]);
        assert(sd.take(code.len() + 1int)[j] == code.push(' ')[j]);
    }
    assert(m.subrange(at, at + code.len() as int) =~= code);
}

/// The verdict on the repository check before a dispatch: success, or the
/// explanation of the failure.
pub fn repo_check_verdict(outcome: &Result<HttpReply, ApiError>) -> (r: Result<(), String>)
    requires
        outcome matches Ok(reply) ==> reply.wf(),
    ensures
        match outcome {
            Ok(reply) if is_success(reply.status) => r is Ok,
            _ => r matches Err(m) && m@ == repo_access_message_spec(
                failure_message("Repo check failed"@, *outcome),
            ),
        },
        outcome matches Ok(reply) && reply.status == 404 ==> (r matches Err(m) && m@
            == "仓库不存在、无访问权限，或仓库为私有且 Token 无权限"@),
{
    match outcome {
        Err(e) => Err(repo_access_message(e.message().as_str())),
        Ok(reply) => match WorkflowClient::validate_repo_access_result(reply) {
            Ok(()) => Ok(()),
            Err(e) => {
                proof {
                    if reply.status == 404 {
                        reveal_strlit("404");
                        reveal_with_fuel(dec_nat, 3);
                        assert(dec_nat(404) =~= "404"@);
                        lemma_status_message_mentions_code("Repo check failed"@, *reply, "404"@);
                    }
                }
                Err(repo_access_message(e.message().as_str()))
            },
        },
    }
}

/// The verdict on a dispatch: success, or the explanation of the failure.
pub fn dispatch_verdict(outcome: &Result<HttpReply, ApiError>) -> (r: Result<(), String>)
    requires
        outcome matches Ok(reply) ==> reply.wf(),
    ensures
        match outcome {
            Ok(reply) if is_success(reply.status) => r is Ok,
            _ => r matches Err(m) && m@ == dispatch_message_spec(
                failure_message("Dispatch failed"@, *outcome),
            ),
        },
        outcome matches Ok(reply) && reply.status == 404 ==> (r matches Err(m) && m@
            == "workflow 文件不存在，请先生成 workflow 并推送到仓库"@),
{
    match outcome {
        Err(e) => Err(dispatch_message(e.message().as_str())),
        Ok(reply) => match WorkflowClient::dispatch_workflow_result(reply) {
            Ok(()) => Ok(()),
            Err(e) => {
                proof {
                    if reply.status == 404 {
                        reveal_strlit("404");
                        reveal_with_fuel(dec_nat, 3);
                        assert(dec_nat(404) =~= "404"@);
                        lemma_status_message_mentions_code("Dispatch failed"@, *reply, "404"@);
                    }
                }
                Err(dispatch_message(e.message().as_str()))
            },
        },
    }
}

/// The history record of a triggered run.
pub fn build_record(request: &BuildRequest, run: &WorkflowRun, platform: &str) -> (r: BuildRecord)
    ensures
        r.id == 0,
        r.run_id == run.id,
        r.repo_name@ == repo_label_spec(request.repo_owner@, request.repo_name@),
        r.workflow_id@ == request.workflow_id@,
        r.status@ == run.status@,
        r.created_at@ == run.created_at@,
        r.artifact_url is None,
        r.trigger_type@ == "manual"@,
        r.platform@ == platform@,
{
    BuildRecord {
        id: 0,
        run_id: run.id,
        repo_name: repo_label(request.repo_owner.as_str(), request.repo_name.as_str()),
        workflow_id: request.workflow_id.clone(),
        status: run.status.clone(),
        created_at: run.created_at.clone(),
        artifact_url: None,
        trigger_type: "manual".to_string(),
        platform: platform.to_string(),
    }
}

/// What a triggered build reports.
#[derive(Debug, Clone)]
pub struct BuildResponse {
    pub run_id: i64,
    pub run_number: i64,
    pub status: String,
    pub html_url: String,
}

/// The report of a triggered run.
pub fn build_response(run: &WorkflowRun) -> (r: BuildResponse)
    ensures
        r.run_id == run.id,
        r.run_number == run.run_number,
        r.status@ == run.status@,
        r.html_url@ == run.html_url@,
{
    BuildResponse {
        run_id: run.id,
        run_number: run.run_number,
        status: run.status.clone(),
        html_url: run.html_url.clone(),
    }
}

/// A page of the build history and the number of records in all.
#[derive(Debug, Clone)]
pub struct HistoryResponse {
    pub records: Vec<BuildRecord>,
    pub total: i64,
}

/// A request to download some artifacts of a run.
#[derive(Debug, Clone)]
pub struct DownloadRequest {
    pub artifact_ids: Vec<i64>,
    pub dest_dir: String,
    pub run_id: i64,
    pub repo_owner: String,
    pub repo_name: String,
}

/// A JSON number for an `i64`.
pub open spec fn int_json(n: i64) -> JsonValue {
    if n >= 0 {
        JsonValue::Number(JsonNumber::PosInt(n as u64))
    } else {
        JsonValue::Number(JsonNumber::NegInt(n))
    }
}

fn int_value(n: i64) -> (r: JsonValue)
    ensures
        r == int_json(n),
{
    if n >= 0 {
        JsonValue::Number(JsonNumber::PosInt(n as u64))
    } else {
        JsonValue::Number(JsonNumber::NegInt(n))
    }
}

/// `v` is the JSON string `s`, or null when there is none.
pub open spec fn is_opt_text(v: JsonValue, s: Option<Seq<char>>) -> bool {
    match s {
        Some(t) => is_text(v, t),
        None => v matches JsonValue::Null,
    }
}

/// The status summary of a run: id, status, conclusion, last update, page.
pub open spec fn run_summary(r: JsonValue, run: WorkflowRun) -> bool {
    r matches JsonValue::Object(e) && e@.len() == 5 && e@[0].0@ == "id"@ && e@[0].1 == int_json(run.id)
        && e@[1].0@ == "status"@ && is_text(e@[1].1, run.status@) && e@[2].0@ == "conclusion"@
        && is_opt_text(e@[2].1, opt_string_view(run.conclusion)) && e@[3].0@ == "updated_at"@
        && is_text(e@[3].1, run.updated_at@) && e@[4].0@ == "html_url"@ && is_text(
        e@[4].1,
        run.html_url@,
    )
}

/// A run's status summary reports that run: its members read back as the
/// run's id, status, conclusion (absent when there is none), last update
/// and page address.
pub proof fn run_summary_reads_back(r: JsonValue, run: WorkflowRun)
    requires
        run_summary(r, run),
    ensures
        i64_or(r, "id"@, 0) == run.id,
        as_str(field(r, "status"@)) == Some(run.status@),
        as_str(field(r, "conclusion"@)) == opt_string_view(run.conclusion),
        as_str(field(r, "updated_at"@)) == Some(run.updated_at@),
        as_str(field(r, "html_url"@)) == Some(run.html_url@),
{
    reveal_strlit("id");
    reveal_strlit("status");
    reveal_strlit("conclusion");
    reveal_strlit("updated_at");
    reveal_strlit("html_url");
    assert("id"@.len() == 2 && "status"@.len() == 6 && "conclusion"@.len() == 10);
    assert("updated_at"@.len() == 10 && "html_url"@.len() == 8 && "conclusion"@[0] != "updated_at"@[0]);
    let e = r->Object_0@;
    lemma_lookup_first(e, "id"@, 0);
    lemma_lookup_first(e, "status"@, 1);
    lemma_lookup_first(e, "conclusion"@, 2);
    lemma_lookup_first(e, "updated_at"@, 3);
    lemma_lookup_first(e, "html_url"@, 4);
}

/// Summarizes a run's status.
pub fn run_status_summary(run: &WorkflowRun) -> (r: JsonValue)
    ensures
        run_summary(r, *run),
        i64_or(r, "id"@, 0) == run.id,
        as_str(field(r, "status"@)) == Some(run.status@),
        as_str(field(r, "conclusion"@)) == opt_string_view(run.conclusion),
        as_str(field(r, "updated_at"@)) == Some(run.updated_at@),
        as_str(field(r, "html_url"@)) == Some(run.html_url@),
{
    let mut e: Vec<(String, JsonValue)> = Vec::new();
    e.push(("id".to_string(), int_value(run.id)));
    e.push(("status".to_string(), JsonValue::Str(run.status.clone())));
    let conclusion = match &run.conclusion {
        Some(c) => JsonValue::Str(c.clone()),
        None => JsonValue::Null,
    };
    e.push(("conclusion".to_string(), conclusion));
    e.push(("updated_at".to_string(), JsonValue::Str(run.updated_at.clone())));
    e.push(("html_url".to_string(), JsonValue::Str(run.html_url.clone())));
    let r = JsonValue::Object(e);
    proof {
        run_summary_reads_back(r, *run);
    }
    r
}

/// The listing entry of an artifact: id, name, size, creation time, link.
pub open spec fn artifact_summary_spec(r: JsonValue, a: Artifact) -> bool {
    r matches JsonValue::Object(e) && e@.len() == 5 && e@[0].0@ == "id"@ && e@[0].1 == int_json(a.id)
        && e@[1].0@ == "name"@ && is_text(e@[1].1, a.name@) && e@[2].0@ == "size"@ && e@[2].1
        == int_json(a.size_in_bytes) && e@[3].0@ == "created_at"@ && is_text(e@[3].1, a.created_at@)
        && e@[4].0@ == "download_url"@ && is_text(e@[4].1, a.download_url@)
}

/// An artifact's listing entry reports that artifact: its members read
/// back as the artifact's id, name, size, creation time and download
/// address.
pub proof fn artifact_entry_reads_back(r: JsonValue, a: Artifact)
    requires
        artifact_summary_spec(r, a),
    ensures
        i64_or(r, "id"@, 0) == a.id,
        as_str(field(r, "name"@)) == Some(a.name@),
        i64_or(r, "size"@, 0) == a.size_in_bytes,
        as_str(field(r, "created_at"@)) == Some(a.created_at@),
        as_str(field(r, "download_url"@)) == Some(a.download_url@),
{
    reveal_strlit("id");
    reveal_strlit("name");
    reveal_strlit("size");
    reveal_strlit("created_at");
    reveal_strlit("download_url");
    assert("id"@.len() == 2 && "name"@.len() == 4 && "size"@.len() == 4 && "name"@[0] != "size"@[0]);
    assert("created_at"@.len() == 10 && "download_url"@.len() == 12);
    let e = r->Object_0@;
    lemma_lookup_first(e, "id"@, 0);
    lemma_lookup_first(e, "name"@, 1);
    lemma_lookup_first(e, "size"@, 2);
    lemma_lookup_first(e, "created_at"@, 3);
    lemma_lookup_first(e, "download_url"@, 4);
}

/// The status poll of a build reports what the API said of the run: read
/// from the API object `v` and summarized, the run's id, status,
/// conclusion, last update and page address are those of `v`.
pub proof fn status_poll_reports_the_api_run(v: JsonValue, run: WorkflowRun, summary: JsonValue)
    requires
        run_read_from(run, v),
        run_summary(summary, run),
    ensures
        i64_or(summary, "id"@, 0) == i64_or(v, "id"@, 0),
        str_or(summary, "status"@, ""@) == str_or(v, "status"@, ""@),
        as_str(field(summary, "conclusion"@)) == as_str(field(v, "conclusion"@)),
        str_or(summary, "updated_at"@, ""@) == str_or(v, "updated_at"@, ""@),
        str_or(summary, "html_url"@, ""@) == str_or(v, "html_url"@, ""@),
{
    run_summary_reads_back(summary, run);
}

/// Summarizes an artifact for the listing.
pub fn artifact_summary(a: &Artifact) -> (r: JsonValue)
    ensures
        artifact_summary_spec(r, *a),
        i64_or(r, "id"@, 0) == a.id,
        as_str(field(r, "name"@)) == Some(a.name@),
        i64_or(r, "size"@, 0) == a.size_in_bytes,
        as_str(field(r, "created_at"@)) == Some(a.created_at@),
        as_str(field(r, "download_url"@)) == Some(a.download_url@),
{
    let mut e: Vec<(String, JsonValue)> = Vec::new();
    e.push(("id".to_string(), int_value(a.id)));
    e.push(("name".to_string(), JsonValue::Str(a.name.clone())));
    e.push(("size".to_string(), int_value(a.size_in_bytes)));
    e.push(("created_at".to_string(), JsonValue::Str(a.created_at.clone())));
    e.push(("download_url".to_string(), JsonValue::Str(a.download_url.clone())));
    let r = JsonValue::Object(e);
    proof {
        artifact_entry_reads_back(r, *a);
    }
    r
}

/// The message for an artifact id that the run does not have.
pub open spec fn missing_artifact_message(id: i64) -> Seq<char> {
    "找不到产物 ID: "@ + dec_int(id as int)
}

/// The position of the first artifact with id `id`.
pub fn find_artifact(artifacts: &Vec<Artifact>, id: i64) -> (r: Result<usize, String>)
    ensures
        match r {
            Ok(i) => i < artifacts@.len() && artifacts@[i as int].id == id && forall|j: int|
                0 <= j < i ==> #[trigger] artifacts@[j].id != id,
            Err(m) => m@ == missing_artifact_message(id) && forall|j: int|
                0 <= j < artifacts@.len() ==> #[trigger] artifacts@[j].id != id,
        },
{
    let mut i: usize = 0;
    while i < artifacts.len()
        invariant
            i <= artifacts@.len(),
            forall|j: int| 0 <= j < i ==> #[trigger] artifacts@[j].id != id,
        decreases artifacts@.len() - i,
    {
        if artifacts[i].id == id {
            return Ok(i);
        }
        i = i + 1;
    }
    let mut m = "找不到产物 ID: ".to_string();
    let n = i64_to_decimal(id);
    m.append(n.as_str());
    Err(m)
}

/// The file an artifact is saved as: its name with `.zip`.
pub fn artifact_file_name(name: &str) -> (r: String)
    ensures
        r@ == name@ + ".zip"@,
{
    let mut s = name.to_string();
    s.append(".zip");
    s
}

/// The device code answer: codes, where to enter them, and how often and
/// how long to poll, with GitHub's defaults when a member is missing.
pub open spec fn device_code_spec(r: JsonValue, data: JsonValue) -> bool {
    r matches JsonValue::Object(e) && e@.len() == 5 && e@[0].0@ == "device_code"@ && is_text(
        e@[0].1,
        str_or(data, "device_code"@, ""@),
    ) && e@[1].0@ == "user_code"@ && is_text(e@[1].1, str_or(data, "user_code"@, ""@)) && e@[2].0@
        == "verification_uri"@ && is_text(
        e@[2].1,
        str_or(data, "verification_uri"@, "https://github.com/login/device"@),
    ) && e@[3].0@ == "interval"@ && e@[3].1 == JsonValue::Number(
        JsonNumber::PosInt(u64_or(data, "interval"@, 5)),
    ) && e@[4].0@ == "expires_in"@ && e@[4].1 == JsonValue::Number(
        JsonNumber::PosInt(u64_or(data, "expires_in"@, 900)),
    )
}

/// The device code summary hands on the answer's members: each reads back
/// as the same member of the answer, or as GitHub's default when the answer
/// lacks it.
pub proof fn device_code_reads_back(r: JsonValue, data: JsonValue)
    requires
        device_code_spec(r, data),
    ensures
        as_str(field(r, "device_code"@)) == Some(str_or(data, "device_code"@, ""@)),
        as_str(field(r, "user_code"@)) == Some(str_or(data, "user_code"@, ""@)),
        as_str(field(r, "verification_uri"@)) == Some(
            str_or(data, "verification_uri"@, "https://github.com/login/device"@),
        ),
        u64_or(r, "interval"@, 0) == u64_or(data, "interval"@, 5),
        u64_or(r, "expires_in"@, 0) == u64_or(data, "expires_in"@, 900),
{
    reveal_strlit("device_code");
    reveal_strlit("user_code");
    reveal_strlit("verification_uri");
    reveal_strlit("interval");
    reveal_strlit("expires_in");
    assert("device_code"@.len() == 11 && "user_code"@.len() == 9 && "verification_uri"@.len() == 16);
    assert("interval"@.len() == 8 && "expires_in"@.len() == 10);
    let e = r->Object_0@;
    lemma_lookup_first(e, "device_code"@, 0);
    lemma_lookup_first(e, "user_code"@, 1);
    lemma_lookup_first(e, "verification_uri"@, 2);
    lemma_lookup_first(e, "interval"@, 3);
    lemma_lookup_first(e, "expires_in"@, 4);
}

/// Reads the answer to a device code request.
pub fn device_code_summary(data: &JsonValue) -> (r: JsonValue)
    ensures
        device_code_spec(r, *data),
{
    let mut e: Vec<(String, JsonValue)> = Vec::new();
    e.push(("device_code".to_string(), JsonValue::Str(data.str_field_or("device_code", ""))));
    e.push(("user_code".to_string(), JsonValue::Str(data.str_field_or("user_code", ""))));
    e.push(
        (
            "verification_uri".to_string(),
            JsonValue::Str(data.str_field_or("verification_uri", "https://github.com/login/device")),
        ),
    );
    e.push(
        (
            "interval".to_string(),
            JsonValue::Number(JsonNumber::PosInt(data.u64_field_or("interval", 5))),
        ),
    );
    e.push(
        (
            "expires_in".to_string(),
            JsonValue::Number(JsonNumber::PosInt(data.u64_field_or("expires_in", 900))),
        ),
    );
    JsonValue::Object(e)
}

/// The message for a refused device code request.
pub fn device_code_failure(reply: &HttpReply) -> (r: String)
    requires
        reply.wf(),
    ensures
        r@ == "设备码请求失败: "@ + status_display(reply.status) + " - "@ + reply.text@,
{
    let mut m = "设备码请求失败: ".to_string();
    let st = status_text(reply.status);
    m.append(st.as_str());
    m.append(" - ");
    m.append(reply.text.as_str());
    m
}

/// Reads the reply to a device code request: the summary of a successful
/// answer, otherwise the failure message, or the reader's message when the
/// answer is not JSON.
pub fn device_code_result(reply: &HttpReply) -> (r: Result<JsonValue, String>)
    requires
        reply.wf(),
    ensures
        !is_success(reply.status) ==> (r matches Err(m) && m@ == "设备码请求失败: "@ + status_display(
            reply.status,
        ) + " - "@ + reply.text@),
        is_success(reply.status) ==> match reply.json {
            Err(m) => r matches Err(x) && x@ == m@,
            Ok(data) => r matches Ok(v) && device_code_spec(v, data),
        },
{
    if !(200 <= reply.status && reply.status <= 299) {
        return Err(device_code_failure(reply));
    }
    match &reply.json {
        Err(m) => Err(m.clone()),
        Ok(data) => Ok(device_code_summary(data)),
    }
}

/// The state that a device-flow error code reports.
pub open spec fn poll_state(error: Seq<char>) -> Seq<char> {
    if error == "authorization_pending"@ {
        "pending"@
    } else if error == "slow_down"@ {
        "slow_down"@
    } else if error == "expired_token"@ {
        "expired"@
    } else if error == "access_denied"@ {
        "denied"@
    } else {
        "error"@
    }
}

/// The answer to a device-flow poll: the token once it is granted,
/// otherwise the state, the polling interval and the error code.
pub open spec fn device_poll_spec(r: JsonValue, data: JsonValue) -> bool {
    match field(data, "access_token"@) {
        Some(JsonValue::Str(t)) => r matches JsonValue::Object(e) && e@.len() == 2 && e@[0].0@
            == "status"@ && is_text(e@[0].1, "ok"@) && e@[1].0@ == "token"@ && is_text(e@[1].1, t@),
        _ => {
            let error = str_or(data, "error"@, "unknown_error"@);
            r matches JsonValue::Object(e) && e@.len() == 3 && e@[0].0@ == "status"@ && is_text(
                e@[0].1,
                poll_state(error),
            ) && e@[1].0@ == "interval"@ && e@[1].1 == JsonValue::Number(
                JsonNumber::PosInt(u64_or(data, "interval"@, 5)),
            ) && e@[2].0@ == "error"@ && is_text(e@[2].1, error)
        },
    }
}

/// A device-flow poll hands over the granted token, and only that: when the
/// answer carries an access token the summary reads back status `ok` and
/// that token; otherwise it has no token, and its status and error read
/// back from the answer's error code.
pub proof fn device_poll_reads_back(r: JsonValue, data: JsonValue)
    requires
        device_poll_spec(r, data),
    ensures
        as_str(field(r, "token"@)) == as_str(field(data, "access_token"@)),
        as_str(field(data, "access_token"@)) is Some ==> str_or(r, "status"@, ""@) == "ok"@,
        as_str(field(data, "access_token"@)) is None ==> {
            &&& str_or(r, "error"@, ""@) == str_or(data, "error"@, "unknown_error"@)
            &&& str_or(r, "status"@, ""@) == poll_state(str_or(data, "error"@, "unknown_error"@))
            &&& u64_or(r, "interval"@, 0) == u64_or(data, "interval"@, 5)
        },
{
    reveal_strlit("status");
    reveal_strlit("token");
    reveal_strlit("interval");
    reveal_strlit("error");
    assert("status"@.len() == 6 && "token"@.len() == 5 && "interval"@.len() == 8 && "error"@.len() == 5);
    assert("token"@[0] != "error"@[0]);
    let e = r->Object_0@;
    lemma_lookup_first(e, "status"@, 0);
    if as_str(field(data, "access_token"@)) is Some {
        lemma_lookup_first(e, "token"@, 1);
    } else {
        lemma_lookup_first(e, "interval"@, 1);
        lemma_lookup_first(e, "error"@, 2);
        crate::json::lemma_lookup_absent(e, "token"@);
    }
}

/// Reads the answer to a device-flow poll.
pub fn device_poll_summary(data: &JsonValue) -> (r: JsonValue)
    ensures
        device_poll_spec(r, *data),
{
    match data.str_field("access_token") {
        Some(token) => {
            let mut e: Vec<(String, JsonValue)> = Vec::new();
            e.push(("status".to_string(), JsonValue::Str("ok".to_string())));
            e.push(("token".to_string(), JsonValue::Str(token.to_string())));
            JsonValue::Object(e)
        },
        None => {
            let error = data.str_field_or("error", "unknown_error");
            let interval: u64 = data.u64_field_or("interval", 5);
            let e_str = error.as_str();
            let status = if crate::text::str_eq(e_str, "authorization_pending") {
                "pending"
            } else if crate::text::str_eq(e_str, "slow_down") {
                "slow_down"
            } else if crate::text::str_eq(e_str, "expired_token") {
                "expired"
            } else if crate::text::str_eq(e_str, "access_denied") {
                "denied"
            } else {
                "error"
            };
            let mut e: Vec<(String, JsonValue)> = Vec::new();
            e.push(("status".to_string(), JsonValue::Str(status.to_string())));
            e.push(("interval".to_string(), JsonValue::Number(JsonNumber::PosInt(interval))));
            e.push(("error".to_string(), JsonValue::Str(error)));
            JsonValue::Object(e)
        },
    }
}

/// Where a workflow push goes: the repository and the branch.
#[derive(Debug, Clone)]
pub struct PushTarget {
    pub owner: String,
    pub name: String,
    pub branch: String,
}

/// The branch to push to: the current one unless it is blank, else `main`.
pub open spec fn push_branch(current: Option<Seq<char>>) -> Seq<char> {
    match current {
        Some(b) => if trimmed(b).len() > 0 {
            b
        } else {
            "main"@
        },
        None => "main"@,
    }
}

/// Where the workflow of a project with this status is pushed, or why it
/// cannot be.
pub fn push_target(status: &RepoStatus) -> (r: Result<PushTarget, String>)
    ensures
        match status.remote_url {
            None => r matches Err(m) && m@ == "项目没有配置远程仓库"@,
            Some(u) => match remote_parts(u@) {
                (None, _) => r matches Err(m) && m@ == "无法解析远程仓库 owner"@,
                (Some(_), None) => r matches Err(m) && m@ == "无法解析远程仓库名称"@,
                (Some(o), Some(n)) => r matches Ok(t) && t.owner@ == o && t.name@ == n && t.branch@
                    == push_branch(opt_string_view(status.current_branch)),
            },
        },
{
    let url = match &status.remote_url {
        Some(u) => u,
        None => {
            return Err("项目没有配置远程仓库".to_string());
        },
    };
    let (owner, name) = parse_remote(url.as_str());
    let owner = match owner {
        Some(o) => o,
        None => {
            return Err("无法解析远程仓库 owner".to_string());
        },
    };
    let name = match name {
        Some(n) => n,
        None => {
            return Err("无法解析远程仓库名称".to_string());
        },
    };
    let branch = match &status.current_branch {
        Some(b) => if trim_str(b.as_str()).unicode_len() > 0 {
            b.clone()
        } else {
            "main".to_string()
        },
        None => "main".to_string(),
    };
    Ok(PushTarget { owner, name, branch })
}

/// A token or a branch name made of white space alone counts as none: it
/// trims to nothing, so no token is kept, and a push on such a branch goes
/// to `main`; any other branch name is kept as it is.
pub proof fn blank_input_counts_as_none(s: Seq<char>)
    ensures
        (trimmed(s).len() == 0) <==> forall|i: int| 0 <= i < s.len() ==> is_white_space(#[trigger] s[i]),
        push_branch(Some(s)) == if forall|i: int| 0 <= i < s.len() ==> is_white_space(#[trigger] s[i]) {
            "main"@
        } else {
            s
        },
{
    trimmed_empty_iff_blank(s);
}

/// The languages the application offers workflows for.
pub open spec fn supported_languages_spec() -> Seq<Seq<char>> {
    seq![
        "Rust"@,
        "Node.js"@,
        "Python"@,
        "Go"@,
        "Java (Maven)"@,
        "Java (Gradle)"@,
        "C++"@,
        "Docker"@,
    ]
}

/// Lists the languages the application offers workflows for.
pub fn supported_languages() -> (r: Vec<String>)
    ensures
        r.deep_view() == supported_languages_spec(),
{
    let mut v: Vec<String> = Vec::new();
    v.push("Rust".to_string());
    v.push("Node.js".to_string());
    v.push("Python".to_string());
    v.push("Go".to_string());
    v.push("Java (Maven)".to_string());
    v.push("Java (Gradle)".to_string());
    v.push("C++".to_string());
    v.push("Docker".to_string());
    assert(v.deep_view() =~= supported_languages_spec());
    v
}

/// Every language that project detection can report is one the
/// application offers.
pub proof fn detected_languages_are_supported(name: Seq<char>)
    ensures
        crate::git::language_for_file_spec(name) matches Some(l) ==> supported_languages_spec().contains(l),
{
    let s = supported_languages_spec();
    if name == "Cargo.toml"@ {
        assert(s[0] == "Rust"@);
    } else if name == "package.json"@ {
        assert(s[1] == "Node.js"@);
    } else if name == "requirements.txt"@ {
        assert(s[2] == "Python"@);
    } else if name == "go.mod"@ {
        assert(s[3] == "Go"@);
    } else if name == "pom.xml"@ {
        assert(s[4] == "Java (Maven)"@);
    } else if name == "build.gradle"@ {
        assert(s[5] == "Java (Gradle)"@);
    } else if name == "CMakeLists.txt"@ {
        assert(s[6] == "C++"@);
    } else if name == "Dockerfile"@ {
        assert(s[7] == "Docker"@);
    }
}

/// Two file names that indicate the same language are the same name.
proof fn one_file_per_language(a: Seq<char>, b: Seq<char>)
    requires
        crate::git::language_for_file_spec(a) is Some,
        crate::git::language_for_file_spec(a) == crate::git::language_for_file_spec(b),
    ensures
        a == b,
{
    reveal_strlit("Rust");
    reveal_strlit("Node.js");
    reveal_strlit("Python");
    reveal_strlit("Go");
    reveal_strlit("Java (Maven)");
    reveal_strlit("Java (Gradle)");
    reveal_strlit("C++");
    reveal_strlit("Docker");
    assert("Rust"@.len() == 4 && "Node.js"@.len() == 7 && "Go"@.len() == 2 && "C++"@.len() == 3);
    assert("Java (Maven)"@.len() == 12 && "Java (Gradle)"@.len() == 13);
    assert("Python"@.len() == 6 && "Docker"@.len() == 6 && "Python"@[0] != "Docker"@[0]);
}

/// The position of a name in `names` that indicates the `k`-th detected
/// language.
proof fn detected_origin(names: Seq<Seq<char>>, k: int) -> (j: int)
    requires
        0 <= k < crate::git::detect_spec(names).len(),
    ensures
        0 <= j < names.len(),
        crate::git::language_for_file_spec(names[j]) == Some(crate::git::detect_spec(names)[k]),
    decreases names.len(),
{
    let rest = crate::git::detect_spec(names.drop_last());
    if k == rest.len() {
        names.len() - 1
    } else {
        let j = detected_origin(names.drop_last(), k);
        assert(names.drop_last()[j] == names[j]);
        j
    }
}

/// A folder listing names each file once, so no language is detected twice,
/// and no more languages are detected than the application supports.
pub proof fn detected_languages_are_distinct(names: Seq<Seq<char>>)
    requires
        names.no_duplicates(),
    ensures
        crate::git::detect_spec(names).no_duplicates(),
        crate::git::detect_spec(names).len() <= supported_languages_spec().len(),
    decreases names.len(),
{
    let d = crate::git::detect_spec(names);
    if names.len() > 0 {
        let init = names.drop_last();
        assert(init.no_duplicates()) by {
            assert forall|a: int, b: int| 0 <= a < b < init.len() implies init[a] != init[b] by {
                assert(init[a] == names[a] && init[b] == names[b]);
            }
        }
        detected_languages_are_distinct(init);
        let rest = crate::git::detect_spec(init);
        if let Some(l) = crate::git::language_for_file_spec(names.last()) {
            assert forall|k: int| 0 <= k < rest.len() implies rest[k] != l by {
                let j = detected_origin(init, k);
                if rest[k] == l {
                    one_file_per_language(names.last(), init[j]);
                    assert(names[j] == init[j]);
                    assert(names[names.len() - 1] == names[j]);
                }
            }
            assert forall|a: int, b: int| 0 <= a < b < d.len() implies d[a] != d[b] by {
                if b == rest.len() {
                    assert(d[a] == rest[a]);
                } else {
                    assert(d[a] == rest[a] && d[b] == rest[b]);
                }
            }
        }
    }
    let s = supported_languages_spec();
    assert forall|x: Seq<char>| d.to_set().contains(x) implies s.to_set().contains(x) by {
        let k = choose|k: int| 0 <= k < d.len() && d[k] == x;
        let j = detected_origin(names, k);
        detected_languages_are_supported(names[j]);
    }
    d.unique_seq_to_set();
    s.lemma_cardinality_of_set();
    vstd::set_lib::lemma_len_subset(d.to_set(), s.to_set());
}

/// What triggering a build needs done next.
#[derive(Debug)]
pub enum TriggerAction {
    /// Send this request and report its outcome.
    Send(HttpRequest),
    /// Wait this many seconds for the run to show up.
    Wait(u64),
    /// Store this record in the history (when there is one) and report it.
    Store(BuildRecord),
    /// The build is triggered, or why it is not.
    Finish(Result<BuildResponse, String>),
}

/// What came of the last action of a build trigger.
#[derive(Debug)]
pub enum TriggerEvent {
    Replied(Result<HttpReply, ApiError>),
    Waited,
    Stored,
}

/// The runs that a run listing's outcome gives, or the message of its
/// failure.
pub open spec fn runs_outcome(o: Result<HttpReply, ApiError>) -> Result<Seq<JsonValue>, Seq<char>> {
    match o {
        Err(e) => Err(error_message(e@)),
        Ok(reply) => if !is_success(reply.status) {
            Err(status_failure("List runs failed"@, reply.status, reply.text@))
        } else {
            match reply.json {
                Err(m) => Err(m@),
                Ok(d) => match as_array(field(d, "workflow_runs"@)) {
                    None => Err("Invalid response format"@),
                    Some(items) => Ok(items),
                },
            }
        },
    }
}

/// Whether a reply outcome lets the trigger go on.
pub open spec fn passed(o: Result<HttpReply, ApiError>) -> bool {
    o matches Ok(reply) && is_success(reply.status)
}

/// The outcome that an event reports (an invalid-format error for an event
/// of another kind, which `trigger_events_ok` rules out).
pub open spec fn replied(e: TriggerEvent) -> Result<HttpReply, ApiError> {
    match e {
        TriggerEvent::Replied(o) => o,
        _ => Err(ApiError::InvalidFormat),
    }
}

/// The events follow the actions: a reply to each request, and the wait
/// and the storing in their places; every reply has a three-digit status.
pub open spec fn trigger_events_ok(e: Seq<TriggerEvent>) -> bool {
    &&& e.len() <= 5
    &&& forall|i: int|
        0 <= i < e.len() ==> match #[trigger] e[i] {
            TriggerEvent::Replied(o) => (i == 0 || i == 1 || i == 3) && (o matches Ok(reply)
                ==> reply.wf()),
            TriggerEvent::Waited => i == 2,
            TriggerEvent::Stored => i == 4,
        }
}

/// `rec` is the history record of the run that `v` describes.
pub open spec fn record_of_run(rec: BuildRecord, request: BuildRequest, v: JsonValue, platform: Seq<char>) -> bool {
    &&& rec.id == 0
    &&& rec.run_id == i64_or(v, "id"@, 0)
    &&& rec.repo_name@ == repo_label_spec(request.repo_owner@, request.repo_name@)
    &&& rec.workflow_id@ == request.workflow_id@
    &&& rec.status@ == str_or(v, "status"@, ""@)
    &&& rec.created_at@ == str_or(v, "created_at"@, ""@)
    &&& rec.artifact_url is None
    &&& rec.trigger_type@ == "manual"@
    &&& rec.platform@ == platform
}

/// `resp` reports the run that `v` describes.
pub open spec fn response_of_run(resp: BuildResponse, v: JsonValue) -> bool {
    &&& resp.run_id == i64_or(v, "id"@, 0)
    &&& resp.run_number == i64_or(v, "run_number"@, 0)
    &&& resp.status@ == str_or(v, "status"@, ""@)
    &&& resp.html_url@ == str_or(v, "html_url"@, ""@)
}

/// Triggering a build: check the repository, dispatch the workflow, wait,
/// look up the newest run of the workflow, record it, and report it.
pub struct BuildTrigger {
    pub client: WorkflowClient,
    pub request: BuildRequest,
    pub options: WorkflowDispatchOptions,
    pub platform: String,
}

impl BuildTrigger {
    /// A trigger of `request` through `client`, recorded as made on
    /// `platform`.
    pub fn new(client: WorkflowClient, request: BuildRequest, platform: String) -> (r: BuildTrigger)
        ensures
            r.client@ == client@,
            r.request == request,
            r.platform == platform,
            r.options.ref_name@ == request.ref_name@,
            keys_distinct(r.options.inputs@),
            forall|k: Seq<char>| #[trigger] pair_value(r.options.inputs@, k) == request_input(request.inputs, k),
    {
        let options = dispatch_options(&request);
        BuildTrigger { client, request, options, platform }
    }

    /// The next action, given what came of the earlier ones. The steps run
    /// in order and the first failure ends the trigger.
    pub fn next(&self, events: &Vec<TriggerEvent>, texts: &I18n) -> (r: TriggerAction)
        requires
            trigger_events_ok(events@),
        ensures
            ({
                let e = events@;
                let c = self.client@;
                if e.len() == 0 {
                    r matches TriggerAction::Send(q) && q.body is None && api_call(
                        q,
                        c,
                        HttpMethod::Get,
                        base_url_of(c),
                        "Failed to validate repo access"@,
                    )
                } else if !passed(replied(e[0])) {
                    r matches TriggerAction::Finish(Err(m)) && m@ == repo_access_message_spec(
                        failure_message("Repo check failed"@, replied(e[0])),
                    )
                } else if e.len() == 1 {
                    r matches TriggerAction::Send(q) && api_call(
                        q,
                        c,
                        HttpMethod::Post,
                        base_url_of(c) + "/actions/workflows/"@ + self.request.workflow_id@ + "/dispatches"@,
                        "Failed to dispatch workflow"@,
                    ) && (q.body matches Some(b) && dispatch_payload(b, self.options))
                } else if !passed(replied(e[1])) {
                    r matches TriggerAction::Finish(Err(m)) && m@ == dispatch_message_spec(
                        failure_message("Dispatch failed"@, replied(e[1])),
                    )
                } else if e.len() == 2 {
                    r matches TriggerAction::Wait(secs) && secs == 2
                } else if e.len() == 3 {
                    r matches TriggerAction::Send(q) && q.body is None && api_call(
                        q,
                        c,
                        HttpMethod::Get,
                        runs_url(base_url_of(c), Some(self.request.workflow_id@), 1),
                        "Failed to list runs"@,
                    )
                } else {
                    match runs_outcome(replied(e[3])) {
                        Err(m) => r matches TriggerAction::Finish(Err(x)) && x@ == m,
                        Ok(items) => if items.len() == 0 {
                            r matches TriggerAction::Finish(Err(x)) && x@ == shown_text(
                                pairs_map(texts.strings@),
                                "build_failed"@,
                            )
                        } else if e.len() == 4 {
                            r matches TriggerAction::Store(rec) && record_of_run(
                                rec,
                                self.request,
                                items[0],
                                self.platform@,
                            )
                        } else {
                            r matches TriggerAction::Finish(Ok(resp)) && response_of_run(resp, items[0])
                        },
                    }
                }
            }),
    {
        let n = events.len();
        if n == 0 {
            return TriggerAction::Send(self.client.validate_repo_access_request());
        }
        let first = match &events[0] {
            TriggerEvent::Replied(o) => o,
            _ => {
                return TriggerAction::Finish(Err("Invalid response format".to_string()));
            },
        };
        if let Err(m) = repo_check_verdict(first) {
            return TriggerAction::Finish(Err(m));
        }
        if n == 1 {
            return TriggerAction::Send(
                self.client.dispatch_workflow_request(self.request.workflow_id.as_str(), &self.options),
            );
        }
        let second = match &events[1] {
            TriggerEvent::Replied(o) => o,
            _ => {
                return TriggerAction::Finish(Err("Invalid response format".to_string()));
            },
        };
        if let Err(m) = dispatch_verdict(second) {
            return TriggerAction::Finish(Err(m));
        }
        if n == 2 {
            return TriggerAction::Wait(2);
        }
        if n == 3 {
            return TriggerAction::Send(
                self.client.list_runs_request(Some(self.request.workflow_id.as_str()), 1),
            );
        }
        let listed = match &events[3] {
            TriggerEvent::Replied(o) => o,
            _ => {
                return TriggerAction::Finish(Err("Invalid response format".to_string()));
            },
        };
        let runs = match listed {
            Err(e) => {
                return TriggerAction::Finish(Err(e.message()));
            },
            Ok(reply) => match WorkflowClient::list_runs_result(reply) {
                Err(e) => {
                    return TriggerAction::Finish(Err(e.message()));
                },
                Ok(runs) => runs,
            },
        };
        let ghost listed_runs = runs@;
        let run = match triggered_run(runs, texts) {
            Err(m) => {
                return TriggerAction::Finish(Err(m));
            },
            Ok(run) => run,
        };
        assert(run == listed_runs[0]);
        if n == 4 {
            TriggerAction::Store(build_record(&self.request, &run, self.platform.as_str()))
        } else {
            TriggerAction::Finish(Ok(build_response(&run)))
        }
    }
}

/// `i` is the first of `items` whose `id` is `id`.
pub open spec fn first_with_id(items: Seq<JsonValue>, id: i64, i: int) -> bool {
    &&& 0 <= i < items.len()
    &&& i64_or(items[i], "id"@, 0) == id
    &&& forall|j: int| 0 <= j < i ==> #[trigger] i64_or(items[j], "id"@, 0) != id
}

/// The download address and file name of artifact `id` that a listing's
/// outcome gives, or the message of the failure.
pub open spec fn artifact_pick(base: Seq<char>, o: Result<HttpReply, ApiError>, id: i64) -> Result<
    (Seq<char>, Seq<char>),
    Seq<char>,
> {
    match o {
        Err(e) => Err(error_message(e@)),
        Ok(reply) => if !is_success(reply.status) {
            Err(status_failure("List artifacts failed"@, reply.status, reply.text@))
        } else {
            match reply.json {
                Err(m) => Err(m@),
                Ok(d) => match as_array(field(d, "artifacts"@)) {
                    None => Err("Invalid response format"@),
                    Some(items) => if exists|i: int| first_with_id(items, id, i) {
                        let i = choose|i: int| first_with_id(items, id, i);
                        Ok(
                            (
                                artifact_zip_url(base, i64_or(items[i], "id"@, 0)),
                                str_or(items[i], "name"@, ""@) + ".zip"@,
                            ),
                        )
                    } else {
                        Err(missing_artifact_message(id))
                    },
                },
            }
        },
    }
}

/// What downloading a run's artifacts needs done next.
#[derive(Debug)]
pub enum FetchAction {
    /// Send this request and report its outcome.
    Send(HttpRequest),
    /// Download `url` as `file_name`, reporting progress for `artifact_id`.
    Download { artifact_id: i64, url: String, file_name: String },
    /// The names of the downloaded files, or why the downloads stopped.
    Finish(Result<Vec<String>, String>),
}

/// What came of the last action of an artifact download.
#[derive(Debug)]
pub enum FetchEvent {
    Replied(Result<HttpReply, ApiError>),
    Downloaded(Result<(), String>),
}

/// Downloading some artifacts of a run, one after another: for each, list
/// the run's artifacts, find it, and download its archive.
pub struct ArtifactFetch {
    pub client: WorkflowClient,
    pub run_id: i64,
    pub artifact_ids: Vec<i64>,
}

/// The listing outcome that an event reports (an invalid-format error for
/// an event of another kind, which `fetch_events_ok` rules out).
pub open spec fn listed(e: FetchEvent) -> Result<HttpReply, ApiError> {
    match e {
        FetchEvent::Replied(o) => o,
        _ => Err(ApiError::InvalidFormat),
    }
}

/// The events follow the actions, and every event but the last one went
/// well (a failure ends the downloads).
pub open spec fn fetch_events_ok(f: ArtifactFetch, e: Seq<FetchEvent>) -> bool {
    &&& e.len() <= 2 * f.artifact_ids@.len()
    &&& forall|i: int|
        0 <= i < e.len() ==> match #[trigger] e[i] {
            FetchEvent::Replied(o) => i % 2 == 0 && (o matches Ok(reply) ==> reply.wf()) && (i
                < e.len() - 1 ==> artifact_pick(base_url_of(f.client@), o, f.artifact_ids@[i / 2]) is Ok),
            FetchEvent::Downloaded(d) => i % 2 == 1 && (i < e.len() - 1 ==> d is Ok),
        }
}

impl ArtifactFetch {
    fn pick(&self, o: &Result<HttpReply, ApiError>, id: i64) -> (r: Result<(String, String), String>)
        requires
            o matches Ok(reply) ==> reply.wf(),
        ensures
            match r {
                Ok(p) => artifact_pick(base_url_of(self.client@), *o, id) == Ok::<
                    (Seq<char>, Seq<char>),
                    Seq<char>,
                >((p.0@, p.1@)),
                Err(m) => artifact_pick(base_url_of(self.client@), *o, id) == Err::<
                    (Seq<char>, Seq<char>),
                    Seq<char>,
                >(m@),
            },
    {
        let reply = match o {
            Err(e) => {
                return Err(e.message());
            },
            Ok(reply) => reply,
        };
        let arts = match self.client.list_artifacts_result(reply) {
            Err(e) => {
                return Err(e.message());
            },
            Ok(arts) => arts,
        };
        let ghost items = as_array(field(reply.json->Ok_0, "artifacts"@))->0;
        match find_artifact(&arts, id) {
            Ok(i) => {
                proof {
                    assert(reply.json is Ok);
                    assert(arts@.len() == items.len());
                    assert(crate::workflow::artifact_read_from(
                        arts@[i as int],
                        items[i as int],
                        base_url_of(self.client@),
                    ));
                    assert forall|j: int| 0 <= j < i implies #[trigger] i64_or(items[j], "id"@, 0) != id by {
                        assert(crate::workflow::artifact_read_from(
                            arts@[j],
                            items[j],
                            base_url_of(self.client@),
                        ));
                    }
                    assert(first_with_id(items, id, i as int));
                    assert forall|k: int| first_with_id(items, id, k) implies k == i by {
                        if k < i {
                            assert(arts@[k].id != id);
                        }
                        if k > i {
                            assert(i64_or(items[i as int], "id"@, 0) != id);
                        }
                    }
                }
                Ok((arts[i].download_url.clone(), artifact_file_name(arts[i].name.as_str())))
            },
            Err(m) => {
                proof {
                    assert forall|k: int| !first_with_id(items, id, k) by {
                        if 0 <= k < items.len() {
                            assert(arts@[k].id != id);
                            assert(crate::workflow::artifact_read_from(
                                arts@[k],
                                items[k],
                                base_url_of(self.client@),
                            ));
                        }
                    }
                }
                Err(m)
            },
        }
    }

    /// The next action, given what came of the earlier ones.
    pub fn next(&self, events: &Vec<FetchEvent>) -> (r: FetchAction)
        requires
            fetch_events_ok(*self, events@),
        ensures
            ({
                let e = events@;
                let ids = self.artifact_ids@;
                let base = base_url_of(self.client@);
                if e.len() % 2 == 1 {
                    match artifact_pick(base, listed(e[e.len() - 1]), ids[(e.len() - 1) / 2]) {
                        Ok(p) => r matches FetchAction::Download { artifact_id, url, file_name }
                            && artifact_id == ids[(e.len() - 1) / 2] && url@ == p.0 && file_name@
                            == p.1,
                        Err(m) => r matches FetchAction::Finish(Err(x)) && x@ == m,
                    }
                } else if e.len() > 0 && (e[e.len() - 1] matches FetchEvent::Downloaded(Err(_))) {
                    r matches FetchAction::Finish(Err(x)) && (e[e.len() - 1] matches FetchEvent::Downloaded(
                        Err(m),
                    ) && x@ == m@)
                } else if e.len() / 2 < ids.len() {
                    r matches FetchAction::Send(q) && q.body is None && api_call(
                        q,
                        self.client@,
                        HttpMethod::Get,
                        base + "/actions/runs/"@ + dec_int(self.run_id as int) + "/artifacts"@,
                        "Failed to list artifacts"@,
                    )
                } else {
                    r matches FetchAction::Finish(Ok(names)) && names@.len() == ids.len() && forall|j: int|
                        0 <= j < ids.len() ==> (artifact_pick(base, listed(e[2 * j]), ids[j]) matches Ok(
                            p,
                        ) && (#[trigger] names@[j])@ == p.1)
                }
            }),
    {
        let n = events.len();
        if n % 2 == 1 {
            let k = (n - 1) / 2;
            let o = match &events[n - 1] {
                FetchEvent::Replied(o) => o,
                _ => {
                    return FetchAction::Finish(Err("Invalid response format".to_string()));
                },
            };
            return match self.pick(o, self.artifact_ids[k]) {
                Ok((url, file_name)) => FetchAction::Download {
                    artifact_id: self.artifact_ids[k],
                    url,
                    file_name,
                },
                Err(m) => FetchAction::Finish(Err(m)),
            };
        }
        if n > 0 {
            match &events[n - 1] {
                FetchEvent::Downloaded(Err(m)) => {
                    return FetchAction::Finish(Err(m.clone()));
                },
                _ => {},
            }
        }
        if n / 2 < self.artifact_ids.len() {
            return FetchAction::Send(self.client.list_artifacts_request(self.run_id));
        }
        let mut names: Vec<String> = Vec::new();
        let mut j: usize = 0;
        while j < self.artifact_ids.len()
            invariant
                fetch_events_ok(*self, events@),
                n == events@.len(),
                n % 2 == 0,
                n / 2 >= self.artifact_ids@.len(),
                j <= self.artifact_ids@.len(),
                names@.len() == j,
                forall|i: int|
                    0 <= i < j ==> (artifact_pick(
                        base_url_of(self.client@),
                        listed(events@[2 * i]),
                        self.artifact_ids@[i],
                    ) matches Ok(p) && (#[trigger] names@[i])@ == p.1),
            decreases self.artifact_ids@.len() - j,
        {
            assert(2 * j < n - 1);
            let o = match &events[2 * j] {
                FetchEvent::Replied(o) => o,
                _ => {
                    return FetchAction::Finish(Err("Invalid response format".to_string()));
                },
            };
            match self.pick(o, self.artifact_ids[j]) {
                Ok((_, file_name)) => {
                    names.push(file_name);
                },
                Err(m) => {
                    return FetchAction::Finish(Err(m));
                },
            }
            j = j + 1;
        }
        FetchAction::Finish(Ok(names))
    }
}

} // verus!
