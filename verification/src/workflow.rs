//! The GitHub Actions API of one repository: the requests for dispatching
//! workflows, listing runs and artifacts and pushing workflow files, and
//! how their replies are read.
use vstd::prelude::*;
use crate::http::{
    check_success, error_message, github_header_list, github_headers, headers_view, is_success, shows_code,
    status_failure,
    ApiError, ApiErrorView, HttpMethod, HttpReply, HttpRequest,
};
use crate::json::{
    as_array, as_str, field, i64_or, lemma_lookup_absent, lemma_lookup_first, lookup, opt_view, str_or, JsonValue,
};
use crate::pairs::{insert_pair, keys_distinct, pair_value, pairs_map};
use crate::text::{dec_int, dec_nat, i64_to_decimal, u64_to_decimal};

verus! {

/// One run of a workflow, as the API reports it.
#[derive(Debug, Clone)]
pub struct WorkflowRun {
    pub id: i64,
    pub name: String,
    pub status: String,
    pub conclusion: Option<String>,
    pub created_at: String,
    pub updated_at: String,
    pub html_url: String,
    pub run_number: i64,
}

/// `r` holds what the API object `v` says of a run; a missing or mistyped
/// member reads as 0, as empty text, or (for the conclusion) as absent.
pub open spec fn run_read_from(r: WorkflowRun, v: JsonValue) -> bool {
    &&& r.id == i64_or(v, "id"@, 0)
    &&& r.name@ == str_or(v, "name"@, ""@)
    &&& r.status@ == str_or(v, "status"@, ""@)
    &&& opt_view(r.conclusion) == as_str(field(v, "conclusion"@))
    &&& r.created_at@ == str_or(v, "created_at"@, ""@)
    &&& r.updated_at@ == str_or(v, "updated_at"@, ""@)
    &&& r.html_url@ == str_or(v, "html_url"@, ""@)
    &&& r.run_number == i64_or(v, "run_number"@, 0)
}

impl WorkflowRun {
    /// Reads a run from its API object.
    pub fn from_json(v: &JsonValue) -> (r: WorkflowRun)
        ensures
            run_read_from(r, *v),
    {
        WorkflowRun {
            id: v.i64_field_or("id", 0),
            name: v.str_field_or("name", ""),
            status: v.str_field_or("status", ""),
            conclusion: v.opt_str_field("conclusion"),
            created_at: v.str_field_or("created_at", ""),
            updated_at: v.str_field_or("updated_at", ""),
            html_url: v.str_field_or("html_url", ""),
            run_number: v.i64_field_or("run_number", 0),
        }
    }
}

/// A file that a run produced.
#[derive(Debug, Clone)]
pub struct Artifact {
    pub id: i64,
    pub name: String,
    pub size_in_bytes: i64,
    pub created_at: String,
    pub download_url: String,
}

/// The API address of the zip archive of artifact `id`.
pub open spec fn artifact_zip_url(base: Seq<char>, id: i64) -> Seq<char> {
    base + "/actions/artifacts/"@ + dec_int(id as int) + "/zip"@
}

/// `a` holds what the API object `v` says of an artifact, with its download
/// address under the repository address `base`.
pub open spec fn artifact_read_from(a: Artifact, v: JsonValue, base: Seq<char>) -> bool {
    &&& a.id == i64_or(v, "id"@, 0)
    &&& a.name@ == str_or(v, "name"@, ""@)
    &&& a.size_in_bytes == i64_or(v, "size_in_bytes"@, 0)
    &&& a.created_at@ == str_or(v, "created_at"@, ""@)
    &&& a.download_url@ == artifact_zip_url(base, i64_or(v, "id"@, 0))
}

/// The parameters of a workflow dispatch: the branch or tag to run on, and
/// the named inputs.
#[derive(Debug, Clone)]
pub struct WorkflowDispatchOptions {
    pub ref_name: String,
    pub inputs: Vec<(String, String)>,
}

impl WorkflowDispatchOptions {
    /// Options that run on `ref_name` with no inputs.
    pub fn new(ref_name: String) -> (r: WorkflowDispatchOptions)
        ensures
            r.ref_name == ref_name,
            r.inputs@.len() == 0,
            keys_distinct(r.inputs@),
    {
        WorkflowDispatchOptions { ref_name, inputs: Vec::new() }
    }

    /// Sets input `key` to `value`, replacing an earlier value of `key`.
    pub fn set_input(&mut self, key: String, value: String)
        requires
            keys_distinct(old(self).inputs@),
        ensures
            keys_distinct(final(self).inputs@),
            final(self).ref_name == old(self).ref_name,
            forall|k: Seq<char>|
                #[trigger] pair_value(final(self).inputs@, k) == if k == key@ {
                    Some(value@)
                } else {
                    pair_value(old(self).inputs@, k)
                },
            pairs_map(final(self).inputs@) == pairs_map(old(self).inputs@).insert(key@, value@),
    {
        insert_pair(&mut self.inputs, key, value);
    }
}

/// A client for the Actions API of one repository.
pub struct WorkflowClient {
    token: String,
    repo_owner: String,
    repo_name: String,
}

/// What a client is made of: the access token and the repository's owner
/// and name.
pub struct WorkflowClientView {
    pub token: Seq<char>,
    pub repo_owner: Seq<char>,
    pub repo_name: Seq<char>,
}

impl View for WorkflowClient {
    type V = WorkflowClientView;

    closed spec fn view(&self) -> WorkflowClientView {
        WorkflowClientView {
            token: self.token@,
            repo_owner: self.repo_owner@,
            repo_name: self.repo_name@,
        }
    }
}

/// The API address of a repository.
pub open spec fn repo_url(owner: Seq<char>, name: Seq<char>) -> Seq<char> {
    "https://api.github.com/repos/"@ + owner + "/"@ + name
}

/// The API address of the repository of `c`.
pub open spec fn base_url_of(c: WorkflowClientView) -> Seq<char> {
    repo_url(c.repo_owner, c.repo_name)
}

/// The address of the authenticated user.
pub open spec fn user_url() -> Seq<char> {
    "https://api.github.com/user"@
}

/// `r` is a call of `method` on `url` with the client's token, reported as
/// `failure` when it cannot be sent.
pub open spec fn api_call(
    r: HttpRequest,
    c: WorkflowClientView,
    method: HttpMethod,
    url: Seq<char>,
    failure: Seq<char>,
) -> bool {
    &&& r.method == method
    &&& r.url@ == url
    &&& headers_view(r.headers@) == github_headers(c.token)
    &&& r.failure@ == failure
}

/// `v` is the JSON string `s`.
pub open spec fn is_text(v: JsonValue, s: Seq<char>) -> bool {
    v matches JsonValue::Str(t) && t@ == s
}

/// The body of a dispatch: `ref`, and `inputs` when there are any.
pub open spec fn dispatch_payload(body: JsonValue, options: WorkflowDispatchOptions) -> bool {
    match body {
        JsonValue::Object(entries) => {
            &&& entries@.len() == (if options.inputs@.len() == 0 {
                1int
            } else {
                2int
            })
            &&& entries@[0].0@ == "ref"@
            &&& is_text(entries@[0].1, options.ref_name@)
            &&& options.inputs@.len() > 0 ==> {
                &&& entries@[1].0@ == "inputs"@
                &&& entries@[1].1 matches JsonValue::Object(ins) && ins@.len()
                    == options.inputs@.len() && forall|i: int|
                    0 <= i < ins@.len() ==> #[trigger] ins@[i].0@ == options.inputs@[i].0@
                        && is_text(ins@[i].1, options.inputs@[i].1@)
            }
        },
        _ => false,
    }
}

/// Reading a list of named texts back through JSON member lookup gives
/// what the list sets.
proof fn text_members_read_back(ins: Seq<(String, JsonValue)>, pairs: Seq<(String, String)>, k: Seq<char>)
    requires
        ins.len() == pairs.len(),
        forall|i: int|
            #![trigger ins[i]]
            0 <= i < ins.len() ==> ins[i].0@ == pairs[i].0@ && is_text(ins[i].1, pairs[i].1@),
    ensures
        as_str(lookup(ins, k)) == pair_value(pairs, k),
    decreases ins.len(),
{
    if ins.len() > 0 {
        assert(ins[0].0@ == pairs[0].0@ && is_text(ins[0].1, pairs[0].1@));
        if ins[0].0@ != k {
            let (ti, tp) = (ins.drop_first(), pairs.drop_first());
            assert forall|i: int| #![trigger ti[i]] 0 <= i < ti.len() implies ti[i].0@ == tp[i].0@
                && is_text(ti[i].1, tp[i].1@) by {
                assert(ti[i] == ins[i + 1] && tp[i] == pairs[i + 1]);
            }
            text_members_read_back(ti, tp, k);
        }
    }
}

/// A dispatch runs the workflow on exactly the branch or tag of its
/// options: the body's `ref` member reads back as `options.ref_name`; it has
/// an `inputs` member exactly when there are inputs, and each input name
/// reads back its value there.
pub proof fn dispatch_body_reads_back(b: JsonValue, options: WorkflowDispatchOptions)
    requires
        dispatch_payload(b, options),
    ensures
        as_str(field(b, "ref"@)) == Some(options.ref_name@),
        field(b, "inputs"@) is Some <==> options.inputs@.len() > 0,
        options.inputs@.len() > 0 ==> forall|k: Seq<char>|
            #[trigger] as_str(field(field(b, "inputs"@)->0, k)) == pair_value(options.inputs@, k),
{
    reveal_strlit("ref");
    reveal_strlit("inputs");
    assert("ref"@.len() == 3 && "inputs"@.len() == 6);
    let entries = b->Object_0@;
    lemma_lookup_first(entries, "ref"@, 0);
    if options.inputs@.len() > 0 {
        lemma_lookup_first(entries, "inputs"@, 1);
        let ins = entries[1].1->Object_0@;
        assert forall|i: int| #![trigger ins[i]] 0 <= i < ins.len() implies ins[i].0@ == options.inputs@[i].0@
            && is_text(ins[i].1, options.inputs@[i].1@) by {
            assert(ins[i].0@ == options.inputs@[i].0@);
        }
        assert forall|k: Seq<char>| #[trigger] as_str(field(field(b, "inputs"@)->0, k)) == pair_value(
            options.inputs@,
            k,
        ) by {
            text_members_read_back(ins, options.inputs@, k);
        }
    } else {
        lemma_lookup_absent(entries, "inputs"@);
    }
}

/// The address that lists runs, optionally of one workflow.
pub open spec fn runs_url(base: Seq<char>, workflow_id: Option<Seq<char>>, per_page: usize) -> Seq<char> {
    base + "/actions/runs?"@ + match workflow_id {
        Some(w) => "workflow_id="@ + w + "&"@,
        None => ""@,
    } + "per_page="@ + dec_nat(per_page as nat)
}

/// The address of a workflow file in the repository.
pub open spec fn contents_url(base: Seq<char>, filename: Seq<char>) -> Seq<char> {
    base + "/contents/.github/workflows/"@ + filename
}

/// The commit message of a workflow push.
pub open spec fn push_commit_message() -> Seq<char> {
    "chore: add GitHub Actions build workflow"@
}

/// The body of a workflow push: message, content, branch, and the
/// replaced file's `sha` when there is one.
pub open spec fn push_payload(
    body: JsonValue,
    branch: Seq<char>,
    content: Seq<char>,
    sha: Option<Seq<char>>,
) -> bool {
    match body {
        JsonValue::Object(entries) => {
            &&& entries@.len() == (if sha is Some {
                4int
            } else {
                3int
            })
            &&& entries@[0].0@ == "message"@ && is_text(entries@[0].1, push_commit_message())
            &&& entries@[1].0@ == "content"@ && is_text(entries@[1].1, content)
            &&& entries@[2].0@ == "branch"@ && is_text(entries@[2].1, branch)
            &&& sha matches Some(h) ==> entries@[3].0@ == "sha"@ && is_text(entries@[3].1, h)
        },
        _ => false,
    }
}

/// A push writes the given content on exactly the given branch: the body's
/// members read back as the commit message, `content`, `branch`, and the
/// replaced file's `sha` (absent when there is none).
pub proof fn push_body_reads_back(b: JsonValue, branch: Seq<char>, content: Seq<char>, sha: Option<Seq<char>>)
    requires
        push_payload(b, branch, content, sha),
    ensures
        as_str(field(b, "message"@)) == Some(push_commit_message()),
        as_str(field(b, "content"@)) == Some(content),
        as_str(field(b, "branch"@)) == Some(branch),
        as_str(field(b, "sha"@)) == sha,
{
    reveal_strlit("message");
    reveal_strlit("content");
    reveal_strlit("branch");
    reveal_strlit("sha");
    assert("message"@.len() == 7 && "content"@.len() == 7 && "branch"@.len() == 6 && "sha"@.len() == 3);
    assert("message"@[0] != "content"@[0]);
    let e = b->Object_0@;
    lemma_lookup_first(e, "message"@, 0);
    lemma_lookup_first(e, "content"@, 1);
    lemma_lookup_first(e, "branch"@, 2);
    if sha is Some {
        lemma_lookup_first(e, "sha"@, 3);
    } else {
        lemma_lookup_absent(e, "sha"@);
    }
}

/// The error of a failed workflow-file check, which shows the bare status
/// number.
pub open spec fn check_failure(code: u16, text: Seq<char>) -> Seq<char> {
    "Check workflow failed: "@ + dec_nat(code as nat) + " - "@ + text
}

/// The user summary: login, name and avatar address, each text.
pub open spec fn user_summary(r: JsonValue, data: JsonValue) -> bool {
    match r {
        JsonValue::Object(entries) => {
            &&& entries@.len() == 3
            &&& entries@[0].0@ == "login"@ && is_text(entries@[0].1, str_or(data, "login"@, ""@))
            &&& entries@[1].0@ == "name"@ && is_text(entries@[1].1, str_or(data, "name"@, ""@))
            &&& entries@[2].0@ == "avatar_url"@ && is_text(
                entries@[2].1,
                str_or(data, "avatar_url"@, ""@),
            )
        },
        _ => false,
    }
}

/// The user summary hands on the user's login, name and avatar address:
/// each reads back as the same member of the API's answer.
pub proof fn user_summary_reads_back(u: JsonValue, data: JsonValue)
    requires
        user_summary(u, data),
    ensures
        as_str(field(u, "login"@)) == Some(str_or(data, "login"@, ""@)),
        as_str(field(u, "name"@)) == Some(str_or(data, "name"@, ""@)),
        as_str(field(u, "avatar_url"@)) == Some(str_or(data, "avatar_url"@, ""@)),
{
    reveal_strlit("login");
    reveal_strlit("name");
    reveal_strlit("avatar_url");
    assert("login"@.len() == 5 && "name"@.len() == 4 && "avatar_url"@.len() == 10);
    let e = u->Object_0@;
    lemma_lookup_first(e, "login"@, 0);
    lemma_lookup_first(e, "name"@, 1);
    lemma_lookup_first(e, "avatar_url"@, 2);
}

impl WorkflowClient {
    /// A client for repository `repo_owner/repo_name` that authenticates
    /// with `token`.
    pub fn new(token: String, repo_owner: String, repo_name: String) -> (r: WorkflowClient)
        ensures
            r@.token == token@,
            r@.repo_owner == repo_owner@,
            r@.repo_name == repo_name@,
    {
        WorkflowClient { token, repo_owner, repo_name }
    }

    /// The API address of the repository.
    pub fn base_url(&self) -> (r: String)
        ensures
            r@ == base_url_of(self@),
    {
        let mut s = "https://api.github.com/repos/".to_string();
        s.append(self.repo_owner.as_str());
        s.append("/");
        s.append(self.repo_name.as_str());
        s
    }

    fn call(&self, method: HttpMethod, url: String, failure: &str, body: Option<JsonValue>) -> (r:
        HttpRequest)
        ensures
            api_call(r, self@, method, url@, failure@),
            r.body == body,
    {
        HttpRequest {
            method,
            url,
            headers: github_header_list(self.token.as_str()),
            body,
            failure: failure.to_string(),
        }
    }

    /// The request that starts workflow `workflow_id` with `options`.
    pub fn dispatch_workflow_request(
        &self,
        workflow_id: &str,
        options: &WorkflowDispatchOptions,
    ) -> (r: HttpRequest)
        ensures
            api_call(
                r,
                self@,
                HttpMethod::Post,
                base_url_of(self@) + "/actions/workflows/"@ + workflow_id@ + "/dispatches"@,
                "Failed to dispatch workflow"@,
            ),
            r.body matches Some(b) && dispatch_payload(b, *options),
            r.body matches Some(b) && as_str(field(b, "ref"@)) == Some(options.ref_name@) && (field(
                b,
                "inputs"@,
            ) is Some <==> options.inputs@.len() > 0),
    {
        let mut url = self.base_url();
        url.append("/actions/workflows/");
        url.append(workflow_id);
        url.append("/dispatches");
        let mut payload: Vec<(String, JsonValue)> = Vec::new();
        payload.push(("ref".to_string(), JsonValue::Str(options.ref_name.clone())));
        if options.inputs.len() > 0 {
            let mut ins: Vec<(String, JsonValue)> = Vec::new();
            let mut i: usize = 0;
            while i < options.inputs.len()
                invariant
                    i <= options.inputs@.len(),
                    ins@.len() == i,
                    forall|j: int|
                        0 <= j < i ==> #[trigger] ins@[j].0@ == options.inputs@[j].0@ && is_text(
                            ins@[j].1,
                            options.inputs@[j].1@,
                        ),
                decreases options.inputs@.len() - i,
            {
                ins.push(
                    (options.inputs[i].0.clone(), JsonValue::Str(options.inputs[i].1.clone())),
                );
                i = i + 1;
            }
            payload.push(("inputs".to_string(), JsonValue::Object(ins)));
        }
        let r = self.call(HttpMethod::Post, url, "Failed to dispatch workflow", Some(JsonValue::Object(payload)));
        proof {
            dispatch_body_reads_back(r.body->0, *options);
        }
        r
    }

    /// Reads the reply to a dispatch.
    pub fn dispatch_workflow_result(reply: &HttpReply) -> (r: Result<(), ApiError>)
        requires
            reply.wf(),
        ensures
            r is Ok <==> is_success(reply.status),
            r matches Err(e) ==> e@ == ApiErrorView::Status(
                status_failure("Dispatch failed"@, reply.status, reply.text@),
            ),
            !is_success(reply.status) ==> shows_code(reply.status),
    {
        check_success("Dispatch failed", reply)
    }

    /// The request that lists recent runs, of one workflow when
    /// `workflow_id` is given, `per_page` of them.
    pub fn list_runs_request(&self, workflow_id: Option<&str>, per_page: usize) -> (r: HttpRequest)
        ensures
            api_call(
                r,
                self@,
                HttpMethod::Get,
                runs_url(
                    base_url_of(self@),
                    match workflow_id {
                        Some(w) => Some(w@),
                        None => None,
                    },
                    per_page,
                ),
                "Failed to list runs"@,
            ),
            r.body is None,
    {
        let mut url = self.base_url();
        url.append("/actions/runs?");
        match workflow_id {
            Some(w) => {
                url.append("workflow_id=");
                url.append(w);
                url.append("&");
            },
            None => {},
        }
        url.append("per_page=");
        let n = u64_to_decimal(per_page as u64);
        url.append(n.as_str());
        proof {
            reveal_strlit("");
            let wv = match workflow_id {
                Some(w) => Some(w@),
                None => None,
            };
            assert(url@ =~= runs_url(base_url_of(self@), wv, per_page));
        }
        self.call(HttpMethod::Get, url, "Failed to list runs", None)
    }

    /// Reads the reply to a run listing.
    pub fn list_runs_result(reply: &HttpReply) -> (r: Result<Vec<WorkflowRun>, ApiError>)
        requires
            reply.wf(),
        ensures
            !is_success(reply.status) ==> (r matches Err(e) && e@ == ApiErrorView::Status(
                status_failure("List runs failed"@, reply.status, reply.text@),
            )),
            is_success(reply.status) ==> match reply.json {
                Err(m) => r matches Err(e) && e@ == ApiErrorView::Decode(m@),
                Ok(data) => match as_array(field(data, "workflow_runs"@)) {
                    None => r matches Err(e) && e@ == ApiErrorView::InvalidFormat,
                    Some(items) => r matches Ok(runs) && runs@.len() == items.len() && forall|i: int|
                        0 <= i < items.len() ==> run_read_from(#[trigger] runs@[i], items[i]),
                },
            },
    {
        if let Err(e) = check_success("List runs failed", reply) {
            return Err(e);
        }
        match &reply.json {
            Err(m) => Err(ApiError::Decode(m.clone())),
            Ok(data) => match data.array_field("workflow_runs") {
                None => Err(ApiError::InvalidFormat),
                Some(items) => {
                    let mut runs: Vec<WorkflowRun> = Vec::new();
                    let mut i: usize = 0;
                    while i < items.len()
                        invariant
                            i <= items@.len(),
                            runs@.len() == i,
                            forall|j: int| 0 <= j < i ==> run_read_from(#[trigger] runs@[j], items@[j]),
                        decreases items@.len() - i,
                    {
                        runs.push(WorkflowRun::from_json(&items[i]));
                        i = i + 1;
                    }
                    Ok(runs)
                },
            },
        }
    }

    /// The request for one run.
    pub fn get_run_status_request(&self, run_id: i64) -> (r: HttpRequest)
        ensures
            api_call(
                r,
                self@,
                HttpMethod::Get,
                base_url_of(self@) + "/actions/runs/"@ + dec_int(run_id as int),
                "Failed to get run status"@,
            ),
            r.body is None,
    {
        let mut url = self.base_url();
        url.append("/actions/runs/");
        let n = i64_to_decimal(run_id);
        url.append(n.as_str());
        self.call(HttpMethod::Get, url, "Failed to get run status", None)
    }

    /// Reads the reply about one run.
    pub fn get_run_status_result(reply: &HttpReply) -> (r: Result<WorkflowRun, ApiError>)
        requires
            reply.wf(),
        ensures
            !is_success(reply.status) ==> (r matches Err(e) && e@ == ApiErrorView::Status(
                status_failure("Get run failed"@, reply.status, reply.text@),
            )),
            is_success(reply.status) ==> match reply.json {
                Err(m) => r matches Err(e) && e@ == ApiErrorView::Decode(m@),
                Ok(data) => r matches Ok(run) && run_read_from(run, data),
            },
    {
        if let Err(e) = check_success("Get run failed", reply) {
            return Err(e);
        }
        match &reply.json {
            Err(m) => Err(ApiError::Decode(m.clone())),
            Ok(data) => Ok(WorkflowRun::from_json(data)),
        }
    }

    /// The request that lists the artifacts of run `run_id`.
    pub fn list_artifacts_request(&self, run_id: i64) -> (r: HttpRequest)
        ensures
            api_call(
                r,
                self@,
                HttpMethod::Get,
                base_url_of(self@) + "/actions/runs/"@ + dec_int(run_id as int) + "/artifacts"@,
                "Failed to list artifacts"@,
            ),
            r.body is None,
    {
        let mut url = self.base_url();
        url.append("/actions/runs/");
        let n = i64_to_decimal(run_id);
        url.append(n.as_str());
        url.append("/artifacts");
        self.call(HttpMethod::Get, url, "Failed to list artifacts", None)
    }

    /// The API address of the zip archive of artifact `id`.
    pub fn artifact_url(&self, id: i64) -> (r: String)
        ensures
            r@ == artifact_zip_url(base_url_of(self@), id),
    {
        let mut url = self.base_url();
        url.append("/actions/artifacts/");
        let n = i64_to_decimal(id);
        url.append(n.as_str());
        url.append("/zip");
        url
    }

    /// Reads the reply to an artifact listing.
    pub fn list_artifacts_result(&self, reply: &HttpReply) -> (r: Result<Vec<Artifact>, ApiError>)
        requires
            reply.wf(),
        ensures
            !is_success(reply.status) ==> (r matches Err(e) && e@ == ApiErrorView::Status(
                status_failure("List artifacts failed"@, reply.status, reply.text@),
            )),
            is_success(reply.status) ==> match reply.json {
                Err(m) => r matches Err(e) && e@ == ApiErrorView::Decode(m@),
                Ok(data) => match as_array(field(data, "artifacts"@)) {
                    None => r matches Err(e) && e@ == ApiErrorView::InvalidFormat,
                    Some(items) => r matches Ok(arts) && arts@.len() == items.len() && forall|i: int|
                        0 <= i < items.len() ==> artifact_read_from(
                            #[trigger] arts@[i],
                            items[i],
                            base_url_of(self@),
                        ),
                },
            },
    {
        if let Err(e) = check_success("List artifacts failed", reply) {
            return Err(e);
        }
        match &reply.json {
            Err(m) => Err(ApiError::Decode(m.clone())),
            Ok(data) => match data.array_field("artifacts") {
                None => Err(ApiError::InvalidFormat),
                Some(items) => {
                    let mut arts: Vec<Artifact> = Vec::new();
                    let mut i: usize = 0;
                    while i < items.len()
                        invariant
                            i <= items@.len(),
                            arts@.len() == i,
                            forall|j: int|
                                0 <= j < i ==> artifact_read_from(
                                    #[trigger] arts@[j],
                                    items@[j],
                                    base_url_of(self@),
                                ),
                        decreases items@.len() - i,
                    {
                        let item = &items[i];
                        let id: i64 = item.i64_field_or("id", 0);
                        arts.push(
                            Artifact {
                                id,
                                name: item.str_field_or("name", ""),
                                size_in_bytes: item.i64_field_or("size_in_bytes", 0),
                                created_at: item.str_field_or("created_at", ""),
                                download_url: self.artifact_url(id),
                            },
                        );
                        i = i + 1;
                    }
                    Ok(arts)
                },
            },
        }
    }

    /// The request that fetches the zip archive of artifact `artifact_id`.
    pub fn download_artifact_request(&self, artifact_id: i64) -> (r: HttpRequest)
        ensures
            api_call(
                r,
                self@,
                HttpMethod::Get,
                artifact_zip_url(base_url_of(self@), artifact_id),
                "Failed to download artifact"@,
            ),
            r.body is None,
    {
        let url = self.artifact_url(artifact_id);
        self.call(HttpMethod::Get, url, "Failed to download artifact", None)
    }

    /// Reads the status of an archive download; the bytes are the body.
    pub fn download_artifact_result(reply: &HttpReply) -> (r: Result<(), ApiError>)
        requires
            reply.wf(),
        ensures
            r is Ok <==> is_success(reply.status),
            r matches Err(e) ==> e@ == ApiErrorView::Status(
                status_failure("Download failed"@, reply.status, reply.text@),
            ),
    {
        check_success("Download failed", reply)
    }

    /// The request that lists the repository's workflows.
    pub fn list_workflows_request(&self) -> (r: HttpRequest)
        ensures
            api_call(
                r,
                self@,
                HttpMethod::Get,
                base_url_of(self@) + "/actions/workflows"@,
                "Failed to list workflows"@,
            ),
            r.body is None,
    {
        let mut url = self.base_url();
        url.append("/actions/workflows");
        self.call(HttpMethod::Get, url, "Failed to list workflows", None)
    }

    /// Reads the reply to a workflow listing: the `workflows` array, or no
    /// workflows when the reply has none.
    pub fn list_workflows_result(reply: HttpReply) -> (r: Result<Vec<JsonValue>, ApiError>)
        requires
            reply.wf(),
        ensures
            !is_success(reply.status) ==> (r matches Err(e) && e@ == ApiErrorView::Status(
                status_failure("List workflows failed"@, reply.status, reply.text@),
            )),
            is_success(reply.status) ==> match reply.json {
                Err(m) => r matches Err(e) && e@ == ApiErrorView::Decode(m@),
                Ok(data) => match as_array(field(data, "workflows"@)) {
                    None => r matches Ok(ws) && ws@.len() == 0,
                    Some(items) => r matches Ok(ws) && ws@ == items,
                },
            },
    {
        if let Err(e) = check_success("List workflows failed", &reply) {
            return Err(e);
        }
        match reply.json {
            Err(m) => Err(ApiError::Decode(m)),
            Ok(data) => match data.into_array_field("workflows") {
                None => Ok(Vec::new()),
                Some(items) => Ok(items),
            },
        }
    }

    /// The request that checks the token, by asking for its user.
    pub fn validate_token_request(&self) -> (r: HttpRequest)
        ensures
            api_call(r, self@, HttpMethod::Get, user_url(), "Failed to validate token"@),
            r.body is None,
    {
        self.call(HttpMethod::Get, "https://api.github.com/user".to_string(), "Failed to validate token", None)
    }

    /// A token is valid when asking for its user succeeds.
    pub fn validate_token_result(reply: &HttpReply) -> (r: bool)
        ensures
            r == is_success(reply.status),
    {
        200 <= reply.status && reply.status <= 299
    }

    /// The request for the token's user.
    pub fn get_user_request(&self) -> (r: HttpRequest)
        ensures
            api_call(r, self@, HttpMethod::Get, user_url(), "Failed to get GitHub user"@),
            r.body is None,
    {
        self.call(HttpMethod::Get, "https://api.github.com/user".to_string(), "Failed to get GitHub user", None)
    }

    /// Reads the user: its login, name and avatar address.
    pub fn get_user_result(reply: &HttpReply) -> (r: Result<JsonValue, ApiError>)
        requires
            reply.wf(),
        ensures
            !is_success(reply.status) ==> (r matches Err(e) && e@ == ApiErrorView::Status(
                status_failure("Get user failed"@, reply.status, reply.text@),
            )),
            is_success(reply.status) ==> match reply.json {
                Err(m) => r matches Err(e) && e@ == ApiErrorView::Decode(m@),
                Ok(data) => r matches Ok(u) && user_summary(u, data),
            },
    {
        if let Err(e) = check_success("Get user failed", reply) {
            return Err(e);
        }
        match &reply.json {
            Err(m) => Err(ApiError::Decode(m.clone())),
            Ok(data) => {
                let mut entries: Vec<(String, JsonValue)> = Vec::new();
                entries.push(("login".to_string(), JsonValue::Str(data.str_field_or("login", ""))));
                entries.push(("name".to_string(), JsonValue::Str(data.str_field_or("name", ""))));
                entries.push(
                    ("avatar_url".to_string(), JsonValue::Str(data.str_field_or("avatar_url", ""))),
                );
                Ok(JsonValue::Object(entries))
            },
        }
    }

    /// The request that looks for workflow file `filename` on `branch`.
    pub fn push_check_request(&self, branch: &str, filename: &str) -> (r: HttpRequest)
        ensures
            api_call(
                r,
                self@,
                HttpMethod::Get,
                contents_url(base_url_of(self@), filename@) + "?ref="@ + branch@,
                "Failed to check workflow file"@,
            ),
            r.body is None,
    {
        let mut url = self.base_url();
        url.append("/contents/.github/workflows/");
        url.append(filename);
        url.append("?ref=");
        url.append(branch);
        self.call(HttpMethod::Get, url, "Failed to check workflow file", None)
    }

    /// Reads the check for an existing workflow file: its `sha` when it
    /// exists (status 200), nothing when it does not (status 404).
    pub fn push_check_result(reply: &HttpReply) -> (r: Result<Option<String>, ApiError>)
        ensures
            reply.status == 200 ==> match reply.json {
                Err(m) => r matches Err(e) && e@ == ApiErrorView::Decode(m@),
                Ok(data) => r matches Ok(Some(sha)) && sha@ == str_or(data, "sha"@, ""@),
            },
            reply.status == 404 ==> r matches Ok(None),
            reply.status != 200 && reply.status != 404 ==> (r matches Err(e) && e@
                == ApiErrorView::Status(check_failure(reply.status, reply.text@))),
    {
        if reply.status == 200 {
            match &reply.json {
                Err(m) => Err(ApiError::Decode(m.clone())),
                Ok(data) => Ok(Some(data.str_field_or("sha", ""))),
            }
        } else if reply.status == 404 {
            Ok(None)
        } else {
            let mut msg = "Check workflow failed: ".to_string();
            let code = u64_to_decimal(reply.status as u64);
            msg.append(code.as_str());
            msg.append(" - ");
            msg.append(reply.text.as_str());
            Err(ApiError::Status(msg))
        }
    }

    /// The request that writes workflow file `filename` on `branch` with
    /// the given base64 content, replacing the file `sha` when given.
    pub fn push_request(
        &self,
        branch: &str,
        filename: &str,
        content_base64: &str,
        sha: Option<String>,
    ) -> (r: HttpRequest)
        ensures
            api_call(
                r,
                self@,
                HttpMethod::Put,
                contents_url(base_url_of(self@), filename@),
                "Failed to push workflow"@,
            ),
            r.body matches Some(b) && push_payload(b, branch@, content_base64@, opt_view(sha)),
            r.body matches Some(b) && as_str(field(b, "branch"@)) == Some(branch@) && as_str(
                field(b, "content"@),
            ) == Some(content_base64@) && as_str(field(b, "sha"@)) == opt_view(sha),
    {
        let mut url = self.base_url();
        url.append("/contents/.github/workflows/");
        url.append(filename);
        let mut payload: Vec<(String, JsonValue)> = Vec::new();
        payload.push(
            (
                "message".to_string(),
                JsonValue::Str("chore: add GitHub Actions build workflow".to_string()),
            ),
        );
        payload.push(("content".to_string(), JsonValue::Str(content_base64.to_string())));
        payload.push(("branch".to_string(), JsonValue::Str(branch.to_string())));
        match sha {
            Some(h) => {
                payload.push(("sha".to_string(), JsonValue::Str(h)));
            },
            None => {},
        }
        let r = self.call(HttpMethod::Put, url, "Failed to push workflow", Some(JsonValue::Object(payload)));
        proof {
            push_body_reads_back(r.body->0, branch@, content_base64@, opt_view(sha));
        }
        r
    }

    /// Reads the reply to a workflow push.
    pub fn push_result(reply: &HttpReply) -> (r: Result<(), ApiError>)
        requires
            reply.wf(),
        ensures
            r is Ok <==> is_success(reply.status),
            r matches Err(e) ==> e@ == ApiErrorView::Status(
                status_failure("Push workflow failed"@, reply.status, reply.text@),
            ),
    {
        check_success("Push workflow failed", reply)
    }

    /// The request that checks access to the repository.
    pub fn validate_repo_access_request(&self) -> (r: HttpRequest)
        ensures
            api_call(r, self@, HttpMethod::Get, base_url_of(self@), "Failed to validate repo access"@),
            r.body is None,
    {
        let url = self.base_url();
        self.call(HttpMethod::Get, url, "Failed to validate repo access", None)
    }

    /// Reads the reply to the repository check.
    pub fn validate_repo_access_result(reply: &HttpReply) -> (r: Result<(), ApiError>)
        requires
            reply.wf(),
        ensures
            r is Ok <==> is_success(reply.status),
            r matches Err(e) ==> e@ == ApiErrorView::Status(
                status_failure("Repo check failed"@, reply.status, reply.text@),
            ),
            !is_success(reply.status) ==> shows_code(reply.status),
    {
        check_success("Repo check failed", reply)
    }
}

/// What pushing a workflow file needs done next.
#[derive(Debug)]
pub enum PushAction {
    /// Send this request and report its outcome.
    Send(HttpRequest),
    /// The file is pushed, or why it is not.
    Finish(Result<(), String>),
}

/// What the check for an existing workflow file gives: the `sha` of the file
/// to replace, none, or the message of the failure.
pub open spec fn sha_outcome(o: Result<HttpReply, ApiError>) -> Result<Option<Seq<char>>, Seq<char>> {
    match o {
        Err(e) => Err(error_message(e@)),
        Ok(reply) => if reply.status == 200 {
            match reply.json {
                Err(m) => Err(m@),
                Ok(d) => Ok(Some(str_or(d, "sha"@, ""@))),
            }
        } else if reply.status == 404 {
            Ok(None)
        } else {
            Err(check_failure(reply.status, reply.text@))
        },
    }
}

impl WorkflowClient {
    /// The next step of pushing workflow file `filename` on `branch`, given
    /// the outcomes of the requests sent so far: look for the file, then
    /// write it, replacing it when it exists; the first failure ends it.
    pub fn push_workflow_file_step(
        &self,
        branch: &str,
        filename: &str,
        content_base64: &str,
        outcomes: &Vec<Result<HttpReply, ApiError>>,
    ) -> (r: PushAction)
        requires
            outcomes@.len() <= 2,
            forall|i: int| 0 <= i < outcomes@.len() ==> (#[trigger] outcomes@[i] matches Ok(reply) ==> reply.wf()),
        ensures
            ({
                let o = outcomes@;
                if o.len() == 0 {
                    r matches PushAction::Send(q) && q.body is None && api_call(
                        q,
                        self@,
                        HttpMethod::Get,
                        contents_url(base_url_of(self@), filename@) + "?ref="@ + branch@,
                        "Failed to check workflow file"@,
                    )
                } else {
                    match sha_outcome(o[0]) {
                        Err(m) => r matches PushAction::Finish(Err(x)) && x@ == m,
                        Ok(sha) => if o.len() == 1 {
                            r matches PushAction::Send(q) && api_call(
                                q,
                                self@,
                                HttpMethod::Put,
                                contents_url(base_url_of(self@), filename@),
                                "Failed to push workflow"@,
                            ) && (q.body matches Some(b) && push_payload(b, branch@, content_base64@, sha))
                        } else {
                            match o[1] {
                                Err(e) => r matches PushAction::Finish(Err(x)) && x@ == error_message(e@),
                                Ok(reply) => if is_success(reply.status) {
                                    r matches PushAction::Finish(Ok(()))
                                } else {
                                    r matches PushAction::Finish(Err(x)) && x@ == status_failure(
                                        "Push workflow failed"@,
                                        reply.status,
                                        reply.text@,
                                    )
                                },
                            }
                        },
                    }
                }
            }),
    {
        if outcomes.len() == 0 {
            return PushAction::Send(self.push_check_request(branch, filename));
        }
        let sha = match &outcomes[0] {
            Err(e) => {
                return PushAction::Finish(Err(e.message()));
            },
            Ok(reply) => match WorkflowClient::push_check_result(reply) {
                Err(e) => {
                    return PushAction::Finish(Err(e.message()));
                },
                Ok(sha) => sha,
            },
        };
        if outcomes.len() == 1 {
            return PushAction::Send(self.push_request(branch, filename, content_base64, sha));
        }
        match &outcomes[1] {
            Err(e) => PushAction::Finish(Err(e.message())),
            Ok(reply) => match WorkflowClient::push_result(reply) {
                Ok(()) => PushAction::Finish(Ok(())),
                Err(e) => PushAction::Finish(Err(e.message())),
            },
        }
    }
}

/// Every artifact that a listing reports carries, as its download address,
/// exactly the address that the download request for its id fetches.
pub proof fn artifact_links_match_downloads(c: WorkflowClientView, a: Artifact, v: JsonValue)
    requires
        artifact_read_from(a, v, base_url_of(c)),
    ensures
        a.download_url@ == artifact_zip_url(base_url_of(c), a.id),
{
}

} // verus!
