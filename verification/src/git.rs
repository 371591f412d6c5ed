//! The git operations on a project folder. Each operation is a sequence of
//! git commands in which the next command depends on how the earlier ones
//! ended; the caller runs the commands and feeds back their outcomes.
use vstd::prelude::*;
use crate::text::{str_eq, trim_str, trimmed};

verus! {

#[verifier::external_type_specification]
#[verifier::external_body]
pub struct ExPathBuf(std::path::PathBuf);

/// What a finished git command gave: its trimmed standard output, or the
/// message of its failure.
pub open spec fn outcomes_view(h: Seq<Result<String, String>>) -> Seq<Result<Seq<char>, Seq<char>>> {
    h.map_values(|o: Result<String, String>| match o {
        Ok(s) => Ok(s@),
        Err(e) => Err(e@),
    })
}

/// The outcome of a git command run in the project folder: its trimmed
/// output when it ran and succeeded, otherwise a failure message.
pub open spec fn command_outcome_spec(
    started: bool,
    succeeded: bool,
    stdout: Seq<char>,
    stderr: Seq<char>,
) -> Result<Seq<char>, Seq<char>> {
    if !started {
        Err("Failed to execute git command"@)
    } else if !succeeded {
        Err("Git command failed: "@ + stderr)
    } else {
        Ok(trimmed(stdout))
    }
}

/// Turns what a git process did into the outcome the operations read.
pub fn command_outcome(started: bool, succeeded: bool, stdout: &str, stderr: &str) -> (r: Result<
    String,
    String,
>)
    ensures
        match r {
            Ok(s) => command_outcome_spec(started, succeeded, stdout@, stderr@) == Ok::<
                Seq<char>,
                Seq<char>,
            >(s@),
            Err(e) => command_outcome_spec(started, succeeded, stdout@, stderr@) == Err::<
                Seq<char>,
                Seq<char>,
            >(e@),
        },
{
    if !started {
        Err("Failed to execute git command".to_string())
    } else if !succeeded {
        let mut m = "Git command failed: ".to_string();
        m.append(stderr);
        Err(m)
    } else {
        Ok(trim_str(stdout).to_string())
    }
}

/// The state of a project folder as git sees it.
#[derive(Debug, Clone)]
pub struct RepoStatus {
    pub is_repo: bool,
    pub has_remote: bool,
    pub remote_url: Option<String>,
    pub current_branch: Option<String>,
    pub is_clean: bool,
}

/// A `RepoStatus` with its text as characters.
pub struct RepoStatusView {
    pub is_repo: bool,
    pub has_remote: bool,
    pub remote_url: Option<Seq<char>>,
    pub current_branch: Option<Seq<char>>,
    pub is_clean: bool,
}

impl View for RepoStatus {
    type V = RepoStatusView;

    open spec fn view(&self) -> RepoStatusView {
        RepoStatusView {
            is_repo: self.is_repo,
            has_remote: self.has_remote,
            remote_url: match self.remote_url {
                Some(s) => Some(s@),
                None => None,
            },
            current_branch: match self.current_branch {
                Some(s) => Some(s@),
                None => None,
            },
            is_clean: self.is_clean,
        }
    }
}

/// What an operation asks for next: a git command (its arguments), or its
/// result.
pub enum GitStep<T> {
    Run(Vec<String>),
    Finished(T),
}

/// A `GitStep` as characters.
pub enum Step<T> {
    Run(Seq<Seq<char>>),
    Done(T),
}

pub open spec fn unit_view(r: Result<(), String>) -> Result<(), Seq<char>> {
    match r {
        Ok(_) => Ok(()),
        Err(e) => Err(e@),
    }
}

pub open spec fn status_result_view(r: Result<RepoStatus, String>) -> Result<RepoStatusView, Seq<char>> {
    match r {
        Ok(s) => Ok(s@),
        Err(e) => Err(e@),
    }
}

/// `s` is the step `v` (the result read through `f`).
pub open spec fn step_is<T, U>(s: GitStep<T>, v: Step<U>, f: spec_fn(T) -> U) -> bool {
    match s {
        GitStep::Run(args) => v == Step::<U>::Run(args.deep_view()),
        GitStep::Finished(x) => v == Step::<U>::Done(f(x)),
    }
}

pub open spec fn rev_parse_args() -> Seq<Seq<char>> {
    seq!["rev-parse"@, "--git-dir"@]
}

pub open spec fn branch_args() -> Seq<Seq<char>> {
    seq!["branch"@, "--show-current"@]
}

pub open spec fn get_url_args() -> Seq<Seq<char>> {
    seq!["remote"@, "get-url"@, "origin"@]
}

pub open spec fn porcelain_args() -> Seq<Seq<char>> {
    seq!["status"@, "--porcelain"@]
}

/// A command's outcome with its output dropped.
pub open spec fn as_unit(o: Result<Seq<char>, Seq<char>>) -> Result<(), Seq<char>> {
    match o {
        Ok(_) => Ok(()),
        Err(e) => Err(e),
    }
}

/// Whether the folder is a repository: `git rev-parse --git-dir` succeeds.
pub open spec fn is_repo_step(h: Seq<Result<Seq<char>, Seq<char>>>) -> Step<bool> {
    if h.len() == 0 {
        Step::Run(rev_parse_args())
    } else {
        Step::Done(h[0] is Ok)
    }
}

/// `init`: nothing to do in a repository; otherwise `git init`.
pub open spec fn init_step(h: Seq<Result<Seq<char>, Seq<char>>>) -> Step<Result<(), Seq<char>>> {
    if h.len() == 0 {
        Step::Run(rev_parse_args())
    } else if h[0] is Ok {
        Step::Done(Ok(()))
    } else if h.len() == 1 {
        Step::Run(seq!["init"@])
    } else {
        Step::Done(as_unit(h[1]))
    }
}

/// The status of a folder that is not a repository.
pub open spec fn not_a_repo() -> RepoStatusView {
    RepoStatusView {
        is_repo: false,
        has_remote: false,
        remote_url: None,
        current_branch: None,
        is_clean: false,
    }
}

/// The output of a command, if it succeeded.
pub open spec fn ok_text(o: Result<Seq<char>, Seq<char>>) -> Option<Seq<char>> {
    match o {
        Ok(s) => Some(s),
        Err(_) => None,
    }
}

/// The status of a repository from the outcomes of the branch, remote and
/// porcelain commands: a failed command counts as no branch, no remote and
/// no changes.
pub open spec fn repo_status_from(
    branch: Result<Seq<char>, Seq<char>>,
    remote: Result<Seq<char>, Seq<char>>,
    porcelain: Result<Seq<char>, Seq<char>>,
) -> RepoStatusView {
    RepoStatusView {
        is_repo: true,
        has_remote: remote is Ok,
        remote_url: ok_text(remote),
        current_branch: ok_text(branch),
        is_clean: match porcelain {
            Ok(s) => s.len() == 0,
            Err(_) => true,
        },
    }
}

/// `status`: check for a repository; then ask for the branch, the origin
/// address and the uncommitted changes.
pub open spec fn status_step(h: Seq<Result<Seq<char>, Seq<char>>>) -> Step<
    Result<RepoStatusView, Seq<char>>,
> {
    if h.len() == 0 {
        Step::Run(rev_parse_args())
    } else if h[0] is Err {
        Step::Done(Ok(not_a_repo()))
    } else if h.len() == 1 {
        Step::Run(branch_args())
    } else if h.len() == 2 {
        Step::Run(get_url_args())
    } else if h.len() == 3 {
        Step::Run(porcelain_args())
    } else {
        Step::Done(Ok(repo_status_from(h[1], h[2], h[3])))
    }
}

/// An operation of one command with the given arguments.
pub open spec fn single_step(args: Seq<Seq<char>>, h: Seq<Result<Seq<char>, Seq<char>>>) -> Step<
    Result<(), Seq<char>>,
> {
    if h.len() == 0 {
        Step::Run(args)
    } else {
        Step::Done(as_unit(h[0]))
    }
}

/// `add_remote`: keep an existing origin; otherwise add `url` as origin.
pub open spec fn add_remote_step(url: Seq<char>, h: Seq<Result<Seq<char>, Seq<char>>>) -> Step<
    Result<(), Seq<char>>,
> {
    if h.len() == 0 {
        Step::Run(get_url_args())
    } else if h[0] is Ok {
        Step::Done(Ok(()))
    } else if h.len() == 1 {
        Step::Run(seq!["remote"@, "add"@, "origin"@, url])
    } else {
        Step::Done(as_unit(h[1]))
    }
}

fn argv(parts: Vec<&str>) -> (r: Vec<String>)
    ensures
        r.deep_view() == parts@.map_values(|p: &str| p@),
{
    let mut v: Vec<String> = Vec::new();
    let mut i: usize = 0;
    while i < parts.len()
        invariant
            i <= parts@.len(),
            v.deep_view() == parts@.take(i as int).map_values(|p: &str| p@),
        decreases parts@.len() - i,
    {
        v.push(parts[i].to_string());
        assert(parts@.take(i + 1).map_values(|p: &str| p@) =~= parts@.take(i as int).map_values(
            |p: &str| p@,
        ).push(parts@[i as int]@));
        assert(v.deep_view() =~= parts@.take(i + 1).map_values(|p: &str| p@));
        i = i + 1;
    }
    assert(parts@.take(parts@.len() as int) =~= parts@);
    v
}

fn args1(a: &str) -> (r: Vec<String>)
    ensures
        r.deep_view() == seq![a@],
{
    let mut p: Vec<&str> = Vec::new();
    p.push(a);
    let r = argv(p);
    assert(r.deep_view() =~= seq![a@]);
    r
}

fn args2(a: &str, b: &str) -> (r: Vec<String>)
    ensures
        r.deep_view() == seq![a@, b@],
{
    let mut p: Vec<&str> = Vec::new();
    p.push(a);
    p.push(b);
    let r = argv(p);
    assert(r.deep_view() =~= seq![a@, b@]);
    r
}

fn args3(a: &str, b: &str, c: &str) -> (r: Vec<String>)
    ensures
        r.deep_view() == seq![a@, b@, c@],
{
    let mut p: Vec<&str> = Vec::new();
    p.push(a);
    p.push(b);
    p.push(c);
    let r = argv(p);
    assert(r.deep_view() =~= seq![a@, b@, c@]);
    r
}

fn args4(a: &str, b: &str, c: &str, d: &str) -> (r: Vec<String>)
    ensures
        r.deep_view() == seq![a@, b@, c@, d@],
{
    let mut p: Vec<&str> = Vec::new();
    p.push(a);
    p.push(b);
    p.push(c);
    p.push(d);
    let r = argv(p);
    assert(r.deep_view() =~= seq![a@, b@, c@, d@]);
    r
}

fn unit_of(o: &Result<String, String>) -> (r: Result<(), String>)
    ensures
        unit_view(r) == match o {
            Ok(_) => Ok::<(), Seq<char>>(()),
            Err(e) => Err::<(), Seq<char>>(e@),
        },
{
    match o {
        Ok(_) => Ok(()),
        Err(e) => Err(e.clone()),
    }
}

/// A project folder, on which git commands run.
pub struct GitRepo {
    path: std::path::PathBuf,
}

impl GitRepo {
    /// The repository at `path`.
    pub fn new(path: std::path::PathBuf) -> (r: GitRepo)
        ensures
            r.path_spec() == path,
    {
        GitRepo { path }
    }

    pub closed spec fn path_spec(&self) -> std::path::PathBuf {
        self.path
    }

    /// The folder the commands run in.
    pub fn path(&self) -> (r: &std::path::PathBuf)
        ensures
            *r == self.path_spec(),
    {
        &self.path
    }

    /// Next step of checking whether the folder is a repository, given the
    /// outcomes of the commands run so far.
    pub fn is_git_repo(&self, done: &Vec<Result<String, String>>) -> (r: GitStep<bool>)
        ensures
            step_is(r, is_repo_step(outcomes_view(done@)), |b: bool| b),
    {
        if done.len() == 0 {
            GitStep::Run(args2("rev-parse", "--git-dir"))
        } else {
            GitStep::Finished(done[0].is_ok())
        }
    }

    /// Next step of making the folder a repository.
    pub fn init(&self, done: &Vec<Result<String, String>>) -> (r: GitStep<Result<(), String>>)
        ensures
            step_is(r, init_step(outcomes_view(done@)), |x: Result<(), String>| unit_view(x)),
    {
        if done.len() == 0 {
            GitStep::Run(args2("rev-parse", "--git-dir"))
        } else if done[0].is_ok() {
            GitStep::Finished(Ok(()))
        } else if done.len() == 1 {
            GitStep::Run(args1("init"))
        } else {
            GitStep::Finished(unit_of(&done[1]))
        }
    }

    /// Next step of reading the folder's status.
    pub fn status(&self, done: &Vec<Result<String, String>>) -> (r: GitStep<Result<RepoStatus, String>>)
        ensures
            step_is(
                r,
                status_step(outcomes_view(done@)),
                |x: Result<RepoStatus, String>| status_result_view(x),
            ),
    {
        if done.len() == 0 {
            GitStep::Run(args2("rev-parse", "--git-dir"))
        } else if done[0].is_err() {
            GitStep::Finished(
                Ok(
                    RepoStatus {
                        is_repo: false,
                        has_remote: false,
                        remote_url: None,
                        current_branch: None,
                        is_clean: false,
                    },
                ),
            )
        } else if done.len() == 1 {
            GitStep::Run(args2("branch", "--show-current"))
        } else if done.len() == 2 {
            GitStep::Run(args3("remote", "get-url", "origin"))
        } else if done.len() == 3 {
            GitStep::Run(args2("status", "--porcelain"))
        } else {
            let current_branch = match &done[1] {
                Ok(s) => Some(s.clone()),
                Err(_) => None,
            };
            let remote_url = match &done[2] {
                Ok(s) => Some(s.clone()),
                Err(_) => None,
            };
            let has_remote = remote_url.is_some();
            let is_clean = match &done[3] {
                Ok(s) => s.as_str().is_empty(),
                Err(_) => true,
            };
            GitStep::Finished(
                Ok(RepoStatus { is_repo: true, has_remote, remote_url, current_branch, is_clean }),
            )
        }
    }

    /// Next step of staging every change.
    pub fn add_all(&self, done: &Vec<Result<String, String>>) -> (r: GitStep<Result<(), String>>)
        ensures
            step_is(
                r,
                single_step(seq!["add"@, "."@], outcomes_view(done@)),
                |x: Result<(), String>| unit_view(x),
            ),
    {
        if done.len() == 0 {
            GitStep::Run(args2("add", "."))
        } else {
            GitStep::Finished(unit_of(&done[0]))
        }
    }

    /// Next step of committing with `message`.
    pub fn commit(&self, message: &str, done: &Vec<Result<String, String>>) -> (r: GitStep<
        Result<(), String>,
    >)
        ensures
            step_is(
                r,
                single_step(seq!["commit"@, "-m"@, message@], outcomes_view(done@)),
                |x: Result<(), String>| unit_view(x),
            ),
    {
        if done.len() == 0 {
            GitStep::Run(args3("commit", "-m", message))
        } else {
            GitStep::Finished(unit_of(&done[0]))
        }
    }

    /// Next step of adding `url` as the origin remote, unless there is one.
    pub fn add_remote(&self, url: &str, done: &Vec<Result<String, String>>) -> (r: GitStep<
        Result<(), String>,
    >)
        ensures
            step_is(r, add_remote_step(url@, outcomes_view(done@)), |x: Result<(), String>| unit_view(x)),
    {
        if done.len() == 0 {
            GitStep::Run(args3("remote", "get-url", "origin"))
        } else if done[0].is_ok() {
            GitStep::Finished(Ok(()))
        } else if done.len() == 1 {
            GitStep::Run(args4("remote", "add", "origin", url))
        } else {
            GitStep::Finished(unit_of(&done[1]))
        }
    }

    /// Next step of pushing `branch` to origin and tracking it.
    pub fn push(&self, branch: &str, done: &Vec<Result<String, String>>) -> (r: GitStep<
        Result<(), String>,
    >)
        ensures
            step_is(
                r,
                single_step(seq!["push"@, "-u"@, "origin"@, branch@], outcomes_view(done@)),
                |x: Result<(), String>| unit_view(x),
            ),
    {
        if done.len() == 0 {
            GitStep::Run(args4("push", "-u", "origin", branch))
        } else {
            GitStep::Finished(unit_of(&done[0]))
        }
    }
}

/// Every operation ends after at most four commands, whatever they give.
pub proof fn operations_end_within_four_commands(h: Seq<Result<Seq<char>, Seq<char>>>, url: Seq<char>, args: Seq<Seq<char>>)
    requires
        h.len() >= 4,
    ensures
        is_repo_step(h) is Done,
        init_step(h) is Done,
        status_step(h) is Done,
        single_step(args, h) is Done,
        add_remote_step(url, h) is Done,
{
}

/// In a repository, `init` runs no command beyond the check, and
/// `add_remote` leaves an existing origin alone: both are done after their
/// first command when it succeeds.
pub proof fn existing_state_is_kept(first: Seq<char>, url: Seq<char>)
    ensures
        init_step(seq![Ok::<Seq<char>, Seq<char>>(first)]) == Step::<Result<(), Seq<char>>>::Done(Ok(())),
        add_remote_step(url, seq![Ok::<Seq<char>, Seq<char>>(first)]) == Step::<Result<(), Seq<char>>>::Done(
            Ok(()),
        ),
{
}

/// A folder that is not a repository reports no remote, no branch, and not
/// clean, without running anything more.
pub proof fn non_repository_status(err: Seq<char>)
    ensures
        status_step(seq![Err::<Seq<char>, Seq<char>>(err)]) == Step::<Result<RepoStatusView, Seq<char>>>::Done(
            Ok(not_a_repo()),
        ),
{
}

/// The language that a file at the top of a project indicates.
pub open spec fn language_for_file_spec(name: Seq<char>) -> Option<Seq<char>> {
    if name == "Cargo.toml"@ {
        Some("Rust"@)
    } else if name == "package.json"@ {
        Some("Node.js"@)
    } else if name == "requirements.txt"@ {
        Some("Python"@)
    } else if name == "go.mod"@ {
        Some("Go"@)
    } else if name == "pom.xml"@ {
        Some("Java (Maven)"@)
    } else if name == "build.gradle"@ {
        Some("Java (Gradle)"@)
    } else if name == "CMakeLists.txt"@ {
        Some("C++"@)
    } else if name == "Dockerfile"@ {
        Some("Docker"@)
    } else {
        None
    }
}

/// The languages that a list of file names indicates, in the order of the
/// files, one per indicating file.
pub open spec fn detect_spec(names: Seq<Seq<char>>) -> Seq<Seq<char>>
    decreases names.len(),
{
    if names.len() == 0 {
        Seq::empty()
    } else {
        let rest = detect_spec(names.drop_last());
        match language_for_file_spec(names.last()) {
            Some(l) => rest.push(l),
            None => rest,
        }
    }
}

/// The language that a file name indicates.
pub fn language_for_file(name: &str) -> (r: Option<&'static str>)
    ensures
        match r {
            Some(l) => language_for_file_spec(name@) == Some(l@),
            None => language_for_file_spec(name@) is None,
        },
{
    if str_eq(name, "Cargo.toml") {
        Some("Rust")
    } else if str_eq(name, "package.json") {
        Some("Node.js")
    } else if str_eq(name, "requirements.txt") {
        Some("Python")
    } else if str_eq(name, "go.mod") {
        Some("Go")
    } else if str_eq(name, "pom.xml") {
        Some("Java (Maven)")
    } else if str_eq(name, "build.gradle") {
        Some("Java (Gradle)")
    } else if str_eq(name, "CMakeLists.txt") {
        Some("C++")
    } else if str_eq(name, "Dockerfile") {
        Some("Docker")
    } else {
        None
    }
}

impl GitRepo {
    /// The languages that the names of the files in the project folder
    /// indicate.
    pub fn detect_language(&self, file_names: &Vec<String>) -> (r: Vec<String>)
        ensures
            r.deep_view() == detect_spec(file_names.deep_view()),
    {
        let mut detected: Vec<String> = Vec::new();
        let mut i: usize = 0;
        while i < file_names.len()
            invariant
                i <= file_names@.len(),
                detected.deep_view() == detect_spec(file_names.deep_view().take(i as int)),
            decreases file_names@.len() - i,
        {
            assert(file_names.deep_view().take(i + 1).drop_last() =~= file_names.deep_view().take(
                i as int,
            ));
            match language_for_file(file_names[i].as_str()) {
                Some(l) => {
                    detected.push(l.to_string());
                    assert(detected.deep_view() =~= detect_spec(file_names.deep_view().take(i + 1)));
                },
                None => {},
            }
            i = i + 1;
        }
        assert(file_names.deep_view().take(file_names@.len() as int) =~= file_names.deep_view());
        detected
    }
}

/// Whether `c` separates the pieces of a remote address.
pub open spec fn is_remote_sep(c: char) -> bool {
    c == '/' || c == ':'
}

/// Index of the last `/` or `:` in `s`, or `-1`.
pub open spec fn last_sep(s: Seq<char>) -> int
    decreases s.len(),
{
    if s.len() == 0 {
        -1
    } else if is_remote_sep(s.last()) {
        s.len() - 1
    } else {
        last_sep(s.drop_last())
    }
}

/// `s` without a trailing `.git`.
pub open spec fn strip_git_suffix(s: Seq<char>) -> Seq<char> {
    if s.len() >= 4 && s.subrange(s.len() - 4, s.len() as int) == ".git"@ {
        s.take(s.len() - 4)
    } else {
        s
    }
}

/// The owner and name of the repository that a remote address names: after
/// dropping a trailing `.git`, the name is the last piece between `/` or
/// `:` separators and the owner the piece before it. A piece that is
/// missing or empty is `None`.
pub open spec fn remote_parts(url: Seq<char>) -> (Option<Seq<char>>, Option<Seq<char>>) {
    let s = strip_git_suffix(url);
    let k = last_sep(s);
    let name = s.subrange(k + 1, s.len() as int);
    let rest = if k >= 0 {
        s.take(k)
    } else {
        Seq::empty()
    };
    let owner = rest.subrange(last_sep(rest) + 1, rest.len() as int);
    (
        if k >= 0 && owner.len() > 0 {
            Some(owner)
        } else {
            None
        },
        if name.len() > 0 {
            Some(name)
        } else {
            None
        },
    )
}

fn last_sep_index(s: &str) -> (r: (bool, usize, usize))
    ensures
        r.2 == s@.len(),
        r.0 ==> r.1 < s@.len() && last_sep(s@) == r.1,
        !r.0 ==> last_sep(s@) == -1,
{
    let mut last: usize = 0;
    let mut found = false;
    let mut n: usize = 0;
    let char_len: usize = s.unicode_len();
    for x in it: s.chars()
        invariant
            it.seq() == s@,
            n == it.index(),
            char_len == s@.len(),
            found ==> last < n,
            (if found {
                last as int
            } else {
                -1
            }) == last_sep(s@.take(n as int)),
    {
        assert(s@.take(n + 1).drop_last() == s@.take(n as int));
        if x == '/' || x == ':' {
            last = n;
            found = true;
        }
        n = n + 1;
    }
    assert(s@.take(n as int) == s@);
    (found, last, n)
}

/// The owner and name of the repository that remote address `url` names.
pub fn parse_remote(url: &str) -> (r: (Option<String>, Option<String>))
    ensures
        (opt_string_view(r.0), opt_string_view(r.1)) == remote_parts(url@),
{
    let n: usize = url.unicode_len();
    let s: &str = if n >= 4 && str_eq(url.substring_char(n - 4, n), ".git") {
        url.substring_char(0, n - 4)
    } else {
        url
    };
    assert(s@ == strip_git_suffix(url@));
    let (found, k, len): (bool, usize, usize) = last_sep_index(s);
    let name = if found {
        s.substring_char(k + 1, len)
    } else {
        s.substring_char(0, len)
    };
    let owner: Option<String> = if found {
        let rest = s.substring_char(0, k);
        let (rf, rk, rlen): (bool, usize, usize) = last_sep_index(rest);
        let o = if rf {
            rest.substring_char(rk + 1, rlen)
        } else {
            rest.substring_char(0, rlen)
        };
        if o.unicode_len() > 0 {
            Some(o.to_string())
        } else {
            None
        }
    } else {
        None
    };
    assert(s@.subrange(0, len as int) == s@);
    let name_opt = if name.unicode_len() > 0 {
        Some(name.to_string())
    } else {
        None
    };
    (owner, name_opt)
}

/// Views of optional text.
pub open spec fn opt_string_view(o: Option<String>) -> Option<Seq<char>> {
    match o {
        Some(s) => Some(s@),
        None => None,
    }
}

} // verus!
