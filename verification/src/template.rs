//! The GitHub Actions workflow files that the tool writes into a project.
use vstd::prelude::*;
use crate::text::str_eq;

verus! {

/// The trigger section that every generated workflow starts with: pushes
/// and pull requests on `main`, and manual dispatch.
pub const TRIGGERS: &'static str = r#"name: Build

on:
  push:
    branches: [ main ]
  pull_request:
    branches: [ main ]
  workflow_dispatch:

"#;


/// The Rust workflow text after the trigger section, up to the project name.
pub const RUST_BEFORE_NAME: &'static str = r#"env:
  CARGO_TERM_COLOR: always

jobs:
  build:
    runs-on: ubuntu-latest
    strategy:
      matrix:
        target: [x86_64-unknown-linux-gnu, x86_64-pc-windows-gnu, x86_64-apple-darwin]
    steps:
    - uses: actions/checkout@v4
    - name: Install Rust
      uses: actions-rs/toolchain@v1
      with:
        toolchain: stable
        target: ${{ matrix.target }}
        override: true
    - name: Build
      run: cargo build --release --target ${{ matrix.target }}
    - name: Upload artifacts
      uses: actions/upload-artifact@v4
      with:
        name: "#;

/// The Rust workflow text after the project name.
pub const RUST_AFTER_NAME: &'static str = r#"-${{ matrix.target }}
        path: target/${{ matrix.target }}/release/*

"#;


/// The Node workflow text after the trigger section, up to the project name.
pub const NODE_BEFORE_NAME: &'static str = r#"jobs:
  build:
    runs-on: ubuntu-latest
    strategy:
      matrix:
        node-version: [20.x, 22.x]
    steps:
    - uses: actions/checkout@v4
    - name: Use Node.js ${{ matrix.node-version }}
      uses: actions/setup-node@v4
      with:
        node-version: ${{ matrix.node-version }}
        cache: 'npm'
    - run: npm ci
    - run: npm run build --if-present
    - name: Upload artifacts
      uses: actions/upload-artifact@v4
      with:
        name: "#;

/// The Node workflow text after the project name.
pub const NODE_AFTER_NAME: &'static str = r#"-${{ matrix.node-version }}
        path: dist/

"#;


/// The Python workflow text after the trigger section, up to the project name.
pub const PYTHON_BEFORE_NAME: &'static str = r#"jobs:
  build:
    runs-on: ubuntu-latest
    strategy:
      matrix:
        python-version: ['3.9', '3.10', '3.11']
    steps:
    - uses: actions/checkout@v4
    - name: Set up Python ${{ matrix.python-version }}
      uses: actions/setup-python@v5
      with:
        python-version: ${{ matrix.python-version }}
    - name: Install dependencies
      run: |
        python -m pip install --upgrade pip
        pip install -r requirements.txt
    - name: Build
      run: python setup.py build
    - name: Upload artifacts
      uses: actions/upload-artifact@v4
      with:
        name: "#;

/// The Python workflow text after the project name.
pub const PYTHON_AFTER_NAME: &'static str = r#"-${{ matrix.python-version }}
        path: build/

"#;


/// The Go workflow text after the trigger section, up to the project name.
pub const GO_BEFORE_NAME: &'static str = r#"jobs:
  build:
    runs-on: ubuntu-latest
    strategy:
      matrix:
        go-version: [1.21.x, 1.22.x]
    steps:
    - uses: actions/checkout@v4
    - name: Set up Go
      uses: actions/setup-go@v5
      with:
        go-version: ${{ matrix.go-version }}
    - name: Build
      run: go build -v ./...
    - name: Upload artifacts
      uses: actions/upload-artifact@v4
      with:
        name: "#;

/// The Go workflow text after the project name.
pub const GO_AFTER_NAME: &'static str = r#"-${{ matrix.go-version }}
        path: ./

"#;


/// The Plain workflow text after the trigger section, up to the project name.
pub const PLAIN_BEFORE_NAME: &'static str = r#"jobs:
  build:
    runs-on: ubuntu-latest
    steps:
    - uses: actions/checkout@v4
    - name: Build
      run: echo "No build script configured"
    - name: Upload artifacts
      uses: actions/upload-artifact@v4
      with:
        name: "#;

/// The Plain workflow text after the project name.
pub const PLAIN_AFTER_NAME: &'static str = r#"
        path: .

"#;

/// The workflow shapes that `generate` chooses between.
#[derive(PartialEq, Eq, Structural, Debug, Clone, Copy)]
pub enum TemplateKind {
    Rust,
    Node,
    Python,
    Go,
    Plain,
}

/// Which workflow a language name selects; names other than the four
/// known ones get the plain workflow.
pub open spec fn template_kind(language: Seq<char>) -> TemplateKind {
    if language == "Rust"@ {
        TemplateKind::Rust
    } else if language == "Node.js"@ {
        TemplateKind::Node
    } else if language == "Python"@ {
        TemplateKind::Python
    } else if language == "Go"@ {
        TemplateKind::Go
    } else {
        TemplateKind::Plain
    }
}

pub open spec fn before_name(kind: TemplateKind) -> Seq<char> {
    match kind {
        TemplateKind::Rust => RUST_BEFORE_NAME@,
        TemplateKind::Node => NODE_BEFORE_NAME@,
        TemplateKind::Python => PYTHON_BEFORE_NAME@,
        TemplateKind::Go => GO_BEFORE_NAME@,
        TemplateKind::Plain => PLAIN_BEFORE_NAME@,
    }
}

pub open spec fn after_name(kind: TemplateKind) -> Seq<char> {
    match kind {
        TemplateKind::Rust => RUST_AFTER_NAME@,
        TemplateKind::Node => NODE_AFTER_NAME@,
        TemplateKind::Python => PYTHON_AFTER_NAME@,
        TemplateKind::Go => GO_AFTER_NAME@,
        TemplateKind::Plain => PLAIN_AFTER_NAME@,
    }
}

/// The workflow file of the given shape for a project called `name`.
pub open spec fn template_text(kind: TemplateKind, name: Seq<char>) -> Seq<char> {
    TRIGGERS@ + before_name(kind) + name + after_name(kind)
}

/// The workflow file that `generate` writes.
pub open spec fn generate_spec(language: Seq<char>, name: Seq<char>) -> Seq<char> {
    template_text(template_kind(language), name)
}

/// Builds workflow files.
pub struct WorkflowTemplate;

impl WorkflowTemplate {
    /// The workflow file for a project in `language` called `project_name`.
    pub fn generate(language: &str, project_name: &str) -> (r: String)
        ensures
            r@ == generate_spec(language@, project_name@),
    {
        if str_eq(language, "Rust") {
            Self::rust_template(project_name)
        } else if str_eq(language, "Node.js") {
            Self::node_template(project_name)
        } else if str_eq(language, "Python") {
            Self::python_template(project_name)
        } else if str_eq(language, "Go") {
            Self::go_template(project_name)
        } else {
            Self::default_template(project_name)
        }
    }

    fn fill(before: &str, name: &str, after: &str) -> (r: String)
        ensures
            r@ == TRIGGERS@ + before@ + name@ + after@,
    {
        let mut s = TRIGGERS.to_string();
        s.append(before);
        s.append(name);
        s.append(after);
        s
    }

    fn rust_template(name: &str) -> (r: String)
        ensures
            r@ == template_text(TemplateKind::Rust, name@),
    {
        Self::fill(RUST_BEFORE_NAME, name, RUST_AFTER_NAME)
    }

    fn node_template(name: &str) -> (r: String)
        ensures
            r@ == template_text(TemplateKind::Node, name@),
    {
        Self::fill(NODE_BEFORE_NAME, name, NODE_AFTER_NAME)
    }

    fn python_template(name: &str) -> (r: String)
        ensures
            r@ == template_text(TemplateKind::Python, name@),
    {
        Self::fill(PYTHON_BEFORE_NAME, name, PYTHON_AFTER_NAME)
    }

    fn go_template(name: &str) -> (r: String)
        ensures
            r@ == template_text(TemplateKind::Go, name@),
    {
        Self::fill(GO_BEFORE_NAME, name, GO_AFTER_NAME)
    }

    fn default_template(name: &str) -> (r: String)
        ensures
            r@ == template_text(TemplateKind::Plain, name@),
    {
        Self::fill(PLAIN_BEFORE_NAME, name, PLAIN_AFTER_NAME)
    }
}

/// Every generated workflow starts with the trigger section, and that
/// section lets the workflow be started by a dispatch request.
pub proof fn generated_workflows_accept_dispatch(language: Seq<char>, name: Seq<char>)
    ensures
        generate_spec(language, name).take(TRIGGERS@.len() as int) == TRIGGERS@,
        crate::text::contains_seq(TRIGGERS@, "workflow_dispatch:"@),
{
    let k = template_kind(language);
    assert((TRIGGERS@ + before_name(k) + name + after_name(k)).take(TRIGGERS@.len() as int)
        =~= TRIGGERS@);
    reveal_strlit("workflow_dispatch:");
    reveal_strlit(r#"name: Build

on:
  push:
    branches: [ main ]
  pull_request:
    branches: [ main ]
  workflow_dispatch:

"#);
    assert(TRIGGERS@ == r#"name: Build

on:
  push:
    branches: [ main ]
  pull_request:
    branches: [ main ]
  workflow_dispatch:

"#@);
    assert(TRIGGERS@.subrange(89int, 107int) =~= "workflow_dispatch:"@);
    assert(TRIGGERS@.subrange(89int, 89int + "workflow_dispatch:"@.len()) == "workflow_dispatch:"@);
}

/// The project name appears in the generated workflow, right after the
/// language-specific text that precedes it.
pub proof fn generated_workflow_names_project(language: Seq<char>, name: Seq<char>)
    ensures
        ({
            let at: int = (TRIGGERS@.len() + before_name(template_kind(language)).len()) as int;
            generate_spec(language, name).subrange(at, at + name.len()) == name
        }),
        crate::text::contains_seq(generate_spec(language, name), name),
{
    let k = template_kind(language);
    let at: int = (TRIGGERS@.len() + before_name(k).len()) as int;
    let whole = TRIGGERS@ + before_name(k) + name + after_name(k);
    assert(whole.subrange(at, at + name.len()) =~= name);
}

/// `pat` stands in `s` at position `i`.
pub open spec fn occurs_at(s: Seq<char>, pat: Seq<char>, i: int) -> bool {
    0 <= i && i + pat.len() <= s.len() && s.subrange(i, i + pat.len()) == pat
}

/// The step that fetches the repository's files into the build machine.
pub open spec fn checkout_step() -> Seq<char> {
    "- uses: actions/checkout@v4"@
}

/// The step that uploads what the build made.
pub open spec fn upload_step() -> Seq<char> {
    "uses: actions/upload-artifact@v4"@
}

/// The step that installs the language's tools, if the workflow has one.
pub open spec fn setup_step(kind: TemplateKind) -> Option<Seq<char>> {
    match kind {
        TemplateKind::Rust => Some("uses: actions-rs/toolchain@v1"@),
        TemplateKind::Node => Some("uses: actions/setup-node@v4"@),
        TemplateKind::Python => Some("uses: actions/setup-python@v5"@),
        TemplateKind::Go => Some("uses: actions/setup-go@v5"@),
        TemplateKind::Plain => None,
    }
}

/// The command that builds the project.
pub open spec fn build_step(kind: TemplateKind) -> Seq<char> {
    match kind {
        TemplateKind::Rust => "run: cargo build --release --target ${{ matrix.target }}"@,
        TemplateKind::Node => "- run: npm run build --if-present"@,
        TemplateKind::Python => "run: python setup.py build"@,
        TemplateKind::Go => "run: go build -v ./..."@,
        TemplateKind::Plain => r#"run: echo "No build script configured""#@,
    }
}

/// The steps of a workflow text, in the order in which a job runs them:
/// checkout at `i`, the tool setup (if any) at `j`, the build at `k` and
/// the upload at `m`.
pub open spec fn steps_at(s: Seq<char>, kind: TemplateKind, i: int, j: int, k: int, m: int) -> bool {
    &&& i < j < k < m
    &&& occurs_at(s, checkout_step(), i)
    &&& (setup_step(kind) matches Some(st) ==> occurs_at(s, st, j))
    &&& occurs_at(s, build_step(kind), k)
    &&& occurs_at(s, upload_step(), m)
}

proof fn occurs_in_template(kind: TemplateKind, name: Seq<char>, pat: Seq<char>, i: int)
    requires
        occurs_at(before_name(kind), pat, i),
    ensures
        occurs_at(template_text(kind, name), pat, TRIGGERS@.len() + i),
{
    let s = template_text(kind, name);
    let at = TRIGGERS@.len() + i;
    assert(s.subrange(at, at + pat.len()) =~= before_name(kind).subrange(i, i + pat.len()));
}

proof fn rust_steps()
    ensures
        steps_at(before_name(TemplateKind::Rust), TemplateKind::Rust, 205, 264, 416, 508),
{
    reveal_strlit(r#"env:
  CARGO_TERM_COLOR: always

jobs:
  build:
    runs-on: ubuntu-latest
    strategy:
      matrix:
        target: [x86_64-unknown-linux-gnu, x86_64-pc-windows-gnu, x86_64-apple-darwin]
    steps:
    - uses: actions/checkout@v4
    - name: Install Rust
      uses: actions-rs/toolchain@v1
      with:
        toolchain: stable
        target: ${{ matrix.target }}
        override: true
    - name: Build
      run: cargo build --release --target ${{ matrix.target }}
    - name: Upload artifacts
      uses: actions/upload-artifact@v4
      with:
        name: "#);
    assert(RUST_BEFORE_NAME@ == r#"env:
  CARGO_TERM_COLOR: always

jobs:
  build:
    runs-on: ubuntu-latest
    strategy:
      matrix:
        target: [x86_64-unknown-linux-gnu, x86_64-pc-windows-gnu, x86_64-apple-darwin]
    steps:
    - uses: actions/checkout@v4
    - name: Install Rust
      uses: actions-rs/toolchain@v1
      with:
        toolchain: stable
        target: ${{ matrix.target }}
        override: true
    - name: Build
      run: cargo build --release --target ${{ matrix.target }}
    - name: Upload artifacts
      uses: actions/upload-artifact@v4
      with:
        name: "#@);
    reveal_strlit("- uses: actions/checkout@v4");
    assert(RUST_BEFORE_NAME@.subrange(205, 232) =~= "- uses: actions/checkout@v4"@);
    reveal_strlit("run: cargo build --release --target ${{ matrix.target }}");
    assert(RUST_BEFORE_NAME@.subrange(416, 472) =~= "run: cargo build --release --target ${{ matrix.target }}"@);
    reveal_strlit("uses: actions/upload-artifact@v4");
    assert(RUST_BEFORE_NAME@.subrange(508, 540) =~= "uses: actions/upload-artifact@v4"@);
    reveal_strlit("uses: actions-rs/toolchain@v1");
    assert(RUST_BEFORE_NAME@.subrange(264, 293) =~= "uses: actions-rs/toolchain@v1"@);
}

proof fn node_steps()
    ensures
        steps_at(before_name(TemplateKind::Node), TemplateKind::Node, 120, 205, 337, 406),
{
    reveal_strlit(r#"jobs:
  build:
    runs-on: ubuntu-latest
    strategy:
      matrix:
        node-version: [20.x, 22.x]
    steps:
    - uses: actions/checkout@v4
    - name: Use Node.js ${{ matrix.node-version }}
      uses: actions/setup-node@v4
      with:
        node-version: ${{ matrix.node-version }}
        cache: 'npm'
    - run: npm ci
    - run: npm run build --if-present
    - name: Upload artifacts
      uses: actions/upload-artifact@v4
      with:
        name: "#);
    assert(NODE_BEFORE_NAME@ == r#"jobs:
  build:
    runs-on: ubuntu-latest
    strategy:
      matrix:
        node-version: [20.x, 22.x]
    steps:
    - uses: actions/checkout@v4
    - name: Use Node.js ${{ matrix.node-version }}
      uses: actions/setup-node@v4
      with:
        node-version: ${{ matrix.node-version }}
        cache: 'npm'
    - run: npm ci
    - run: npm run build --if-present
    - name: Upload artifacts
      uses: actions/upload-artifact@v4
      with:
        name: "#@);
    reveal_strlit("- uses: actions/checkout@v4");
    assert(NODE_BEFORE_NAME@.subrange(120, 147) =~= "- uses: actions/checkout@v4"@);
    reveal_strlit("- run: npm run build --if-present");
    assert(NODE_BEFORE_NAME@.subrange(337, 370) =~= "- run: npm run build --if-present"@);
    reveal_strlit("uses: actions/upload-artifact@v4");
    assert(NODE_BEFORE_NAME@.subrange(406, 438) =~= "uses: actions/upload-artifact@v4"@);
    reveal_strlit("uses: actions/setup-node@v4");
    assert(NODE_BEFORE_NAME@.subrange(205, 232) =~= "uses: actions/setup-node@v4"@);
}

proof fn python_steps()
    ensures
        steps_at(before_name(TemplateKind::Python), TemplateKind::Python, 133, 222, 471, 533),
{
    reveal_strlit(r#"jobs:
  build:
    runs-on: ubuntu-latest
    strategy:
      matrix:
        python-version: ['3.9', '3.10', '3.11']
    steps:
    - uses: actions/checkout@v4
    - name: Set up Python ${{ matrix.python-version }}
      uses: actions/setup-python@v5
      with:
        python-version: ${{ matrix.python-version }}
    - name: Install dependencies
      run: |
        python -m pip install --upgrade pip
        pip install -r requirements.txt
    - name: Build
      run: python setup.py build
    - name: Upload artifacts
      uses: actions/upload-artifact@v4
      with:
        name: "#);
    assert(PYTHON_BEFORE_NAME@ == r#"jobs:
  build:
    runs-on: ubuntu-latest
    strategy:
      matrix:
        python-version: ['3.9', '3.10', '3.11']
    steps:
    - uses: actions/checkout@v4
    - name: Set up Python ${{ matrix.python-version }}
      uses: actions/setup-python@v5
      with:
        python-version: ${{ matrix.python-version }}
    - name: Install dependencies
      run: |
        python -m pip install --upgrade pip
        pip install -r requirements.txt
    - name: Build
      run: python setup.py build
    - name: Upload artifacts
      uses: actions/upload-artifact@v4
      with:
        name: "#@);
    reveal_strlit("- uses: actions/checkout@v4");
    assert(PYTHON_BEFORE_NAME@.subrange(133, 160) =~= "- uses: actions/checkout@v4"@);
    reveal_strlit("run: python setup.py build");
    assert(PYTHON_BEFORE_NAME@.subrange(471, 497) =~= "run: python setup.py build"@);
    reveal_strlit("uses: actions/upload-artifact@v4");
    assert(PYTHON_BEFORE_NAME@.subrange(533, 565) =~= "uses: actions/upload-artifact@v4"@);
    reveal_strlit("uses: actions/setup-python@v5");
    assert(PYTHON_BEFORE_NAME@.subrange(222, 251) =~= "uses: actions/setup-python@v5"@);
}

proof fn go_steps()
    ensures
        steps_at(before_name(TemplateKind::Go), TemplateKind::Go, 122, 178, 285, 343),
{
    reveal_strlit(r#"jobs:
  build:
    runs-on: ubuntu-latest
    strategy:
      matrix:
        go-version: [1.21.x, 1.22.x]
    steps:
    - uses: actions/checkout@v4
    - name: Set up Go
      uses: actions/setup-go@v5
      with:
        go-version: ${{ matrix.go-version }}
    - name: Build
      run: go build -v ./...
    - name: Upload artifacts
      uses: actions/upload-artifact@v4
      with:
        name: "#);
    assert(GO_BEFORE_NAME@ == r#"jobs:
  build:
    runs-on: ubuntu-latest
    strategy:
      matrix:
        go-version: [1.21.x, 1.22.x]
    steps:
    - uses: actions/checkout@v4
    - name: Set up Go
      uses: actions/setup-go@v5
      with:
        go-version: ${{ matrix.go-version }}
    - name: Build
      run: go build -v ./...
    - name: Upload artifacts
      uses: actions/upload-artifact@v4
      with:
        name: "#@);
    reveal_strlit("- uses: actions/checkout@v4");
    assert(GO_BEFORE_NAME@.subrange(122, 149) =~= "- uses: actions/checkout@v4"@);
    reveal_strlit("run: go build -v ./...");
    assert(GO_BEFORE_NAME@.subrange(285, 307) =~= "run: go build -v ./..."@);
    reveal_strlit("uses: actions/upload-artifact@v4");
    assert(GO_BEFORE_NAME@.subrange(343, 375) =~= "uses: actions/upload-artifact@v4"@);
    reveal_strlit("uses: actions/setup-go@v5");
    assert(GO_BEFORE_NAME@.subrange(178, 203) =~= "uses: actions/setup-go@v5"@);
}

proof fn plain_steps()
    ensures
        steps_at(before_name(TemplateKind::Plain), TemplateKind::Plain, 57, 58, 109, 183),
{
    reveal_strlit(r#"jobs:
  build:
    runs-on: ubuntu-latest
    steps:
    - uses: actions/checkout@v4
    - name: Build
      run: echo "No build script configured"
    - name: Upload artifacts
      uses: actions/upload-artifact@v4
      with:
        name: "#);
    assert(PLAIN_BEFORE_NAME@ == r#"jobs:
  build:
    runs-on: ubuntu-latest
    steps:
    - uses: actions/checkout@v4
    - name: Build
      run: echo "No build script configured"
    - name: Upload artifacts
      uses: actions/upload-artifact@v4
      with:
        name: "#@);
    reveal_strlit("- uses: actions/checkout@v4");
    assert(PLAIN_BEFORE_NAME@.subrange(57, 84) =~= "- uses: actions/checkout@v4"@);
    reveal_strlit(r#"run: echo "No build script configured""#);
    assert(PLAIN_BEFORE_NAME@.subrange(109, 147) =~= r#"run: echo "No build script configured""#@);
    reveal_strlit("uses: actions/upload-artifact@v4");
    assert(PLAIN_BEFORE_NAME@.subrange(183, 215) =~= "uses: actions/upload-artifact@v4"@);
}

/// Every generated workflow checks the repository out first, then installs
/// the language's tools (when it has any), then builds the project, then
/// uploads the result: whatever the language and the project name.
pub proof fn generated_workflows_build_in_order(language: Seq<char>, name: Seq<char>)
    ensures
        exists|i: int, j: int, k: int, m: int|
            #[trigger] steps_at(generate_spec(language, name), template_kind(language), i, j, k, m),
{
    let kind = template_kind(language);
    let (i, j, k, m) = match kind {
        TemplateKind::Rust => { rust_steps(); (205int, 264int, 416int, 508int) },
        TemplateKind::Node => { node_steps(); (120int, 205int, 337int, 406int) },
        TemplateKind::Python => { python_steps(); (133int, 222int, 471int, 533int) },
        TemplateKind::Go => { go_steps(); (122int, 178int, 285int, 343int) },
        TemplateKind::Plain => { plain_steps(); (57int, 58int, 109int, 183int) },
    };
    let t = TRIGGERS@.len() as int;
    occurs_in_template(kind, name, checkout_step(), i);
    if let Some(st) = setup_step(kind) {
        occurs_in_template(kind, name, st, j);
    }
    occurs_in_template(kind, name, build_step(kind), k);
    occurs_in_template(kind, name, upload_step(), m);
    assert(steps_at(generate_spec(language, name), kind, t + i, t + j, t + k, t + m));
}

} // verus!
