use wogaer::template::WorkflowTemplate;

const TRIGGERS: &str = "name: Build\n\non:\n  push:\n    branches: [ main ]\n  pull_request:\n    branches: [ main ]\n  workflow_dispatch:\n\n";

#[test]
fn default_template_is_exact() {
    let got = WorkflowTemplate::generate("Haskell", "demo");
    let expected = format!(
        "{}jobs:\n  build:\n    runs-on: ubuntu-latest\n    steps:\n    - uses: actions/checkout@v4\n    - name: Build\n      run: echo \"No build script configured\"\n    - name: Upload artifacts\n      uses: actions/upload-artifact@v4\n      with:\n        name: demo\n        path: .\n\n",
        TRIGGERS
    );
    assert_eq!(got, expected);
}

#[test]
fn rust_template_builds_each_target() {
    let got = WorkflowTemplate::generate("Rust", "tool");
    assert!(got.starts_with(TRIGGERS));
    assert!(got.contains("env:\n  CARGO_TERM_COLOR: always\n"));
    assert!(got.contains("run: cargo build --release --target ${{ matrix.target }}"));
    assert!(got.contains("        name: tool-${{ matrix.target }}\n"));
    assert!(got.ends_with("path: target/${{ matrix.target }}/release/*\n\n"));
}

#[test]
fn node_python_go_templates() {
    let node = WorkflowTemplate::generate("Node.js", "web");
    assert!(node.contains("- run: npm ci\n"));
    assert!(node.contains("name: web-${{ matrix.node-version }}"));
    let py = WorkflowTemplate::generate("Python", "lib");
    assert!(py.contains("pip install -r requirements.txt"));
    assert!(py.contains("name: lib-${{ matrix.python-version }}"));
    let go = WorkflowTemplate::generate("Go", "svc");
    assert!(go.contains("run: go build -v ./..."));
    assert!(go.contains("name: svc-${{ matrix.go-version }}"));
}

#[test]
fn language_names_are_matched_exactly() {
    let lower = WorkflowTemplate::generate("rust", "x");
    let plain = WorkflowTemplate::generate("Other", "x");
    assert_eq!(lower, plain);
    let java = WorkflowTemplate::generate("Java (Maven)", "x");
    assert_eq!(java, plain);
}

#[test]
fn every_workflow_accepts_dispatch_and_names_project() {
    for lang in ["Rust", "Node.js", "Python", "Go", "Docker", ""] {
        let w = WorkflowTemplate::generate(lang, "my-project");
        assert!(w.starts_with(TRIGGERS));
        assert!(w.contains("workflow_dispatch:"));
        assert!(w.contains("my-project"));
    }
}
