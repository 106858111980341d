use dep_expand::{cargo_binary, classify, is_missing_workspace, BuildOutput, ExpandError, Expander};

fn strs(v: &[&str]) -> Vec<String> {
    v.iter().map(|s| s.to_string()).collect()
}

#[test]
fn default_build_args() {
    let args = Expander::default().build_args("/p/Cargo.toml", "/t/expanded");
    assert_eq!(
        args,
        strs(&[
            "rustc",
            "--profile=check",
            "--lib",
            "--manifest-path",
            "/p/Cargo.toml",
            "--",
            "-o",
            "/t/expanded",
            "-Zunstable-options",
            "--pretty=expanded",
        ])
    );
}

#[test]
fn full_build_args() {
    let e = Expander::default()
        .with_tests()
        .with_release()
        .add_feature("a")
        .add_feature("b")
        .with_all_features()
        .with_no_default_features()
        .add_unstable_flag("x")
        .add_unstable_flag("y");
    let args = e.build_args("m", "o");
    assert_eq!(
        args,
        strs(&[
            "rustc",
            "--profile=test",
            "--release",
            "--features",
            "a b",
            "--all-features",
            "--no-default-features",
            "--lib",
            "--manifest-path",
            "m",
            "-Z",
            "x",
            "-Z",
            "y",
            "--",
            "-o",
            "o",
            "-Zunstable-options",
            "--pretty=expanded",
        ])
    );
}

#[test]
fn build_tool_override() {
    assert_eq!(cargo_binary(None), "cargo");
    assert_eq!(cargo_binary(Some("/bin/mycargo".to_string())), "/bin/mycargo");
}

#[test]
fn metadata_manifest_choice() {
    let e = Expander::default();
    assert_eq!(e.metadata_manifest(Some("/proj".to_string())), "/proj/Cargo.toml");
    let e = e.with_manifest("/x/Cargo.toml");
    assert_eq!(e.metadata_manifest(Some("/proj".to_string())), "/x/Cargo.toml");
    assert_eq!(e.metadata_manifest(None), "/x/Cargo.toml");
}

const SIG: &str = "error: failed to parse manifest at `/r/foo/Cargo.toml`\n\nCaused by:\n  virtual manifests must be configured with [workspace]\n  \n";

#[test]
fn missing_workspace_signature() {
    assert!(is_missing_workspace(SIG));
    assert!(is_missing_workspace(
        "error: failed to parse manifest at x virtual manifests must be configured with [workspace]"
    ));
    assert!(!is_missing_workspace("warning: error: failed to parse manifest at x virtual manifests must be configured with [workspace]"));
    assert!(!is_missing_workspace("error: failed to parse manifest at x\nsomething else\n"));
    assert!(!is_missing_workspace(""));
}

#[test]
fn classify_outcomes() {
    let ok = BuildOutput { stderr: "warning: x\n".to_string(), content: Ok("fn a() {}".to_string()) };
    assert_eq!(classify(ok), Ok("fn a() {}".to_string()));
    let empty = BuildOutput { stderr: String::new(), content: Ok(String::new()) };
    assert_eq!(classify(empty), Err(ExpandError::EmptyOutput));
    let unread = BuildOutput { stderr: String::new(), content: Err("no such file".to_string()) };
    assert_eq!(classify(unread), Err(ExpandError::IoError("no such file".to_string())));
    let sig = BuildOutput { stderr: SIG.to_string(), content: Ok("fn a() {}".to_string()) };
    assert_eq!(classify(sig), Err(ExpandError::MissingWorkspace));
}
