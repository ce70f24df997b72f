use wasm_bin::cargo::{
    build_args, conclude, parse_package_id, process_line, process_output, run_outputs,
    BuildOptions, BuildOutcome, CargoBuildOutput, CompilerMessage, DriverState, Error,
    RawArtifact, WasmArtifact,
};

fn artifact(name: &str, kinds: &[&str], filenames: &[&str]) -> CargoBuildOutput {
    CargoBuildOutput::Artifact(RawArtifact {
        name: name.to_string(),
        kinds: kinds.iter().map(|k| k.to_string()).collect(),
        filenames: filenames.iter().map(|f| f.to_string()).collect(),
    })
}

fn diagnostic(level: &str, rendered: Option<&str>) -> CargoBuildOutput {
    CargoBuildOutput::FromCompiler(CompilerMessage {
        level: level.to_string(),
        rendered: rendered.map(|r| r.to_string()),
        fallback: "{\"level\":\"x\"}".to_string(),
    })
}

#[test]
fn empty_stream_succeeds_with_no_artifacts() {
    match run_outputs(Vec::new()).unwrap() {
        BuildOutcome::Success(artifacts) => assert_eq!(artifacts.len(), 0),
        BuildOutcome::Failure(_) => panic!("an empty stream must succeed"),
    }
}

#[test]
fn warnings_alone_still_succeed() {
    let outputs = vec![
        diagnostic("warning", Some("w1")),
        CargoBuildOutput::BuildScript,
        diagnostic("note", None),
    ];
    match run_outputs(outputs).unwrap() {
        BuildOutcome::Success(artifacts) => assert_eq!(artifacts.len(), 0),
        BuildOutcome::Failure(_) => panic!("warnings must not fail a build"),
    }
}

#[test]
fn one_error_fails_despite_artifacts() {
    let outputs = vec![
        diagnostic("error", Some("expected `;`")),
        artifact("app", &["bin"], &["/t/app.wasm"]),
    ];
    match run_outputs(outputs).unwrap() {
        BuildOutcome::Failure(errors) => {
            assert_eq!(errors, vec!["expected `;`".to_string()]);
        },
        BuildOutcome::Success(_) => panic!("an error-level diagnostic must fail the build"),
    }
}

#[test]
fn error_without_rendered_text_uses_fallback() {
    let outputs = vec![diagnostic("error", None)];
    match run_outputs(outputs).unwrap() {
        BuildOutcome::Failure(errors) => {
            assert_eq!(errors, vec!["{\"level\":\"x\"}".to_string()]);
        },
        BuildOutcome::Success(_) => panic!("the error must fail the build"),
    }
}

#[test]
fn artifact_with_zero_files_is_rejected() {
    let mut state = DriverState::new();
    let r = process_output(&mut state, artifact("app", &["bin"], &[]));
    assert!(matches!(r, Err(Error::UnexpectedFileCountError)));
    assert_eq!(state.artifacts.len(), 0);
    assert_eq!(state.errors.len(), 0);
}

#[test]
fn artifact_with_two_files_is_rejected() {
    let mut state = DriverState::new();
    let r = process_output(&mut state, artifact("app", &["bin"], &["/a.wasm", "/b.wasm"]));
    assert!(matches!(r, Err(Error::UnexpectedFileCountError)));
    assert_eq!(state.artifacts.len(), 0);
}

#[test]
fn binary_example_and_library_kinds_are_kept() {
    let outputs = vec![
        artifact("app", &["bin"], &["/t/app.wasm"]),
        artifact("demo", &["example"], &["/t/demo.wasm"]),
        artifact("core", &["cdylib"], &["/t/core.wasm"]),
        artifact("helper", &["custom-build"], &["/t/helper.wasm"]),
        artifact("rlibonly", &["rlib"], &["/t/rlibonly.rlib"]),
    ];
    match run_outputs(outputs).unwrap() {
        BuildOutcome::Success(artifacts) => {
            assert_eq!(artifacts.len(), 3);
            match &artifacts[0] {
                WasmArtifact::Binary(n, p) => {
                    assert_eq!(n, "app");
                    assert_eq!(p, "/t/app.wasm");
                },
                _ => panic!("a bin target must be kept as a binary"),
            }
            assert!(matches!(&artifacts[1], WasmArtifact::Binary(n, _) if n == "demo"));
            assert!(matches!(&artifacts[2], WasmArtifact::Library(n, _) if n == "core"));
        },
        BuildOutcome::Failure(_) => panic!("a clean build must succeed"),
    }
}

#[test]
fn classify_artifact_line_from_json() {
    let line = "{\"package_id\":\"app 0.1.0 (path+file:///w)\",\"target\":{\"kind\":[\"bin\"],\"crate_types\":[\"bin\"],\"name\":\"app\",\"src_path\":\"/w/src/main.rs\"},\"profile\":{\"opt_level\":\"3\",\"debuginfo\":null,\"debug_assertions\":false,\"overflow_checks\":false,\"test\":false},\"features\":[],\"filenames\":[\"/w/target/app.wasm\"],\"fresh\":false}";
    let mut state = DriverState::new();
    process_line(&mut state, line).unwrap();
    assert_eq!(state.artifacts.len(), 1);
    assert!(matches!(&state.artifacts[0], WasmArtifact::Binary(n, p) if n == "app" && p == "/w/target/app.wasm"));
    assert_eq!(state.errors.len(), 0);
}

#[test]
fn classify_error_message_line_from_json() {
    let line = "{\"package_id\":\"app 0.1.0 (path+file:///w)\",\"target\":{\"kind\":[\"bin\"],\"crate_types\":[\"bin\"],\"name\":\"app\",\"src_path\":\"/w/src/main.rs\"},\"message\":{\"message\":\"mismatched types\",\"code\":null,\"level\":\"error\",\"spans\":[],\"children\":[],\"rendered\":\"error: mismatched types\"}}";
    let mut state = DriverState::new();
    process_line(&mut state, line).unwrap();
    assert_eq!(state.errors, vec!["error: mismatched types".to_string()]);
    assert_eq!(state.artifacts.len(), 0);
}

#[test]
fn classify_warning_message_line_from_json() {
    let line = "{\"package_id\":\"app 0.1.0 (path+file:///w)\",\"target\":{\"kind\":[\"bin\"],\"crate_types\":[\"bin\"],\"name\":\"app\",\"src_path\":\"/w/src/main.rs\"},\"message\":{\"message\":\"unused variable\",\"code\":null,\"level\":\"warning\",\"spans\":[],\"children\":[],\"rendered\":\"warning: unused variable\"}}";
    let mut state = DriverState::new();
    process_line(&mut state, line).unwrap();
    assert_eq!(state.errors.len(), 0);
    assert_eq!(state.artifacts.len(), 0);
}

#[test]
fn classify_build_script_line_from_json() {
    let line = "{\"package_id\":\"dep 0.2.0 (registry+https://example)\",\"linked_libs\":[],\"linked_paths\":[],\"cfgs\":[\"has_std\"],\"env\":[]}";
    let mut state = DriverState::new();
    process_line(&mut state, line).unwrap();
    assert_eq!(state.errors.len(), 0);
    assert_eq!(state.artifacts.len(), 0);
}

#[test]
fn malformed_line_aborts_the_build() {
    let mut state = DriverState::new();
    let r = process_line(&mut state, "not json at all");
    assert!(matches!(r, Err(Error::DeserializeOutputError)));
    let r2 = process_line(&mut state, "{\"unrelated\":true}");
    assert!(matches!(r2, Err(Error::DeserializeOutputError)));
    assert_eq!(state.artifacts.len(), 0);
    assert_eq!(state.errors.len(), 0);
}

#[test]
fn package_id_splits_into_three_parts() {
    let id = parse_package_id("app 0.1.0 (path+file:///w)").unwrap();
    assert_eq!(id.name, "app");
    assert_eq!(id.version, "0.1.0");
    assert_eq!(id.source_id, "(path+file:///w)");

    let spaced = parse_package_id("app 0.1.0 a b c").unwrap();
    assert_eq!(spaced.source_id, "a b c");

    assert!(parse_package_id("app").is_none());
    assert!(parse_package_id("app 0.1.0").is_none());
    assert!(parse_package_id("").is_none());
}

#[test]
fn malformed_package_id_fails_the_shape() {
    let line = "{\"package_id\":\"app\",\"target\":{\"kind\":[\"bin\"],\"crate_types\":[\"bin\"],\"name\":\"app\",\"src_path\":\"/w/src/main.rs\"},\"message\":{\"message\":\"m\",\"code\":null,\"level\":\"error\",\"spans\":[],\"children\":[],\"rendered\":\"e\"}}";
    let mut state = DriverState::new();
    let r = process_line(&mut state, line);
    assert!(matches!(r, Err(Error::DeserializeOutputError)));
    assert_eq!(state.errors.len(), 0);
}

#[test]
fn compiler_message_shape_wins_over_artifact_shape() {
    let line = "{\"package_id\":\"app 0.1.0 (path+file:///w)\",\"target\":{\"kind\":[\"bin\"],\"crate_types\":[\"bin\"],\"name\":\"app\",\"src_path\":\"/w/src/main.rs\"},\"message\":{\"message\":\"m\",\"code\":null,\"level\":\"error\",\"spans\":[],\"children\":[],\"rendered\":\"e\"},\"profile\":{\"opt_level\":\"3\",\"debuginfo\":null,\"debug_assertions\":false,\"overflow_checks\":false,\"test\":false},\"features\":[],\"filenames\":[\"/w/target/app.wasm\"],\"fresh\":false}";
    let mut state = DriverState::new();
    process_line(&mut state, line).unwrap();
    assert_eq!(state.errors, vec!["e".to_string()]);
    assert_eq!(state.artifacts.len(), 0);
}

#[test]
fn conclude_decides_by_errors_alone() {
    let mut with_artifact = DriverState::new();
    process_output(&mut with_artifact, artifact("app", &["bin"], &["/t/app.wasm"])).unwrap();
    match conclude(with_artifact) {
        BuildOutcome::Success(artifacts) => assert_eq!(artifacts.len(), 1),
        BuildOutcome::Failure(_) => panic!("no errors were collected"),
    }

    let mut with_error = DriverState::new();
    process_output(&mut with_error, diagnostic("error", Some("boom"))).unwrap();
    process_output(&mut with_error, artifact("app", &["bin"], &["/t/app.wasm"])).unwrap();
    match conclude(with_error) {
        BuildOutcome::Failure(errors) => assert_eq!(errors, vec!["boom".to_string()]),
        BuildOutcome::Success(_) => panic!("a collected error must fail the build"),
    }
}

#[test]
fn default_options_produce_only_the_fixed_words() {
    let args = build_args(&BuildOptions::default());
    assert_eq!(
        args,
        vec![
            "build".to_string(),
            "--target=wasm32-unknown-unknown".to_string(),
            "--message-format".to_string(),
            "json".to_string(),
        ]
    );
}

#[test]
fn populated_options_map_to_flags_in_order() {
    let mut options = BuildOptions::default();
    options.bin = Some("app".to_string());
    options.release = true;
    options.features = Some("audio video".to_string());
    options.manifest_path = Some("Cargo.toml".to_string());
    let args = build_args(&options);
    assert_eq!(
        args,
        vec![
            "build".to_string(),
            "--target=wasm32-unknown-unknown".to_string(),
            "--message-format".to_string(),
            "json".to_string(),
            "--bin".to_string(),
            "app".to_string(),
            "--release".to_string(),
            "--features".to_string(),
            "audio video".to_string(),
            "--manifest-path".to_string(),
            "Cargo.toml".to_string(),
        ]
    );
}
