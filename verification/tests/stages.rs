use wasm_bin::bindgen::{
    bindings_for, out_dir_for, BindgenSession, BindgenStep, Error as BindgenError,
};
use wasm_bin::installer::{decide_install, FsOutcome, InstallDecision, ProbeStatus, RunStatus};
use wasm_bin::wasm_post::{export_table, process_bytes, Error as WasmError};
use wasm_bin::webpack::{
    bundle_result, entry_action, entry_content, package_bin, package_plan, removal_result,
    yarn_probe_result, EntryAction, Error as WebpackError,
};

#[test]
fn generated_paths_follow_the_convention() {
    assert_eq!(out_dir_for("hello"), "./target/wasm-bin/hello");
    let bindings = bindings_for("hello");
    assert_eq!(bindings.glue, "./target/wasm-bin/hello/hello.js");
    assert_eq!(bindings.wasm, "./target/wasm-bin/hello/hello_bg.wasm");
}

#[test]
fn first_try_success_finishes_the_session() {
    let mut session = BindgenSession::new("app");
    match session.record_attempt(true) {
        BindgenStep::Done(b) => {
            assert_eq!(b.glue, "./target/wasm-bin/app/app.js");
            assert_eq!(b.wasm, "./target/wasm-bin/app/app_bg.wasm");
        },
        _ => panic!("a successful attempt must finish the session"),
    }
    assert!(session.finished);
}

#[test]
fn retry_after_reinstall_hands_back_the_same_paths() {
    let mut direct = BindgenSession::new("app");
    let direct_paths = match direct.record_attempt(true) {
        BindgenStep::Done(b) => (b.glue, b.wasm),
        _ => panic!("a successful attempt must finish the session"),
    };

    let mut retried = BindgenSession::new("app");
    assert!(matches!(retried.record_attempt(false), BindgenStep::ReinstallAndRetry));
    let retried_paths = match retried.record_attempt(true) {
        BindgenStep::Done(b) => (b.glue, b.wasm),
        _ => panic!("a success on the retry must finish the session"),
    };
    assert_eq!(direct_paths, retried_paths);
}

#[test]
fn two_failures_are_terminal() {
    let mut session = BindgenSession::new("app");
    assert!(matches!(session.record_attempt(false), BindgenStep::ReinstallAndRetry));
    assert!(matches!(session.record_attempt(false), BindgenStep::Failed));
    assert!(session.finished);
    assert_eq!(session.attempts, 2);
}

#[test]
fn prompt_answers_are_read_strictly() {
    assert_eq!(wasm_bin::installer::interpret_answer("y"), Some(true));
    assert_eq!(wasm_bin::installer::interpret_answer("Y"), Some(true));
    assert_eq!(wasm_bin::installer::interpret_answer("n"), Some(false));
    assert_eq!(wasm_bin::installer::interpret_answer("N"), Some(false));
    assert_eq!(wasm_bin::installer::interpret_answer("yes"), None);
    assert_eq!(wasm_bin::installer::interpret_answer(""), None);
}

#[test]
fn install_decisions_cover_every_probe() {
    assert_eq!(decide_install(&ProbeStatus::Present, false), InstallDecision::Proceed);
    assert_eq!(decide_install(&ProbeStatus::Present, true), InstallDecision::Proceed);
    assert_eq!(decide_install(&ProbeStatus::NotFound, true), InstallDecision::Install);
    assert_eq!(decide_install(&ProbeStatus::NotFound, false), InstallDecision::Abort);
    assert_eq!(decide_install(&ProbeStatus::Failed, true), InstallDecision::Abort);
}

#[test]
fn bindgen_presence_and_install_judgements() {
    assert_eq!(wasm_bin::bindgen::presence_action(&ProbeStatus::Present, false), Ok(false));
    assert_eq!(wasm_bin::bindgen::presence_action(&ProbeStatus::NotFound, true), Ok(true));
    assert_eq!(
        wasm_bin::bindgen::presence_action(&ProbeStatus::NotFound, false),
        Err(BindgenError::BindgenCommandError)
    );
    assert_eq!(
        wasm_bin::bindgen::install_result(&RunStatus::ExitedWithFailure),
        Err(BindgenError::InstallFailed)
    );
    assert_eq!(
        wasm_bin::bindgen::install_result(&RunStatus::CouldNotRun),
        Err(BindgenError::InstallCommandError)
    );
    assert_eq!(wasm_bin::bindgen::install_result(&RunStatus::Succeeded), Ok(()));
}

fn module_bytes(table_entries: usize, with_export_section: bool) -> Vec<u8> {
    let mut bytes: Vec<u8> = vec![0x00, 0x61, 0x73, 0x6d, 0x01, 0x00, 0x00, 0x00];
    let payload_len = 1 + 3 * table_entries;
    bytes.push(0x04);
    bytes.push(payload_len as u8);
    bytes.push(table_entries as u8);
    for _ in 0..table_entries {
        bytes.extend_from_slice(&[0x70, 0x00, 0x00]);
    }
    if with_export_section {
        bytes.extend_from_slice(&[0x07, 0x01, 0x00]);
    }
    bytes
}

#[test]
fn patch_appends_the_table_export() {
    let bytes = module_bytes(1, true);
    let patched = process_bytes(&bytes).unwrap();
    let module: parity_wasm::elements::Module =
        parity_wasm::deserialize_buffer(&patched).unwrap();
    let exports = module.export_section().unwrap().entries();
    assert_eq!(exports.len(), 1);
    assert_eq!(exports[0].field(), "table");
    assert_eq!(*exports[0].internal(), parity_wasm::elements::Internal::Table(0));
}

#[test]
fn patch_reports_the_exact_wrong_table_count() {
    let two = module_bytes(2, true);
    assert_eq!(process_bytes(&two), Err(WasmError::InvalidTableSectionCount(2)));
    let zero = module_bytes(0, true);
    assert_eq!(process_bytes(&zero), Err(WasmError::InvalidTableSectionCount(0)));
}

#[test]
fn patch_requires_table_and_export_sections() {
    let no_table: Vec<u8> = vec![0x00, 0x61, 0x73, 0x6d, 0x01, 0x00, 0x00, 0x00];
    assert_eq!(process_bytes(&no_table), Err(WasmError::MissingTableSection));
    let no_exports = module_bytes(1, false);
    assert_eq!(process_bytes(&no_exports), Err(WasmError::MissingExportSection));
}

#[test]
fn patch_rejects_bytes_that_are_no_module() {
    let garbage: Vec<u8> = vec![0x01, 0x02, 0x03];
    assert_eq!(process_bytes(&garbage), Err(WasmError::DeserializeWasmError));
}

#[test]
fn export_table_leaves_a_faulty_module_unpatched() {
    let bytes = module_bytes(2, true);
    let mut module: parity_wasm::elements::Module =
        parity_wasm::deserialize_buffer(&bytes).unwrap();
    let r = export_table(&mut module);
    assert_eq!(r, Err(WasmError::InvalidTableSectionCount(2)));
    assert_eq!(module.export_section().unwrap().entries().len(), 0);
}

#[test]
fn generator_invocation_words_are_fixed() {
    let args = wasm_bin::bindgen::generate_args("/t/app.wasm", "./target/wasm-bin/app");
    assert_eq!(
        args,
        vec![
            "/t/app.wasm".to_string(),
            "--browser".to_string(),
            "--no-modules".to_string(),
            "--out-dir".to_string(),
            "./target/wasm-bin/app".to_string(),
        ]
    );
}

#[test]
fn bundler_invocation_words_are_fixed() {
    let plan = package_plan("app", "work/app/index.js");
    let args = wasm_bin::webpack::bundle_args(&plan);
    assert_eq!(
        args,
        vec![
            "work/app/index.js".to_string(),
            "--output".to_string(),
            "work/app/dist/app.js".to_string(),
            "--mode".to_string(),
            "development".to_string(),
        ]
    );
}

#[test]
fn copy_plan_selects_only_script_modules() {
    let names = vec![
        "util.js".to_string(),
        "notes.txt".to_string(),
        "loader.js".to_string(),
    ];
    let plan = wasm_bin::webpack::copy_plan("./js", &names, "work/app/");
    assert_eq!(
        plan,
        vec![
            ("./js/util.js".to_string(), "work/app/util.js".to_string()),
            ("./js/loader.js".to_string(), "work/app/loader.js".to_string()),
        ]
    );
}

#[test]
fn package_plan_places_the_bundle_in_dist() {
    let plan = package_plan("app", "work/app/index.js");
    assert_eq!(plan.entry, "work/app/index.js");
    assert_eq!(plan.work_dir, "work/app/");
    assert_eq!(plan.dist_dir, "work/app/dist");
    assert_eq!(plan.out_file, "work/app/dist/app.js");
}

#[test]
fn bundler_judgements() {
    let plan = package_plan("app", "work/app/index.js");
    assert_eq!(
        bundle_result(&plan, &RunStatus::Succeeded),
        Ok("work/app/dist/app.js".to_string())
    );
    assert_eq!(
        bundle_result(&plan, &RunStatus::ExitedWithFailure),
        Err(WebpackError::PackageFailed)
    );
    assert_eq!(
        bundle_result(&plan, &RunStatus::CouldNotRun),
        Err(WebpackError::PackageCommandError)
    );
}

#[test]
fn stale_dist_removal_tolerates_only_absence() {
    assert_eq!(removal_result(&FsOutcome::Succeeded), Ok(()));
    assert_eq!(removal_result(&FsOutcome::NotFound), Ok(()));
    assert_eq!(
        removal_result(&FsOutcome::Failed),
        Err(WebpackError::RemoveExistingDistError)
    );
}

#[test]
fn missing_toolchain_manager_is_fatal() {
    assert_eq!(yarn_probe_result(&ProbeStatus::Present), Ok(()));
    assert_eq!(yarn_probe_result(&ProbeStatus::NotFound), Err(WebpackError::YarnMissing));
    assert_eq!(yarn_probe_result(&ProbeStatus::Failed), Err(WebpackError::YarnCommandError));
}

#[test]
fn synthesized_entry_references_the_glue_module() {
    let content = entry_content("app");
    let expected = format!(
        "\n        void async function () {{\n            const js = await import(\"./{}\");\n            js.main()\n        }}();\n        ",
        "app"
    );
    assert_eq!(content, expected);
    assert!(content.contains("./app"));
}

#[test]
fn binary_entry_is_copied_or_synthesized() {
    let plan = package_bin("app", "./target/wasm-bin/app");
    assert_eq!(plan.user_entry, "./js/app/index.js");
    assert_eq!(plan.entry, "./target/wasm-bin/app/index.js");
    assert_eq!(plan.content, entry_content("app"));

    match entry_action(&plan, true) {
        EntryAction::CopyUserEntry(from, to) => {
            assert_eq!(from, "./js/app/index.js");
            assert_eq!(to, "./target/wasm-bin/app/index.js");
        },
        EntryAction::WriteSynthesized(_, _) => {
            panic!("an existing user entry must be copied, not synthesized")
        },
    }
    match entry_action(&plan, false) {
        EntryAction::WriteSynthesized(to, text) => {
            assert_eq!(to, "./target/wasm-bin/app/index.js");
            assert_eq!(text, entry_content("app"));
        },
        EntryAction::CopyUserEntry(_, _) => {
            panic!("a missing user entry must lead to synthesis")
        },
    }
}
