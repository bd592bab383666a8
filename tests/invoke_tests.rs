use objdiff_config::{
    command_line, command_plan, finish_build, plan_build, spawn_failed_status, status_from_text,
    AppConfig, BuildConfig, ProcessOutput,
};

fn config(dir: Option<&str>, make: Option<&str>, distro: Option<&str>) -> BuildConfig {
    BuildConfig {
        project_dir: dir.map(|s| s.to_string()),
        custom_make: make.map(|s| s.to_string()),
        selected_wsl_distro: distro.map(|s| s.to_string()),
    }
}

#[test]
fn from_config_copies_settings() {
    let app = AppConfig {
        project_dir: Some("/proj".to_string()),
        custom_make: Some("ninja".to_string()),
        selected_wsl_distro: None,
    };
    let b = BuildConfig::from_config(&app);
    assert_eq!(b.project_dir.as_deref(), Some("/proj"));
    assert_eq!(b.custom_make.as_deref(), Some("ninja"));
    assert_eq!(b.selected_wsl_distro, None);
}

#[test]
fn missing_project_dir_fails_without_plan() {
    for windows in [false, true] {
        let r = plan_build(&config(None, Some("ninja"), Some("Ubuntu")), "build/a.o", windows);
        let status = r.expect_err("no project dir");
        assert!(!status.success);
        assert_eq!(status.cmdline, "");
        assert_eq!(status.stdout, "");
        assert_eq!(status.stderr, "Missing project dir");
    }
}

#[test]
fn native_plan_runs_make_in_project_dir() {
    let plan = plan_build(&config(Some("/proj"), None, Some("Ubuntu")), "build/a.o", false)
        .expect("plan");
    assert_eq!(plan.program, "make");
    assert_eq!(plan.args, vec!["build/a.o".to_string()]);
    assert_eq!(plan.cwd.as_deref(), Some("/proj"));
    assert_eq!(command_line(&plan, false), "make build/a.o");
}

#[test]
fn custom_make_is_used() {
    let plan = command_plan(&config(Some("/proj"), Some("ninja"), None), "/proj", "a.o", "a.o", false);
    assert_eq!(plan.program, "ninja");
}

#[test]
fn cmdline_quotes_for_posix_shell() {
    let plan = command_plan(&config(Some("/p q"), None, None), "/p q", "my file.o", "my file.o", false);
    assert_eq!(command_line(&plan, false), "make 'my file.o'");
}

#[test]
fn windows_plan_without_distro_uses_slash_form() {
    let plan = command_plan(
        &config(Some("C:\\proj"), None, None),
        "C:\\proj",
        "build\\a.o",
        "build/a.o",
        true,
    );
    assert_eq!(plan.program, "make");
    assert_eq!(plan.args, vec!["build/a.o".to_string()]);
    assert_eq!(plan.cwd.as_deref(), Some("C:\\proj"));
}

#[test]
fn wsl_plan_cmdline_names_distro_and_slash_path() {
    let plan = command_plan(
        &config(Some("C:\\proj"), None, Some("Ubuntu")),
        "C:\\proj",
        "build\\a.o",
        "build/a.o",
        true,
    );
    assert_eq!(plan.program, "wsl");
    assert_eq!(plan.cwd, None);
    let line = command_line(&plan, true);
    assert_eq!(line, "wsl --cd C:\\proj -d Ubuntu -- make build/a.o");
    assert!(line.contains("-d Ubuntu"));
    assert!(line.contains("build/a.o"));
    assert!(!line.contains("build\\a.o"));
}

#[test]
fn cmdline_quotes_for_windows_shell() {
    let plan = command_plan(
        &config(Some("C:\\my proj"), None, Some("Ubuntu")),
        "C:\\my proj",
        "a.o",
        "a.o",
        true,
    );
    assert_eq!(command_line(&plan, true), "wsl --cd \"C:\\my proj\" -d Ubuntu -- make a.o");
}

#[test]
fn exit_zero_is_success_with_verbatim_output() {
    let s = status_from_text(
        "make a.o".to_string(),
        Some(0),
        Some("built a.o\n".to_string()),
        Some(String::new()),
    );
    assert!(s.success);
    assert_eq!(s.cmdline, "make a.o");
    assert_eq!(s.stdout, "built a.o\n");
    assert_eq!(s.stderr, "");
}

#[test]
fn nonzero_exit_fails_but_keeps_output() {
    let s = status_from_text(
        "make a.o".to_string(),
        Some(2),
        Some("partial\n".to_string()),
        Some("error: boom\n".to_string()),
    );
    assert!(!s.success);
    assert_eq!(s.stdout, "partial\n");
    assert_eq!(s.stderr, "error: boom\n");
}

#[test]
fn missing_exit_code_fails() {
    let s = status_from_text("make".to_string(), None, Some(String::new()), Some(String::new()));
    assert!(!s.success);
}

#[test]
fn non_text_stdout_fails() {
    let s = status_from_text("make".to_string(), Some(0), None, Some(String::new()));
    assert!(!s.success);
    assert_eq!(s.cmdline, "");
    assert_eq!(s.stderr, "Failed to process stdout");
}

#[test]
fn non_text_stderr_fails() {
    let s = status_from_text("make".to_string(), Some(0), Some(String::new()), None);
    assert!(!s.success);
    assert_eq!(s.stderr, "Failed to process stderr");
}

#[test]
fn finish_decodes_output() {
    let out = ProcessOutput { code: Some(0), stdout: b"ok\n".to_vec(), stderr: b"warn\n".to_vec() };
    let s = finish_build("make".to_string(), Some(out));
    assert!(s.success);
    assert_eq!(s.stdout, "ok\n");
    assert_eq!(s.stderr, "warn\n");
}

#[test]
fn finish_rejects_invalid_utf8() {
    let out = ProcessOutput { code: Some(0), stdout: vec![0xff, 0xfe], stderr: Vec::new() };
    let s = finish_build("make".to_string(), Some(out));
    assert!(!s.success);
    assert_eq!(s.stderr, "Failed to process stdout");
}

#[test]
fn spawn_failure_status() {
    let s = finish_build("make".to_string(), None);
    assert!(!s.success);
    assert_eq!(s.cmdline, "");
    assert_eq!(s.stderr, "Failed to execute build");
    assert_eq!(spawn_failed_status().stderr, "Failed to execute build");
}
