use objdiff_config::{
    bool_true, build_globset, config_filenames, default_watch_patterns, discovery_step,
    format_of_filename, is_json_name, join_path, ConfigFormat, DiscoveryStep, ProjectConfig,
    ProjectObject, ScratchConfig,
};

fn obj(name: Option<&str>, path: Option<&str>) -> ProjectObject {
    ProjectObject {
        name: name.map(|s| s.to_string()),
        path: path.map(|s| s.to_string()),
        ..Default::default()
    }
}

#[test]
fn bool_true_is_true() {
    assert!(bool_true());
}

#[test]
fn name_prefers_explicit_name() {
    assert_eq!(obj(Some("main"), Some("src/main.o")).name(), "main");
}

#[test]
fn name_falls_back_to_path() {
    assert_eq!(obj(None, Some("src/main.o")).name(), "src/main.o");
}

#[test]
fn name_placeholder_when_nothing_given() {
    assert_eq!(obj(None, None).name(), "[unknown]");
}

#[test]
fn join_relative_and_absolute() {
    assert_eq!(join_path("/proj", "build/a.o"), "/proj/build/a.o");
    assert_eq!(join_path("/proj/", "a.o"), "/proj/a.o");
    assert_eq!(join_path("", "a.o"), "a.o");
    assert_eq!(join_path("/proj", "/abs/a.o"), "/abs/a.o");
}

#[test]
fn resolve_uses_output_dirs_for_bare_path() {
    let mut o = obj(None, Some("src/a.o"));
    o.resolve_paths("/proj", Some("/proj/target"), Some("/proj/base"));
    assert_eq!(o.target_path.as_deref(), Some("/proj/target/src/a.o"));
    assert_eq!(o.base_path.as_deref(), Some("/proj/base/src/a.o"));
    assert_eq!(o.path.as_deref(), Some("src/a.o"));
}

#[test]
fn resolve_explicit_path_is_project_relative() {
    let mut o = obj(None, None);
    o.target_path = Some("expected/a.o".to_string());
    o.base_path = Some("build/a.o".to_string());
    o.resolve_paths("/proj", None, None);
    assert_eq!(o.target_path.as_deref(), Some("/proj/expected/a.o"));
    assert_eq!(o.base_path.as_deref(), Some("/proj/build/a.o"));
}

#[test]
fn resolve_explicit_path_with_output_dir_and_bare_path() {
    let mut o = obj(None, Some("src/a.o"));
    o.target_path = Some("expected/a.o".to_string());
    o.resolve_paths("/proj", Some("/proj/target"), Some("/proj/base"));
    assert_eq!(o.target_path.as_deref(), Some("/proj/expected/a.o"));
    assert_eq!(o.base_path.as_deref(), Some("/proj/base/src/a.o"));
}

#[test]
fn resolve_bare_path_without_dirs_stays_unresolved() {
    let mut o = obj(None, Some("src/a.o"));
    o.resolve_paths("/proj", None, None);
    assert_eq!(o.target_path, None);
    assert_eq!(o.base_path, None);
}

#[test]
fn filenames_in_priority_order() {
    assert_eq!(config_filenames(), vec!["objdiff.yml", "objdiff.yaml", "objdiff.json"]);
}

#[test]
fn default_patterns_listed() {
    let expected = vec![
        "*.c", "*.cp", "*.cpp", "*.cxx", "*.h", "*.hp", "*.hpp", "*.hxx", "*.s", "*.S", "*.asm",
        "*.inc", "*.py", "*.yml", "*.txt", "*.json",
    ];
    assert_eq!(default_watch_patterns(), expected);
}

#[test]
fn missing_watch_patterns_give_defaults() {
    let c = ProjectConfig::default();
    assert_eq!(c.watch_patterns_or_default(), default_watch_patterns());
    assert!(c.objects.is_empty());
}

#[test]
fn defaults_fill_in_watch_patterns() {
    let c = ProjectConfig {
        custom_make: Some("ninja".to_string()),
        build_target: true,
        ..Default::default()
    }
    .with_defaults();
    assert_eq!(c.watch_patterns, Some(default_watch_patterns()));
    assert_eq!(c.custom_make.as_deref(), Some("ninja"));
    assert!(c.build_target);
    assert!(!c.build_base);
    assert!(c.objects.is_empty());
}

#[test]
fn defaults_keep_given_watch_patterns() {
    let c = ProjectConfig {
        watch_patterns: Some(vec!["*.rs".to_string()]),
        ..Default::default()
    }
    .with_defaults();
    assert_eq!(c.watch_patterns, Some(vec!["*.rs".to_string()]));
}

#[test]
fn given_watch_patterns_are_kept() {
    let c = ProjectConfig {
        watch_patterns: Some(vec!["*.rs".to_string()]),
        ..Default::default()
    };
    assert_eq!(c.watch_patterns_or_default(), vec!["*.rs".to_string()]);
}

#[test]
fn json_name_detection() {
    assert!(is_json_name("objdiff.json"));
    assert!(!is_json_name("objdiff.yml"));
    assert!(!is_json_name("jso"));
    assert_eq!(format_of_filename("objdiff.json"), ConfigFormat::Json);
    assert_eq!(format_of_filename("objdiff.yaml"), ConfigFormat::Yaml);
}

#[test]
fn discovery_picks_first_usable() {
    assert_eq!(discovery_step(&vec![true, true, true]), DiscoveryStep::Found(0));
    assert_eq!(discovery_step(&vec![false, true, true]), DiscoveryStep::Found(1));
    assert_eq!(discovery_step(&vec![false, false, true]), DiscoveryStep::Found(2));
}

#[test]
fn discovery_probes_in_order_then_gives_up() {
    assert_eq!(discovery_step(&vec![]), DiscoveryStep::Probe(0));
    assert_eq!(discovery_step(&vec![false]), DiscoveryStep::Probe(1));
    assert_eq!(discovery_step(&vec![false, false]), DiscoveryStep::Probe(2));
    assert_eq!(discovery_step(&vec![false, false, false]), DiscoveryStep::NotFound);
}

#[test]
fn scratch_config_equality() {
    let a = ScratchConfig {
        platform: Some("gc_wii".to_string()),
        compiler: Some("mwcc_43_151".to_string()),
        c_flags: None,
        ctx_path: None,
        build_ctx: true,
    };
    let mut b = a.clone();
    assert!(a == b);
    b.build_ctx = false;
    assert!(a != b);
    let mut c = a.clone();
    c.c_flags = Some("-O4".to_string());
    assert!(a != c);
}

#[test]
fn globset_compiles_valid_patterns() {
    let set = build_globset(&default_watch_patterns()).expect("valid patterns");
    assert_eq!(set.len(), 16);
    assert!(set.is_match("src/main.c"));
    assert!(!set.is_match("src/main.o"));
}

#[test]
fn globset_of_no_patterns_is_empty() {
    let set = build_globset(&Vec::new()).expect("empty set");
    assert!(set.is_empty());
    assert!(!set.is_match("src/main.c"));
}

#[test]
fn globset_rejects_invalid_pattern() {
    let pats = vec!["*.c".to_string(), "a[".to_string()];
    assert!(build_globset(&pats).is_err());
}
