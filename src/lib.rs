//! Project configuration for an object-diffing tool: locating and normalising
//! the per-project configuration, resolving object paths, and planning the
//! external build invocation whose outcome is reported as a `BuildStatus`.
pub mod config;
pub mod invoke;
pub mod paths;

pub use config::{
    bool_true, build_globset, config_filenames, default_watch_patterns, discovery_step,
    format_of_filename, is_json_name, ConfigFormat, DiscoveryStep, ProjectConfig, ProjectObject,
    ScratchConfig,
};
pub use invoke::{
    command_line, command_plan, finish_build, missing_project_dir_status, plan_build,
    spawn_failed_status, status_from_text, AppConfig, BuildConfig, BuildStatus, CommandPlan,
    ProcessOutput,
};
pub use paths::join_path;
