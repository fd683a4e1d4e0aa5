use qube_shell::logging::{log_config, log_file_name, LogLevel};

#[test]
fn development_builds_log_from_debug_upward() {
    assert_eq!(log_config(true).min_level, LogLevel::Debug);
}

#[test]
fn release_builds_log_from_info_upward() {
    assert_eq!(log_config(false).min_level, LogLevel::Info);
}

#[test]
fn both_sinks_are_always_on() {
    for debug_build in [true, false] {
        let cfg = log_config(debug_build);
        assert!(cfg.console);
        assert!(cfg.log_dir_file);
    }
}

#[test]
fn the_log_directory_file_is_named_after_the_shell() {
    assert_eq!(log_file_name(), "qube");
}
