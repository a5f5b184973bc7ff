use rusty_rays_core::config::{physical_cores, Config, LogLevel, ParsedConfig};

fn parsed(level: Option<&str>, limit: Option<usize>, threads: Option<usize>) -> ParsedConfig {
    ParsedConfig {
        log_level: level.map(|s| s.to_string()),
        log_files_dir: Some("/logs".to_string()),
        log_message_cache_overflow_limit: limit,
        max_render_threads: threads,
    }
}

fn defaults(threads: usize) -> Config {
    Config {
        log_level: LogLevel::Info,
        log_files_dir: Some("/default".to_string()),
        log_message_cache_overflow_limit: 500_000,
        max_render_threads: threads,
        loaded_from_file: false,
    }
}

#[test]
fn level_names_are_prefixes_ignoring_case() {
    assert_eq!(LogLevel::from_name("info"), Some(LogLevel::Info));
    assert_eq!(LogLevel::from_name("INFO"), Some(LogLevel::Info));
    assert_eq!(LogLevel::from_name("warn"), Some(LogLevel::Warning));
    assert_eq!(LogLevel::from_name("Warning"), Some(LogLevel::Warning));
    assert_eq!(LogLevel::from_name("w"), Some(LogLevel::Warning));
    assert_eq!(LogLevel::from_name("crit"), Some(LogLevel::Critical));
    assert_eq!(LogLevel::from_name("e"), Some(LogLevel::Error));
    assert_eq!(LogLevel::from_name("debug"), Some(LogLevel::Debug));
    assert_eq!(LogLevel::from_name("DEBG"), Some(LogLevel::Debug));
    assert_eq!(LogLevel::from_name("trce"), Some(LogLevel::Trace));
    assert_eq!(LogLevel::from_name("t"), Some(LogLevel::Trace));
}

#[test]
fn invalid_level_names() {
    assert_eq!(LogLevel::from_name("off"), None);
    assert_eq!(LogLevel::from_name("o"), None);
    assert_eq!(LogLevel::from_name(""), None);
    assert_eq!(LogLevel::from_name("verbose"), None);
    assert_eq!(LogLevel::from_name("informational"), None);
}

#[test]
fn level_short_names() {
    assert_eq!(LogLevel::Critical.to_name(), "CRIT");
    assert_eq!(LogLevel::Error.to_name(), "ERRO");
    assert_eq!(LogLevel::Warning.to_name(), "WARN");
    assert_eq!(LogLevel::Info.to_name(), "INFO");
    assert_eq!(LogLevel::Debug.to_name(), "DEBG");
    assert_eq!(LogLevel::Trace.to_name(), "TRCE");
}

#[test]
fn level_names_read_back() {
    for l in [LogLevel::Critical, LogLevel::Error, LogLevel::Warning, LogLevel::Info, LogLevel::Debug, LogLevel::Trace] {
        assert_eq!(LogLevel::from_name(&l.to_name()), Some(l));
    }
}

#[test]
fn parsed_config_entries_are_resolved() {
    let c = Config::from_parsed(parsed(Some("debug"), Some(10), Some(2)), &defaults(4));
    assert_eq!(c.log_level, LogLevel::Debug);
    assert_eq!(c.log_message_cache_overflow_limit, 10);
    assert_eq!(c.max_render_threads, 2);
    assert_eq!(c.log_files_dir, Some("/logs".to_string()));
    assert!(c.loaded_from_file);
}

#[test]
fn missing_or_invalid_entries_take_defaults() {
    let c = Config::from_parsed(parsed(Some("loud"), None, Some(0)), &defaults(4));
    assert_eq!(c.log_level, LogLevel::Info);
    assert_eq!(c.log_message_cache_overflow_limit, 500_000);
    assert_eq!(c.max_render_threads, 4);
    let c = Config::from_parsed(parsed(None, None, Some(5)), &defaults(4));
    assert_eq!(c.log_level, LogLevel::Info);
    assert_eq!(c.max_render_threads, 4);
    let c = Config::from_parsed(parsed(None, None, None), &defaults(4));
    assert_eq!(c.max_render_threads, 4);
}

#[test]
fn written_config_reads_back() {
    let c = Config {
        log_level: LogLevel::Warning,
        log_files_dir: None,
        log_message_cache_overflow_limit: 77,
        max_render_threads: 3,
        loaded_from_file: true,
    };
    let p = c.to_parsed(Some("/default".to_string()));
    assert_eq!(p.log_level, Some("WARN".to_string()));
    assert_eq!(p.log_files_dir, Some("/default".to_string()));
    let back = Config::from_parsed(p, &defaults(8));
    assert_eq!(back.log_level, LogLevel::Warning);
    assert_eq!(back.log_message_cache_overflow_limit, 77);
    assert_eq!(back.max_render_threads, 3);
}

#[test]
fn initial_file_content_has_no_thread_count() {
    let p = defaults(4).initial_file_content();
    assert_eq!(p.log_level, Some("INFO".to_string()));
    assert_eq!(p.log_message_cache_overflow_limit, Some(500_000));
    assert_eq!(p.max_render_threads, None);
    assert_eq!(p.log_files_dir, Some("/default".to_string()));
}

#[test]
fn defaults_use_the_machine() {
    let d = Config::defaults(None);
    assert_eq!(d.log_level, LogLevel::Info);
    assert_eq!(d.log_message_cache_overflow_limit, 500_000);
    assert!(d.max_render_threads >= 1);
    assert_eq!(d.max_render_threads, physical_cores());
    assert!(!d.loaded_from_file);
}

#[test]
fn update_keeps_the_log_directory() {
    let mut c = defaults(4);
    let mut u = defaults(2);
    u.log_level = LogLevel::Trace;
    u.log_files_dir = Some("/elsewhere".to_string());
    u.loaded_from_file = true;
    c.update_from(&u);
    assert_eq!(c.log_level, LogLevel::Trace);
    assert_eq!(c.max_render_threads, 2);
    assert!(c.loaded_from_file);
    assert_eq!(c.log_files_dir, Some("/default".to_string()));
    let d = c.duplicate();
    assert_eq!(d, c);
}
