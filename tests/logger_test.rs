use eggricesoy::logger::json_roller;
use eggricesoy::{
    default_logger_config, resolve_logging, settle_sinks, ExternalLoad, LoggerPlan, LoggingChoice,
    Options, Severity, SinkTarget,
};

fn names(plan: &LoggerPlan) -> Vec<&'static str> {
    plan.sinks.iter().map(|s| s.name()).collect()
}

#[test]
fn synthesizes_all_three_sinks_by_default() {
    let o = Options::defaults("svc");
    let (plan, msgs) = default_logger_config(&o);
    assert_eq!(names(&plan), vec!["stderr", "json", "file"]);
    assert_eq!(plan.root, Severity::Debug);
    assert!(msgs.is_empty());
    assert!(matches!(plan.sinks[0].target, SinkTarget::Console));
    assert_eq!(plan.sinks[0].threshold, Severity::Debug);
    match &plan.sinks[1].target {
        SinkTarget::RotatingJson { path, pattern, max_bytes, max_generations } => {
            assert_eq!(path, "/tmp/log/svc.0.jsonlog");
            assert_eq!(pattern, "/tmp/log/svc.{}.jsonlog");
            assert_eq!(*max_bytes, 1_000_000);
            assert_eq!(*max_generations, 10);
        }
        _ => panic!("second sink should be the structured log"),
    }
    assert_eq!(plan.sinks[1].threshold, Severity::Info);
    match &plan.sinks[2].target {
        SinkTarget::RotatingText { path, max_bytes } => {
            assert_eq!(path, "/tmp/log/svc.log");
            assert_eq!(*max_bytes, 1_000_000);
        }
        _ => panic!("third sink should be the text log"),
    }
    assert_eq!(plan.sinks[2].threshold, Severity::Info);
}

#[test]
fn no_stderr_drops_console_sink() {
    let mut o = Options::defaults("svc");
    o.no_stderr = true;
    o.log_level_stderr = "trace".to_string();
    let (plan, _) = default_logger_config(&o);
    assert_eq!(names(&plan), vec!["json", "file"]);
    o.log_json = None;
    o.log_file = None;
    let (plan, msgs) = default_logger_config(&o);
    assert!(plan.sinks.is_empty());
    assert_eq!(msgs, vec!["Not logging json file!", "Not logging to file!"]);
}

#[test]
fn bad_json_path_omits_only_json_sink() {
    let mut o = Options::defaults("svc");
    o.log_json = Some("/var/log/svc.jsonlog".to_string());
    let (plan, msgs) = default_logger_config(&o);
    assert_eq!(names(&plan), vec!["stderr", "file"]);
    assert_eq!(
        msgs,
        vec!["Log json path does not end with .0.jsonlog: /var/log/svc.jsonlog"]
    );
    let mut without = o.clone();
    without.log_json = None;
    let (plain, _) = default_logger_config(&without);
    assert_eq!(names(&plain), names(&plan));
    assert_eq!(plain.root, plan.root);
}

#[test]
fn json_pattern_replaces_only_the_suffix() {
    let mut o = Options::defaults("svc");
    o.log_json = Some("/logs/a.0.jsonlog/b.0.jsonlog".to_string());
    let (plan, _) = default_logger_config(&o);
    match &plan.sinks[1].target {
        SinkTarget::RotatingJson { pattern, .. } => {
            assert_eq!(pattern, "/logs/a.0.jsonlog/b.{}.jsonlog");
        }
        _ => panic!("second sink should be the structured log"),
    }
}

#[test]
fn malformed_size_gives_default_rollover() {
    let mut o = Options::defaults("svc");
    o.log_file_size = "lots".to_string();
    o.log_json_count = "3".to_string();
    let (plan, _) = default_logger_config(&o);
    for sink in &plan.sinks {
        match &sink.target {
            SinkTarget::Console => {}
            SinkTarget::RotatingText { max_bytes, .. } => assert_eq!(*max_bytes, 1_000_000),
            SinkTarget::RotatingJson { max_bytes, max_generations, .. } => {
                assert_eq!(*max_bytes, 1_000_000);
                assert_eq!(*max_generations, 3);
            }
        }
    }
}

#[test]
fn unparsable_root_level_falls_back_to_debug() {
    let mut o = Options::defaults("svc");
    o.log_level = "chatty".to_string();
    let (plan, _) = default_logger_config(&o);
    assert_eq!(plan.root, Severity::Debug);
    o.log_level = "error".to_string();
    let (plan, _) = default_logger_config(&o);
    assert_eq!(plan.root, Severity::Error);
}

#[test]
fn console_threshold_filters_debug_but_passes_warn() {
    let mut o = Options::defaults("svc");
    o.log_level = "debug".to_string();
    o.log_level_stderr = "warn".to_string();
    o.log_file = None;
    o.log_json = None;
    let (plan, _) = default_logger_config(&o);
    assert_eq!(names(&plan), vec!["stderr"]);
    assert!(!plan.delivers(0, Severity::Debug));
    assert!(plan.delivers(0, Severity::Warn));
    assert!(plan.delivers(0, Severity::Error));
    assert!(!plan.delivers(0, Severity::Info));
}

#[test]
fn root_threshold_limits_every_sink() {
    let mut o = Options::defaults("svc");
    o.log_level = "error".to_string();
    o.log_level_stderr = "trace".to_string();
    let (plan, _) = default_logger_config(&o);
    assert!(!plan.delivers(0, Severity::Warn));
    assert!(plan.delivers(0, Severity::Error));
}

#[test]
fn cascade_without_external_file_synthesizes() {
    let o = Options::defaults("svc");
    let (choice, msgs) = resolve_logging(&o, ExternalLoad::NotRequested);
    match choice {
        LoggingChoice::Synthesized(plan) => assert_eq!(names(&plan), vec!["stderr", "json", "file"]),
        LoggingChoice::External => panic!("no external file was named"),
    }
    assert_eq!(msgs, vec!["log4rs config not provided"]);
}

#[test]
fn cascade_prefers_loaded_external_file() {
    let mut o = Options::defaults("svc");
    o.log4rs_config = Some("/etc/svc/log.yaml".to_string());
    let (choice, msgs) = resolve_logging(&o, ExternalLoad::Loaded);
    assert!(matches!(choice, LoggingChoice::External));
    assert_eq!(msgs, vec!["Initialized log4rs config /etc/svc/log.yaml"]);
}

#[test]
fn cascade_falls_back_when_external_file_fails() {
    let mut o = Options::defaults("svc");
    o.log4rs_config = Some("/etc/svc/log.yaml".to_string());
    o.log_file = None;
    let (choice, msgs) = resolve_logging(&o, ExternalLoad::Failed("missing file".to_string()));
    match choice {
        LoggingChoice::Synthesized(plan) => assert_eq!(names(&plan), vec!["stderr", "json"]),
        LoggingChoice::External => panic!("the external file failed"),
    }
    assert_eq!(
        msgs,
        vec![
            "Failed to initialize log4rs config /etc/svc/log.yaml, missing file",
            "Not logging to file!",
        ]
    );
}

#[test]
fn failed_sinks_are_dropped_with_a_message() {
    let o = Options::defaults("svc");
    let (plan, _) = default_logger_config(&o);
    let outcomes = vec![Ok(()), Err("permission denied".to_string()), Ok(())];
    let (settled, msgs) = settle_sinks(&plan, &outcomes);
    assert_eq!(names(&settled), vec!["stderr", "file"]);
    assert_eq!(settled.root, plan.root);
    assert_eq!(msgs, vec!["Failed to create logger for permission denied"]);
    let all_ok = vec![Ok(()), Ok(()), Ok(())];
    let (settled, msgs) = settle_sinks(&plan, &all_ok);
    assert_eq!(names(&settled), vec!["stderr", "json", "file"]);
    assert!(msgs.is_empty());
}

#[test]
fn rollers_exist_only_for_structured_sinks() {
    let o = Options::defaults("svc");
    let (plan, _) = default_logger_config(&o);
    assert!(json_roller(&plan.sinks[0]).is_none());
    assert!(json_roller(&plan.sinks[1]).is_some());
    assert!(json_roller(&plan.sinks[2]).is_none());
    let mut odd = plan.sinks[1].clone();
    if let SinkTarget::RotatingJson { pattern, .. } = &mut odd.target {
        *pattern = "/tmp/log/svc.jsonlog".to_string();
    }
    assert!(json_roller(&odd).is_none());
}

#[test]
fn invalid_sink_levels_fall_back_to_flag_defaults() {
    let mut o = Options::defaults("svc");
    o.log_level_stderr = "loud".to_string();
    o.log_level_file = "".to_string();
    o.log_level_json = "Error".to_string();
    let (plan, msgs) = default_logger_config(&o);
    assert_eq!(names(&plan), vec!["stderr", "json", "file"]);
    assert_eq!(plan.sinks[0].threshold, Severity::Debug);
    assert_eq!(plan.sinks[1].threshold, Severity::Info);
    assert_eq!(plan.sinks[2].threshold, Severity::Info);
    assert!(msgs.is_empty());
}

#[test]
fn settled_sink_names_stay_distinct() {
    let o = Options::defaults("svc");
    let (plan, _) = default_logger_config(&o);
    let outcomes = vec![Err("busy".to_string()), Ok(()), Ok(())];
    let (settled, _) = settle_sinks(&plan, &outcomes);
    let n = names(&settled);
    assert_eq!(n, vec!["json", "file"]);
    assert_ne!(n[0], n[1]);
}
