use miyabi::config::{
    directories_or_error, ConfigError, ConfigStep, MiyabiConfig, MiyabiConfigManager,
};
use miyabi::filesystem::{
    join, list_recent_reports, listing_order, more_recent, Candidate, LayoutError, Presence,
    ProjectPaths, ReportEntry, WorkspaceDetector,
};
use miyabi::logging::{info, LogAction};
use miyabi::types::ProjectMetadata;
use std::path::Path;

fn entry(path: &str, modified: Option<u128>) -> ReportEntry {
    ReportEntry { path: path.to_string(), modified }
}

fn candidate(path: &str, has_workspace: bool) -> Candidate {
    Candidate { path: path.to_string(), has_workspace }
}

const ALL_PRESENT: Presence =
    Presence { config_dir: true, config_file: true, logs_dir: true, reports_dir: true };

#[test]
fn join_separates_with_one_slash() {
    assert_eq!(join("/tmp/project", ".miyabi"), "/tmp/project/.miyabi");
    assert_eq!(join("/tmp/project/", ".miyabi"), "/tmp/project/.miyabi");
    assert_eq!(join("/", "logs"), "/logs");
    assert_eq!(join("", "logs"), "logs");
    assert_eq!(join("relative", "reports"), "relative/reports");
    assert_eq!(join("données/プロジェクト", "logs"), "données/プロジェクト/logs");
    assert_eq!(join("/tmp/project", ""), "/tmp/project/");
}

#[test]
fn join_keeps_a_name_that_starts_at_the_root() {
    assert_eq!(join("/tmp/project", "/etc/passwd"), "/etc/passwd");
    assert_eq!(join("", "/"), "/");
    assert_eq!(join("relative/", "/x"), "/x");
}

fn joined_by_std(base: &str, name: &str) -> String {
    Path::new(base).join(name).to_string_lossy().into_owned()
}

#[test]
fn join_agrees_with_the_standard_library() {
    for base in ["", "/", "/tmp", "/tmp/", "a/b", "a/b/", ".", "..", "/tmp//", "é", "日本/"] {
        let names =
            [".miyabi", "logs", "reports", "config.toml", "actions.log", "", "/", "/x/y", "a/b"];
        for name in names {
            assert_eq!(join(base, name), joined_by_std(base, name));
        }
    }
}

#[test]
fn project_paths_layout() {
    let paths = ProjectPaths::new("/home/alice/project");
    assert_eq!(paths.root, "/home/alice/project");
    assert_eq!(paths.config, "/home/alice/project/.miyabi");
    assert_eq!(paths.logs, "/home/alice/project/.miyabi/logs");
    assert_eq!(paths.reports, "/home/alice/project/.miyabi/reports");
    assert!(paths.config.ends_with(".miyabi"));
    assert_eq!(paths.config_file(), "/home/alice/project/.miyabi/config.toml");
    assert_eq!(paths.actions_log(), "/home/alice/project/.miyabi/logs/actions.log");
}

#[test]
fn project_paths_of_the_filesystem_root() {
    let paths = ProjectPaths::new("/");
    assert_eq!(paths.root, "/");
    assert_eq!(paths.config, "/.miyabi");
    assert_eq!(paths.logs, "/.miyabi/logs");
    assert_eq!(paths.reports, "/.miyabi/reports");
}

#[test]
fn structure_lists_three_private_directories() {
    let paths = ProjectPaths::new("/w");
    let requests = paths.ensure_structure();
    let listed: Vec<(&str, u32)> =
        requests.iter().map(|request| (request.path.as_str(), request.mode)).collect();
    assert_eq!(
        listed,
        vec![("/w/.miyabi", 0o700), ("/w/.miyabi/logs", 0o700), ("/w/.miyabi/reports", 0o700)]
    );
    let same = WorkspaceDetector::ensure_structure(&paths);
    let listed_again: Vec<(&str, u32)> =
        same.iter().map(|request| (request.path.as_str(), request.mode)).collect();
    assert_eq!(listed, listed_again);
}

#[test]
fn validate_accepts_a_complete_workspace() {
    let paths = ProjectPaths::new("/w");
    assert!(paths.validate(&ALL_PRESENT).is_ok());
}

#[test]
fn validate_reports_the_first_missing_part() {
    let paths = ProjectPaths::new("/w");
    let nothing =
        Presence { config_dir: false, config_file: false, logs_dir: false, reports_dir: false };
    match paths.validate(&nothing) {
        Err(LayoutError::ConfigDirMissing { path }) => assert_eq!(path, "/w/.miyabi"),
        other => panic!("unexpected result: {:?}", other),
    }
    match paths.validate(&Presence { config_dir: true, ..nothing }) {
        Err(LayoutError::ConfigFileMissing { path }) => {
            assert_eq!(path, "/w/.miyabi/config.toml")
        }
        other => panic!("unexpected result: {:?}", other),
    }
    match paths.validate(&Presence { config_dir: true, config_file: true, ..nothing }) {
        Err(LayoutError::LogsDirMissing { path }) => assert_eq!(path, "/w/.miyabi/logs"),
        other => panic!("unexpected result: {:?}", other),
    }
    match paths.validate(&Presence { reports_dir: false, ..ALL_PRESENT }) {
        Err(LayoutError::ReportsDirMissing { path }) => assert_eq!(path, "/w/.miyabi/reports"),
        other => panic!("unexpected result: {:?}", other),
    }
    match paths.validate(&Presence { config_dir: false, ..ALL_PRESENT }) {
        Err(LayoutError::ConfigDirMissing { path }) => assert_eq!(path, "/w/.miyabi"),
        other => panic!("unexpected result: {:?}", other),
    }
    match paths.validate(&Presence { config_file: false, reports_dir: false, ..ALL_PRESENT }) {
        Err(LayoutError::ConfigFileMissing { path }) => {
            assert_eq!(path, "/w/.miyabi/config.toml")
        }
        other => panic!("unexpected result: {:?}", other),
    }
}

#[test]
fn detect_picks_the_nearest_workspace() {
    let candidates = vec![
        candidate("/a/b/c", false),
        candidate("/a/b", true),
        candidate("/a", true),
        candidate("/", false),
    ];
    assert_eq!(WorkspaceDetector::detect(&candidates), Some("/a/b".to_string()));
}

#[test]
fn detect_finds_the_start_itself() {
    let candidates = vec![candidate("/a/b", true), candidate("/a", false)];
    assert_eq!(WorkspaceDetector::detect(&candidates), Some("/a/b".to_string()));
}

#[test]
fn detect_finds_the_last_candidate() {
    let candidates = vec![candidate("/a/b", false), candidate("/a", false), candidate("/", true)];
    assert_eq!(WorkspaceDetector::detect(&candidates), Some("/".to_string()));
}

#[test]
fn detect_without_a_workspace() {
    let candidates = vec![candidate("/a/b", false), candidate("/a", false), candidate("/", false)];
    assert_eq!(WorkspaceDetector::detect(&candidates), None);
    assert_eq!(WorkspaceDetector::detect(&Vec::new()), None);
}

#[test]
fn more_recent_orders_known_before_unknown() {
    assert!(more_recent(&entry("a", Some(2)), &entry("b", Some(1))));
    assert!(!more_recent(&entry("a", Some(1)), &entry("b", Some(1))));
    assert!(!more_recent(&entry("a", Some(1)), &entry("b", Some(2))));
    assert!(more_recent(&entry("a", Some(0)), &entry("b", None)));
    assert!(!more_recent(&entry("a", None), &entry("b", Some(0))));
    assert!(!more_recent(&entry("a", None), &entry("b", None)));
}

#[test]
fn reports_are_listed_most_recent_first() {
    let entries = vec![
        entry("old.json", Some(100)),
        entry("unknown-1.json", None),
        entry("new.json", Some(300)),
        entry("tie-first.json", Some(200)),
        entry("unknown-2.json", None),
        entry("tie-second.json", Some(200)),
        entry("epoch.json", Some(0)),
    ];
    assert_eq!(listing_order(&entries), vec![2, 3, 5, 0, 6, 1, 4]);
    assert_eq!(
        list_recent_reports(&entries),
        vec![
            "new.json",
            "tie-first.json",
            "tie-second.json",
            "old.json",
            "epoch.json",
            "unknown-1.json",
            "unknown-2.json"
        ]
    );
}

#[test]
fn listing_agrees_with_a_stable_sort() {
    let times = [5u128, 3, 9, 3, 0, 9, 9, 1, 7, 3];
    let entries: Vec<ReportEntry> = times
        .iter()
        .enumerate()
        .map(|(i, time)| {
            entry(&format!("r{}", i), if i % 4 == 1 { None } else { Some(*time) })
        })
        .collect();
    let mut expected: Vec<&ReportEntry> = entries.iter().collect();
    expected.sort_by(|a, b| b.modified.cmp(&a.modified));
    let expected: Vec<String> = expected.iter().map(|e| e.path.clone()).collect();
    assert_eq!(list_recent_reports(&entries), expected);
}

#[test]
fn listing_of_nothing_and_of_one() {
    assert!(list_recent_reports(&Vec::new()).is_empty());
    assert!(listing_order(&Vec::new()).is_empty());
    assert_eq!(list_recent_reports(&vec![entry("only.json", None)]), vec!["only.json"]);
    assert_eq!(
        list_recent_reports(&vec![entry("max.json", Some(u128::MAX)), entry("b", Some(1))]),
        vec!["max.json", "b"]
    );
}

#[test]
fn initial_config_uses_the_host_name() {
    let instant = chrono::DateTime::from_timestamp(1_700_000_000, 0).unwrap().naive_utc();
    let config = MiyabiConfig::initial(instant, Some("workstation".to_string()));
    assert_eq!(config.project.name, "miyabi-project");
    assert_eq!(config.project.repository, None);
    assert_eq!(config.project.created_at, instant);
    assert_eq!(config.project.device_identifier, "workstation");
    assert_eq!(config.github_token, None);
}

#[test]
fn initial_config_without_a_host_name() {
    let instant = chrono::DateTime::from_timestamp(0, 0).unwrap().naive_utc();
    let config = MiyabiConfig::initial(instant, None);
    assert_eq!(config.project.device_identifier, "unknown-device");
    assert_eq!(config.project.name, "miyabi-project");
}

#[test]
fn default_config_is_the_initial_one() {
    let before = chrono::Utc::now().naive_utc();
    let config = MiyabiConfig::default();
    let after = chrono::Utc::now().naive_utc();
    assert_eq!(config.project.name, "miyabi-project");
    assert_eq!(config.project.repository, None);
    assert_eq!(config.github_token, None);
    assert!(before <= config.project.created_at && config.project.created_at <= after);
    let expected = hostname::get()
        .map(|h| h.to_string_lossy().to_string())
        .unwrap_or_else(|_| "unknown-device".to_string());
    assert_eq!(config.project.device_identifier, expected);
}

#[test]
fn config_clone_keeps_every_field() {
    let instant = chrono::DateTime::from_timestamp(99, 1).unwrap().naive_utc();
    let config = MiyabiConfig {
        project: ProjectMetadata {
            name: "p".to_string(),
            repository: Some("owner/repo".to_string()),
            created_at: instant,
            device_identifier: "d".to_string(),
        },
        github_token: Some("token".to_string()),
    };
    let copy = config.clone();
    assert_eq!(copy.project.name, "p");
    assert_eq!(copy.project.repository.as_deref(), Some("owner/repo"));
    assert_eq!(copy.project.created_at, instant);
    assert_eq!(copy.project.device_identifier, "d");
    assert_eq!(copy.github_token.as_deref(), Some("token"));
}

#[test]
fn manager_knows_its_paths() {
    let manager = MiyabiConfigManager::new("/w").unwrap();
    assert_eq!(manager.paths().root, "/w");
    assert_eq!(manager.paths().config, "/w/.miyabi");
    assert_eq!(manager.config_dir(), "/w/.miyabi");
    let logs = manager.logs_dir();
    assert_eq!((logs.path.as_str(), logs.mode), ("/w/.miyabi/logs", 0o700));
    let reports = manager.reports_dir();
    assert_eq!((reports.path.as_str(), reports.mode), ("/w/.miyabi/reports", 0o700));
}

#[test]
fn manager_from_paths_keeps_them() {
    let paths = ProjectPaths {
        root: "r".to_string(),
        config: "c".to_string(),
        logs: "l".to_string(),
        reports: "p".to_string(),
    };
    let manager = MiyabiConfigManager::from_paths(paths);
    assert_eq!(manager.paths().root, "r");
    assert_eq!(manager.paths().config, "c");
    assert_eq!(manager.paths().logs, "l");
    assert_eq!(manager.paths().reports, "p");
    assert_eq!(manager.config_dir(), "c");
    assert_eq!(manager.logs_dir().path, "l");
    assert_eq!(manager.reports_dir().path, "p");
    assert_eq!(manager.save().file, "c/config.toml");
}

#[test]
fn save_plan_creates_directories_then_writes_the_file() {
    let manager = MiyabiConfigManager::new("/w").unwrap();
    let plan = manager.save();
    let directories: Vec<(&str, u32)> =
        plan.directories.iter().map(|d| (d.path.as_str(), d.mode)).collect();
    assert_eq!(
        directories,
        vec![("/w/.miyabi", 0o700), ("/w/.miyabi/logs", 0o700), ("/w/.miyabi/reports", 0o700)]
    );
    assert_eq!(plan.file, "/w/.miyabi/config.toml");
    assert_eq!(plan.file_mode, 0o600);
}

#[test]
fn load_or_init_loads_a_present_file() {
    let manager = MiyabiConfigManager::new("/w").unwrap();
    match manager.load_or_init(true) {
        ConfigStep::Load { path } => assert_eq!(path, "/w/.miyabi/config.toml"),
        other => panic!("unexpected step: {:?}", other),
    }
}

#[test]
fn load_or_init_initialises_a_missing_file() {
    let manager = MiyabiConfigManager::new("/w").unwrap();
    match manager.load_or_init(false) {
        ConfigStep::Init(plan) => {
            assert_eq!(plan.config.project.name, "miyabi-project");
            assert_eq!(plan.config.github_token, None);
            assert_eq!(plan.save.file, "/w/.miyabi/config.toml");
            assert_eq!(plan.save.file_mode, 0o600);
            assert_eq!(plan.save.directories.len(), 3);
        }
        other => panic!("unexpected step: {:?}", other),
    }
}

#[test]
fn init_with_defaults_plans_a_save_of_the_default_config() {
    let manager = MiyabiConfigManager::new("/w/").unwrap();
    let plan = manager.init_with_defaults();
    assert_eq!(plan.config.project.name, "miyabi-project");
    assert_eq!(plan.config.project.repository, None);
    assert_eq!(plan.save.file, "/w/.miyabi/config.toml");
    assert_eq!(plan.save.file_mode, 0o600);
    assert_eq!(plan.save.directories[0].path, "/w/.miyabi");
}

#[test]
fn missing_project_directories_are_an_error() {
    assert_eq!(directories_or_error(None).unwrap_err(), ConfigError::NoProjectDirectories);
    assert_eq!(
        ConfigError::NoProjectDirectories.message(),
        "failed to determine project directories"
    );
    if let Some(found) = directories::ProjectDirs::from("dev", "Miyabi", "miyabi") {
        let expected = found.config_dir().to_path_buf();
        let kept = directories_or_error(Some(found)).unwrap();
        assert_eq!(kept.config_dir(), expected.as_path());
    }
}

#[test]
fn global_dirs_match_the_outside_lookup() {
    let expected = directories::ProjectDirs::from("dev", "Miyabi", "miyabi");
    match MiyabiConfigManager::global_dirs() {
        Ok(found) => {
            assert_eq!(found.project_path(), expected.unwrap().project_path());
        }
        Err(error) => {
            assert_eq!(error, ConfigError::NoProjectDirectories);
            assert!(expected.is_none());
        }
    }
}

#[test]
fn info_upper_cases_the_action() {
    let entry = info("init", Some("Initialized project at /w".to_string()));
    assert_eq!(entry.action, "INIT");
    assert_eq!(entry.detail.as_deref(), Some("Initialized project at /w"));
    let entry = info("work_on", None);
    assert_eq!(entry.action, "WORK_ON");
    assert_eq!(entry.detail, None);
    let entry = info("Straße", None);
    assert_eq!(entry.action, "STRASSE");
}

#[test]
fn info_is_stamped_with_the_current_time() {
    let before = chrono::Utc::now();
    let entry = info("status", None);
    let after = chrono::Utc::now();
    let stamped = chrono::DateTime::parse_from_rfc3339(&entry.timestamp).unwrap();
    assert_eq!(stamped.offset().local_minus_utc(), 0);
    assert!(before <= stamped && stamped <= after);
}

#[test]
fn log_action_keeps_its_fields() {
    let entry = LogAction::new("2024-01-01T00:00:00+00:00".to_string(), "INIT".to_string(), None);
    assert_eq!(entry.timestamp, "2024-01-01T00:00:00+00:00");
    assert_eq!(entry.action, "INIT");
    assert_eq!(entry.detail, None);
    let entry = LogAction::new(String::new(), "x".to_string(), Some("d".to_string()));
    assert_eq!(entry.timestamp, "");
    assert_eq!(entry.action, "x");
    assert_eq!(entry.detail.as_deref(), Some("d"));
}
