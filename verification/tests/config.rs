use sov_rollup_manager::config::{ConfigError, FileRead, ManagerConfig, RollupVersion};

fn version(start: Option<u64>, stop: Option<u64>) -> RollupVersion {
    RollupVersion {
        rollup_binary: "/bin/rollup".to_string(),
        config_path: "/etc/rollup.toml".to_string(),
        migration_path: None,
        start_height: start,
        stop_height: stop,
    }
}

#[test]
fn single_version_valid() {
    let config = ManagerConfig {
        versions: vec![version(None, None)],
    };
    assert!(config.validate().is_ok());
}

#[test]
fn two_versions_valid() {
    let config = ManagerConfig {
        versions: vec![version(None, Some(100)), version(Some(101), None)],
    };
    assert!(config.validate().is_ok());
}

#[test]
fn three_versions_valid() {
    let config = ManagerConfig {
        versions: vec![
            version(None, Some(100)),
            version(Some(101), Some(200)),
            version(Some(201), None),
        ],
    };
    assert!(config.validate().is_ok());
}

#[test]
fn empty_versions_error() {
    let config = ManagerConfig { versions: vec![] };
    assert!(matches!(config.validate(), Err(ConfigError::NoVersions)));
}

#[test]
fn first_with_start_height_error() {
    let config = ManagerConfig {
        versions: vec![version(Some(0), None)],
    };
    assert!(matches!(
        config.validate(),
        Err(ConfigError::FirstVersionHasStartHeight)
    ));
}

#[test]
fn last_with_stop_height_valid() {
    // Last version is allowed to have a stop_height
    let config = ManagerConfig {
        versions: vec![version(None, Some(100)), version(Some(101), Some(200))],
    };
    assert!(config.validate().is_ok());
}

#[test]
fn missing_start_height_error() {
    let config = ManagerConfig {
        versions: vec![version(None, Some(100)), version(None, None)],
    };
    assert!(matches!(
        config.validate(),
        Err(ConfigError::MissingStartHeight { index: 1 })
    ));
}

#[test]
fn missing_stop_height_error() {
    let config = ManagerConfig {
        versions: vec![
            version(None, None), // Missing stop_height but not last
            version(Some(101), None),
        ],
    };
    assert!(matches!(
        config.validate(),
        Err(ConfigError::MissingStopHeight { index: 0 })
    ));
}

#[test]
fn height_gap_error() {
    let config = ManagerConfig {
        versions: vec![
            version(None, Some(100)),
            version(Some(102), None), // Should be 101
        ],
    };
    assert!(matches!(
        config.validate(),
        Err(ConfigError::HeightGap {
            prev_index: 0,
            next_index: 1,
            stop_height: 100,
            start_height: 102,
            expected_start: 101,
        })
    ));
}

#[test]
fn height_overlap_error() {
    let config = ManagerConfig {
        versions: vec![
            version(None, Some(100)),
            version(Some(100), None), // Should be 101, causes overlap
        ],
    };
    assert!(matches!(
        config.validate(),
        Err(ConfigError::HeightGap { .. })
    ));
}

#[test]
fn heights_that_overflow_are_told() {
    let config = ManagerConfig {
        versions: vec![version(None, Some(u64::MAX)), version(Some(0), None)],
    };
    assert!(!config.is_representable());
    let config = ManagerConfig {
        versions: vec![version(None, Some(u64::MAX))],
    };
    assert!(config.is_representable());
    assert!(config.validate().is_ok());
}

#[test]
fn load_reports_what_is_wrong_with_the_file() {
    assert!(matches!(
        ManagerConfig::load(FileRead::Unreadable("no such file".to_string())),
        Err(ConfigError::ReadFile(m)) if m == "no such file"
    ));
    assert!(matches!(
        ManagerConfig::load(FileRead::Malformed("bad json".to_string())),
        Err(ConfigError::Parse(m)) if m == "bad json"
    ));
    assert!(matches!(
        ManagerConfig::load(FileRead::Parsed(ManagerConfig { versions: vec![] })),
        Err(ConfigError::NoVersions)
    ));
    let loaded = ManagerConfig::load(FileRead::Parsed(ManagerConfig {
        versions: vec![version(None, Some(7))],
    }));
    assert_eq!(loaded.unwrap().versions[0].stop_height, Some(7));
}
