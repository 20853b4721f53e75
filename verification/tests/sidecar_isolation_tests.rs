use gytmdl_gui::sidecar_isolation::{
    EnvVars, IsolationConfig, IsolationDirs, SidecarIsolation,
};

fn dirs(root: &str) -> IsolationDirs {
    IsolationDirs {
        config_dir: format!("{}/config", root),
        cache_dir: format!("{}/cache", root),
        data_dir: format!("{}/data", root),
    }
}

#[test]
fn test_isolation_creation() {
    let prepared = dirs("/tmp/isolated");
    let config = IsolationConfig {
        use_isolation: true,
        custom_config_dir: Some(prepared.config_dir.clone()),
        custom_cache_dir: Some(prepared.cache_dir.clone()),
        custom_data_dir: Some(prepared.data_dir.clone()),
        additional_env_vars: EnvVars::new(),
    };

    let isolation = SidecarIsolation::new(config, "linux", Ok(prepared)).unwrap();

    assert_eq!(isolation.get_config_dir(), "/tmp/isolated/config");
    assert_eq!(isolation.get_cache_dir(), "/tmp/isolated/cache");
    assert_eq!(isolation.get_data_dir(), "/tmp/isolated/data");
    assert!(!isolation.get_env_vars().is_empty());
}

#[test]
fn test_no_isolation() {
    let config = IsolationConfig { use_isolation: false, ..Default::default() };

    let isolation =
        SidecarIsolation::new(config, "linux", Err("not prepared".to_string())).unwrap();

    assert!(isolation.get_config_dir().is_empty());
    assert!(isolation.get_cache_dir().is_empty());
    assert!(isolation.get_data_dir().is_empty());
}

#[test]
fn test_command_isolation() {
    let config = IsolationConfig {
        use_isolation: true,
        custom_config_dir: Some("/tmp/isolated/config".to_string()),
        custom_cache_dir: Some("/tmp/isolated/cache".to_string()),
        custom_data_dir: Some("/tmp/isolated/data".to_string()),
        additional_env_vars: {
            let mut vars = EnvVars::new();
            vars.insert("TEST_VAR".to_string(), "test_value".to_string());
            vars
        },
    };

    let isolation = SidecarIsolation::new(config, "linux", Ok(dirs("/tmp/isolated"))).unwrap();

    assert!(isolation.get_env_vars().contains_key("GYTMDL_CONFIG_DIR"));
    assert!(isolation.get_env_vars().contains_key("TEST_VAR"));
}

fn entries(env: &EnvVars) -> Vec<(String, String)> {
    (0..env.len())
        .map(|i| {
            let (k, v) = env.entry(i);
            (k.to_string(), v.to_string())
        })
        .collect()
}

fn pairs(items: &[(&str, &str)]) -> Vec<(String, String)> {
    items.iter().map(|(k, v)| (k.to_string(), v.to_string())).collect()
}

#[test]
fn environment_on_linux_and_macos() {
    for os in ["linux", "macos"] {
        let env = SidecarIsolation::create_isolation_env_vars("/c", "/k", "/d", os);
        assert_eq!(
            entries(&env),
            pairs(&[
                ("GYTMDL_CONFIG_DIR", "/c"),
                ("GYTMDL_CACHE_DIR", "/k"),
                ("GYTMDL_DATA_DIR", "/d"),
                ("XDG_CONFIG_HOME", "/c"),
                ("XDG_CACHE_HOME", "/k"),
                ("XDG_DATA_HOME", "/d"),
                ("GYTMDL_NO_SYSTEM_CONFIG", "1"),
                ("GYTMDL_GUI_MODE", "1"),
            ])
        );
    }
}

#[test]
fn environment_on_windows_and_elsewhere() {
    let env = SidecarIsolation::create_isolation_env_vars("/c", "/k", "/d", "windows");
    assert_eq!(
        entries(&env),
        pairs(&[
            ("GYTMDL_CONFIG_DIR", "/c"),
            ("GYTMDL_CACHE_DIR", "/k"),
            ("GYTMDL_DATA_DIR", "/d"),
            ("APPDATA", "/d"),
            ("LOCALAPPDATA", "/k"),
            ("GYTMDL_NO_SYSTEM_CONFIG", "1"),
            ("GYTMDL_GUI_MODE", "1"),
        ])
    );
    let env = SidecarIsolation::create_isolation_env_vars("/c", "/k", "/d", "freebsd");
    assert_eq!(env.len(), 5);
    assert_eq!(env.get("GYTMDL_GUI_MODE").map(|s| s.as_str()), Some("1"));
    assert!(!env.contains_key("XDG_CONFIG_HOME"));
}

#[test]
fn additional_variables_override() {
    let mut more = EnvVars::new();
    more.set("GYTMDL_GUI_MODE", "0");
    more.set("EXTRA", "x");
    let config = IsolationConfig {
        use_isolation: true,
        custom_config_dir: None,
        custom_cache_dir: None,
        custom_data_dir: None,
        additional_env_vars: more,
    };
    let isolation = SidecarIsolation::new(config, "windows", Ok(dirs("C:/iso"))).unwrap();
    let env = isolation.get_env_vars();
    assert_eq!(env.len(), 8);
    assert_eq!(env.get("GYTMDL_GUI_MODE").map(|s| s.as_str()), Some("0"));
    assert_eq!(env.get("EXTRA").map(|s| s.as_str()), Some("x"));
    assert_eq!(env.entry(7), ("EXTRA", "x"));
    assert_eq!(env.get("APPDATA").map(|s| s.as_str()), Some("C:/iso/data"));
    assert!(env.get("MISSING").is_none());
}

#[test]
fn isolation_that_could_not_be_prepared() {
    let r = SidecarIsolation::new(
        IsolationConfig::default(),
        "linux",
        Err("Failed to create config directory: denied".to_string()),
    );
    assert_eq!(r.err(), Some("Failed to create config directory: denied".to_string()));
}

#[test]
fn without_isolation_only_the_additional_variables() {
    let mut more = EnvVars::new();
    more.set("A", "1");
    more.set("A", "2");
    let config = IsolationConfig {
        use_isolation: false,
        custom_config_dir: Some("/ignored".to_string()),
        custom_cache_dir: None,
        custom_data_dir: None,
        additional_env_vars: more,
    };
    let isolation = SidecarIsolation::new(config, "linux", Ok(dirs("/ignored"))).unwrap();
    assert_eq!(entries(isolation.get_env_vars()), pairs(&[("A", "2")]));
    let info = isolation.get_isolation_info(Some("gytmdl 1.2".to_string()));
    assert!(!info.is_isolated);
    assert_eq!(info.env_vars_count, 1);
    assert_eq!(info.system_gytmdl_version, Some("gytmdl 1.2".to_string()));
    assert_eq!(info.config_dir, "");
}

#[test]
fn isolation_info_of_an_isolated_tool() {
    let isolation =
        SidecarIsolation::new(IsolationConfig::default(), "linux", Ok(dirs("/iso"))).unwrap();
    let info = isolation.get_isolation_info(None);
    assert!(info.is_isolated);
    assert_eq!(info.config_dir, "/iso/config");
    assert_eq!(info.cache_dir, "/iso/cache");
    assert_eq!(info.data_dir, "/iso/data");
    assert_eq!(info.env_vars_count, 8);
    assert_eq!(info.system_gytmdl_version, None);
}
