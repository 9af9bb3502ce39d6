use fieldmid::config::{
    auto_device_id, device_id_from_parts, optional_value, sanitize_device_fragment, startup_line,
    stream_for_role, stream_params, BaseConfig, ConfigError, DaemonConfig, SyncSettings,
};
use fieldmid::session::Session;

fn session_with_role(role: &str) -> Session {
    Session {
        access_token: "access".to_string(),
        refresh_token: "refresh".to_string(),
        expires_at: 1_700_000_000,
        user_id: "user-1".to_string(),
        email: "ops@example.com".to_string(),
        role: role.to_string(),
        full_name: None,
        org_id: Some("org-1".to_string()),
        org_name: Some("Acme Mining".to_string()),
        site_id: None,
        site_name: None,
        supabase_url: "https://example.supabase.co".to_string(),
        supabase_anon_key: "anon".to_string(),
    }
}

#[test]
fn optional_value_trims_and_drops_blank() {
    assert_eq!(optional_value(Some("  https://ps.example.com \n".to_string())), Some("https://ps.example.com".to_string()));
    assert_eq!(optional_value(Some("   \t".to_string())), None);
    assert_eq!(optional_value(Some(String::new())), None);
    assert_eq!(optional_value(None), None);
}

#[test]
fn sanitize_collapses_runs_and_trims_dashes() {
    assert_eq!(sanitize_device_fragment("Raspberry Pi 4 Model B"), "raspberry-pi-4-model-b");
    assert_eq!(sanitize_device_fragment("--Edge__Box!!"), "edge-box");
    assert_eq!(sanitize_device_fragment("ÄÖÜ gateway"), "gateway");
    assert_eq!(sanitize_device_fragment("!!!"), "");
    assert_eq!(sanitize_device_fragment(""), "");
}

#[test]
fn sanitize_is_idempotent_on_examples() {
    for raw in ["Raspberry Pi 4 Model B", "  a--b  ", "X.Y.Z", "édge-01"] {
        let once = sanitize_device_fragment(raw);
        assert_eq!(sanitize_device_fragment(&once), once);
    }
}

#[test]
fn device_id_joins_host_and_model() {
    assert_eq!(device_id_from_parts(Some("Edge-Gateway".to_string()), "ThinkCentre M70q"), "edge-gateway-thinkcentre-m70q");
    assert_eq!(device_id_from_parts(Some("Edge-Gateway".to_string()), ""), "edge-gateway");
    assert_eq!(device_id_from_parts(Some("   ".to_string()), ""), "fieldmid-edge");
    assert_eq!(device_id_from_parts(None, "PC"), "fieldmid-edge-pc");
}

#[test]
fn auto_device_id_is_a_clean_fragment() {
    let id = auto_device_id("");
    assert!(!id.starts_with('-') && !id.ends_with('-'));
    assert!(id.chars().all(|c| c.is_ascii_lowercase() || c.is_ascii_digit() || c == '-'));
}

#[test]
fn base_config_prefers_configured_device_id() {
    let base = BaseConfig::from_settings(Some(" rig-7 ".to_string()), Some("/var/lib/fm.db".to_string()), "");
    assert_eq!(base.device_id, "rig-7");
    assert_eq!(base.database_path, "/var/lib/fm.db");
}

#[test]
fn base_config_ignores_placeholder_device_id() {
    let base = BaseConfig::from_settings(Some("fieldmid-edge-001".to_string()), None, "");
    assert_ne!(base.device_id, "fieldmid-edge-001");
    assert_eq!(base.database_path, "fieldmid-edge.db");
}

#[test]
fn stream_follows_role() {
    assert_eq!(stream_for_role("admin").map(|s| s.name), Some("admin_overview".to_string()));
    assert_eq!(stream_for_role("supervisor").map(|s| s.name), Some("supervisor_site".to_string()));
    assert!(stream_for_role("field_worker").is_none());
}

fn settings(url: Option<&str>, token: Option<&str>, stream: Option<&str>, params: Option<&str>) -> SyncSettings {
    SyncSettings {
        powersync_url: url.map(|s| s.to_string()),
        powersync_token: token.map(|s| s.to_string()),
        stream: stream.map(|s| s.to_string()),
        stream_params: params.map(|s| s.to_string()),
    }
}

fn base() -> BaseConfig {
    BaseConfig { device_id: "rig-7".to_string(), database_path: "edge.db".to_string() }
}

#[test]
fn daemon_config_requires_powersync_url() {
    let err = DaemonConfig::from_session(base(), &session_with_role("admin"), settings(Some("  "), Some("jwt"), None, None)).unwrap_err();
    assert_eq!(err, ConfigError::MissingPowerSyncUrl);
    assert_eq!(err.message(), "POWERSYNC_URL is required");
    let err = DaemonConfig::from_session(base(), &session_with_role("admin"), settings(None, None, None, None)).unwrap_err();
    assert_eq!(err, ConfigError::MissingPowerSyncUrl);
}

#[test]
fn daemon_config_requires_powersync_token() {
    let err = DaemonConfig::from_session(base(), &session_with_role("admin"), settings(Some("https://ps.example.com"), None, None, None)).unwrap_err();
    assert_eq!(err, ConfigError::MissingPowerSyncToken);
    assert_eq!(err.message(), "POWERSYNC_TOKEN is required");
    let err = DaemonConfig::from_session(base(), &session_with_role("admin"), settings(Some("https://ps.example.com"), Some(" \t"), None, None)).unwrap_err();
    assert_eq!(err, ConfigError::MissingPowerSyncToken);
}

#[test]
fn daemon_config_from_session() {
    let cfg = DaemonConfig::from_session(base(), &session_with_role("supervisor"), settings(Some(" https://ps.example.com "), Some(" ps-jwt \n"), None, None)).unwrap();
    assert_eq!(cfg.powersync_url, "https://ps.example.com");
    assert_eq!(cfg.powersync_token, "ps-jwt");
    assert_eq!(cfg.sync_stream.as_ref().map(|s| s.name.as_str()), Some("supervisor_site"));
    assert!(cfg.sync_stream.as_ref().unwrap().params.is_none());
    assert_eq!(cfg.role.as_deref(), Some("supervisor"));
    assert_eq!(cfg.org_name.as_deref(), Some("Acme Mining"));
    assert_eq!(cfg.email.as_deref(), Some("ops@example.com"));
    assert_eq!(
        startup_line(&cfg),
        "fieldmid_edge_started device_id=rig-7 database_path=edge.db mode=read_only stream_subscription=enabled role=supervisor org=Acme Mining"
    );
}

#[test]
fn daemon_config_stream_override_and_params() {
    let cfg = DaemonConfig::from_session(
        base(),
        &session_with_role("field_worker"),
        settings(Some("https://ps.example.com"), Some("jwt"), Some(" custom_stream "), Some("{\"site_id\": \"s-1\"}")),
    )
    .unwrap();
    let stream = cfg.sync_stream.unwrap();
    assert_eq!(stream.name, "custom_stream");
    assert_eq!(stream.params.unwrap()["site_id"], "s-1");
}

#[test]
fn daemon_config_rejects_bad_stream_params() {
    for bad in ["[1, 2]", "not json", "42"] {
        let err = DaemonConfig::from_session(base(), &session_with_role("admin"), settings(Some("u"), Some("t"), None, Some(bad))).unwrap_err();
        assert_eq!(err, ConfigError::InvalidStreamParams);
        assert_eq!(err.message(), "POWERSYNC_STREAM_PARAMS must be a JSON object");
    }
}

#[test]
fn daemon_config_ignores_params_without_stream() {
    let cfg = DaemonConfig::from_session(base(), &session_with_role("field_worker"), settings(Some("u"), Some("t"), None, Some("not json"))).unwrap();
    assert!(cfg.sync_stream.is_none());
}

#[test]
fn stream_params_parses_objects_only() {
    assert!(stream_params(None).unwrap().is_none());
    assert!(stream_params(Some("   ".to_string())).unwrap().is_none());
    let v = stream_params(Some("{\"a\": 1}".to_string())).unwrap().unwrap();
    assert_eq!(v["a"], 1);
    assert_eq!(stream_params(Some("[]".to_string())).unwrap_err(), ConfigError::InvalidStreamParams);
    assert_eq!(stream_params(Some("{".to_string())).unwrap_err(), ConfigError::InvalidStreamParams);
}

#[test]
fn startup_line_without_stream_role_or_org() {
    let cfg = DaemonConfig {
        base: BaseConfig { device_id: "d1".to_string(), database_path: "x.db".to_string() },
        powersync_url: "u".to_string(),
        powersync_token: "t".to_string(),
        sync_stream: None,
        role: None,
        org_name: None,
        email: None,
    };
    assert_eq!(startup_line(&cfg), "fieldmid_edge_started device_id=d1 database_path=x.db mode=read_only stream_subscription=disabled");
}

#[test]
fn sanitize_keeps_letters_and_joins_runs() {
    assert_eq!(sanitize_device_fragment("  Raspberry Pi 4 Model B!! "), "raspberry-pi-4-model-b");
    for raw in ["  Raspberry Pi 4 Model B!! ", "a..b--c", "Zé9 _ x", "---"] {
        let out = sanitize_device_fragment(raw);
        let letters: String = out.chars().filter(|c| *c != '-').collect();
        let expected: String = raw.chars().filter(|c| c.is_ascii_alphanumeric()).map(|c| c.to_ascii_lowercase()).collect();
        assert_eq!(letters, expected);
    }
    assert_eq!(sanitize_device_fragment("a..b--c"), "a-b-c");
    assert_eq!(sanitize_device_fragment("Zé9 _ x"), "z-9-x");
}
