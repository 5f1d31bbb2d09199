use tauri_map::map_config::{get_map_config, MapConfig, MAPBOX_TOKEN_ENV_VAR};

#[test]
fn token_variable_name() {
    assert_eq!(MAPBOX_TOKEN_ENV_VAR, "MAPBOX_TOKEN");
}

#[test]
fn token_passes_through_unchanged() {
    let config = get_map_config(Some("pk.abc 123\n".to_string()), &vec![], None);
    assert_eq!(
        config,
        MapConfig { mapbox_token: Some("pk.abc 123\n".to_string()), ws_port: 8765 }
    );
    let config = get_map_config(Some(String::new()), &vec![], None);
    assert_eq!(config.mapbox_token, Some(String::new()));
}

#[test]
fn token_absent() {
    let config = get_map_config(None, &vec!["--ws-port=9999".to_string()], Some("7000"));
    assert_eq!(config, MapConfig { mapbox_token: None, ws_port: 9999 });
}

#[test]
fn port_is_the_resolved_port() {
    let token = Some("t".to_string());
    assert_eq!(get_map_config(token.clone(), &vec![], Some("7000")).ws_port, 7000);
    assert_eq!(get_map_config(token.clone(), &vec!["x".to_string()], None).ws_port, 8765);
    assert_eq!(get_map_config(token, &vec!["81".to_string()], Some("7000")).ws_port, 81);
}
