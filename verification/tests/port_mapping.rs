use laval_node::model::{
    apply_verdict, EngineVerdict, PortMappingMode, PortMappingSpec, TunnelConfig,
    ValidationError,
};

const SERVER: &str =
    r#"{"bind_addr":"0.0.0.0:2333","default_token":"secret","services":{"web":{"bind_addr":"0.0.0.0:8080"}}}"#;
const CLIENT: &str =
    r#"{"remote_addr":"edge.example.com:2333","default_token":"secret","services":{"web":{"local_addr":"127.0.0.1:80"}}}"#;

fn spec(mode: PortMappingMode, server: Option<&str>, client: Option<&str>) -> PortMappingSpec {
    PortMappingSpec {
        mode,
        config: TunnelConfig {
            server: server.map(|s| s.to_string()),
            client: client.map(|c| c.to_string()),
        },
    }
}

#[test]
fn server_mode_keeps_server_section_only() {
    let (config, mode) = spec(PortMappingMode::Server, Some(SERVER), Some(CLIENT))
        .into_rathole()
        .unwrap();
    assert_eq!(mode, PortMappingMode::Server);
    assert_eq!(config.server, Some(SERVER.to_string()));
    assert_eq!(config.client, None);
}

#[test]
fn client_mode_keeps_client_section_only() {
    let (config, mode) = spec(PortMappingMode::Client, Some(SERVER), Some(CLIENT))
        .into_rathole()
        .unwrap();
    assert_eq!(mode, PortMappingMode::Client);
    assert_eq!(config.client, Some(CLIENT.to_string()));
    assert_eq!(config.server, None);
}

#[test]
fn other_section_has_no_part_in_the_outcome() {
    let (config, _) = spec(PortMappingMode::Server, Some(SERVER), Some("not even json"))
        .into_rathole()
        .unwrap();
    assert_eq!(config, TunnelConfig { server: Some(SERVER.to_string()), client: None });
    let (config, _) = spec(PortMappingMode::Client, Some("{\"junk\":1}"), Some(CLIENT))
        .into_rathole()
        .unwrap();
    assert_eq!(config, TunnelConfig { server: None, client: Some(CLIENT.to_string()) });
}

#[test]
fn missing_server_section_is_refused() {
    assert_eq!(
        spec(PortMappingMode::Server, None, Some(CLIENT)).into_rathole(),
        Err(ValidationError::MissingServerSection)
    );
    assert_eq!(
        spec(PortMappingMode::Server, None, None).into_rathole(),
        Err(ValidationError::MissingServerSection)
    );
}

#[test]
fn missing_client_section_is_refused() {
    assert_eq!(
        spec(PortMappingMode::Client, Some(SERVER), None).into_rathole(),
        Err(ValidationError::MissingClientSection)
    );
    assert_eq!(
        spec(PortMappingMode::Client, None, None).into_rathole(),
        Err(ValidationError::MissingClientSection)
    );
}

#[test]
fn engine_refusal_is_tunnel_config_invalid() {
    let outcome = spec(PortMappingMode::Server, Some("{\"services\":{}}"), None).into_rathole();
    match outcome {
        Err(ValidationError::TunnelConfigInvalid(reason)) => {
            assert!(reason.contains("bind_addr"), "{reason}");
        }
        other => panic!("unexpected {other:?}"),
    }
    let outcome = spec(PortMappingMode::Client, None, Some("][")).into_rathole();
    assert!(matches!(outcome, Err(ValidationError::TunnelConfigInvalid(_))));
}

#[test]
fn engine_refuses_unknown_fields() {
    let section = r#"{"bind_addr":"0.0.0.0:2333","services":{},"surprise":true}"#;
    let outcome = spec(PortMappingMode::Server, Some(section), None).into_rathole();
    assert!(matches!(outcome, Err(ValidationError::TunnelConfigInvalid(_))));
}

#[test]
fn sanitize_does_not_ask_the_engine() {
    let outcome = spec(PortMappingMode::Server, Some("][: no json"), Some(CLIENT)).sanitize();
    assert_eq!(
        outcome,
        Ok((
            TunnelConfig { server: Some("][: no json".to_string()), client: None },
            PortMappingMode::Server
        ))
    );
    assert_eq!(
        spec(PortMappingMode::Client, Some(SERVER), None).sanitize(),
        Err(ValidationError::MissingClientSection)
    );
    assert_eq!(
        spec(PortMappingMode::Server, None, Some(CLIENT)).sanitize(),
        Err(ValidationError::MissingServerSection)
    );
}

#[test]
fn apply_verdict_follows_verdict() {
    let config = TunnelConfig { server: Some(SERVER.to_string()), client: None };
    assert_eq!(
        apply_verdict(config.clone(), PortMappingMode::Server, EngineVerdict::Accepted),
        Ok((config.clone(), PortMappingMode::Server))
    );
    assert_eq!(
        apply_verdict(
            config,
            PortMappingMode::Server,
            EngineVerdict::Rejected("port out of range".to_string())
        ),
        Err(ValidationError::TunnelConfigInvalid("port out of range".to_string()))
    );
}

#[test]
fn blob_is_a_json_object_of_both_sections() {
    let both = TunnelConfig { server: Some("{\"a\":1}".to_string()), client: Some("{}".to_string()) };
    assert_eq!(both.to_blob(), "{\"server\":{\"a\":1},\"client\":{}}");
    let none = TunnelConfig { server: None, client: None };
    assert_eq!(none.to_blob(), "{\"server\":null,\"client\":null}");
    let client = TunnelConfig { server: None, client: Some(CLIENT.to_string()) };
    assert_eq!(client.to_blob(), format!("{{\"server\":null,\"client\":{CLIENT}}}"));
}

#[test]
fn blob_of_sanitized_config_is_read_by_the_engine() {
    let (config, _) = spec(PortMappingMode::Server, Some(SERVER), Some(CLIENT))
        .into_rathole()
        .unwrap();
    let engine: rathole::Config = serde_json::from_str(&config.to_blob()).unwrap();
    assert!(engine.server.is_some());
    assert!(engine.client.is_none());
}

#[test]
fn mode_is_server() {
    assert!(PortMappingMode::Server.is_server());
    assert!(!PortMappingMode::Client.is_server());
}

#[test]
fn section_error_messages() {
    assert_eq!(
        ValidationError::MissingServerSection.message(),
        "missing server configuration for port mapping"
    );
    assert_eq!(
        ValidationError::MissingClientSection.message(),
        "missing client configuration for port mapping"
    );
    assert_eq!(
        ValidationError::TunnelConfigInvalid("why".to_string()).message(),
        "why"
    );
}
