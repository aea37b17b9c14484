use laval_node::config::ManagerLinkConfig;
use laval_node::model::{PortMappingMode, PortMappingSpec, TunnelConfig};
use laval_node::resolver::{
    decode_port_mapping, fetch_port_mapping_from_manager, fetch_request, load_port_mapping,
    port_mapping_from, remote_role, FetchError, FetchRequest, MappingSource, RemoteMode,
    RemoteNodeConfig, RemotePortMapping,
};

const SERVER_BLOB: &str = r#"{"server":{"bind_addr":"0.0.0.0:2333","default_token":"t","services":{"web":{"bind_addr":"0.0.0.0:8080"}}}}"#;
const CLIENT_BLOB: &str = r#"{"client":{"remote_addr":"edge:2333","default_token":"t","services":{"web":{"local_addr":"127.0.0.1:80"}}},"server":null}"#;

fn mapping(mode: PortMappingMode, server: Option<&str>, client: Option<&str>) -> PortMappingSpec {
    PortMappingSpec {
        mode,
        config: TunnelConfig {
            server: server.map(|s| s.to_string()),
            client: client.map(|c| c.to_string()),
        },
    }
}

fn answer(mode: RemoteMode, config_json: &str) -> Result<RemoteNodeConfig, String> {
    Ok(RemoteNodeConfig {
        name: "edge-1".to_string(),
        port_mapping: Some(RemotePortMapping { mode, config_json: config_json.to_string() }),
    })
}

#[test]
fn without_manager_local_mapping_stands() {
    let local = mapping(PortMappingMode::Client, None, Some("{}"));
    assert_eq!(
        load_port_mapping(Some(local.clone()), None),
        Ok((Some(local), MappingSource::Local))
    );
    assert_eq!(load_port_mapping(None, None), Ok((None, MappingSource::Local)));
}

#[test]
fn remote_mapping_overrides_conflicting_local_one() {
    let local = mapping(PortMappingMode::Client, None, Some("{\"local\":true}"));
    let remote = mapping(PortMappingMode::Server, Some("{\"remote\":true}"), None);
    let (resolved, source) =
        load_port_mapping(Some(local), Some(Ok(Some(remote.clone())))).unwrap();
    assert_eq!(resolved, Some(remote.clone()));
    assert_eq!(resolved.unwrap().mode, PortMappingMode::Server);
    assert_eq!(source, MappingSource::Manager);
    assert_eq!(
        load_port_mapping(None, Some(Ok(Some(remote.clone())))),
        Ok((Some(remote), MappingSource::Manager))
    );
}

#[test]
fn empty_answer_keeps_local_mapping() {
    let local = mapping(PortMappingMode::Server, Some("{}"), None);
    assert_eq!(
        load_port_mapping(Some(local.clone()), Some(Ok(None))),
        Ok((Some(local), MappingSource::LocalAfterEmptyAnswer))
    );
    assert_eq!(
        load_port_mapping(None, Some(Ok(None))),
        Ok((None, MappingSource::LocalAfterEmptyAnswer))
    );
}

#[test]
fn failed_fetch_is_fatal_even_with_local_mapping() {
    let local = mapping(PortMappingMode::Server, Some("{}"), None);
    assert_eq!(
        load_port_mapping(Some(local), Some(Err(FetchError::UnspecifiedMode))),
        Err(FetchError::UnspecifiedMode)
    );
    assert_eq!(
        load_port_mapping(None, Some(Err(FetchError::Transport("down".to_string())))),
        Err(FetchError::Transport("down".to_string()))
    );
}

#[test]
fn request_names_node_and_endpoint() {
    let link = ManagerLinkConfig {
        endpoint: "http://manager.internal:50051".to_string(),
        node_name: "edge-1".to_string(),
    };
    assert_eq!(
        fetch_request(&link),
        FetchRequest {
            endpoint: "http://manager.internal:50051".to_string(),
            name: "edge-1".to_string()
        }
    );
}

#[test]
fn transport_failure_is_reported_with_reason() {
    assert_eq!(
        fetch_port_mapping_from_manager(Err("node 'edge-1' not found".to_string())),
        Err(FetchError::Transport("node 'edge-1' not found".to_string()))
    );
}

#[test]
fn answer_without_mapping_gives_none() {
    let reply = Ok(RemoteNodeConfig { name: "edge-1".to_string(), port_mapping: None });
    assert_eq!(fetch_port_mapping_from_manager(reply), Ok(None));
}

#[test]
fn unspecified_mode_is_fatal() {
    assert_eq!(
        fetch_port_mapping_from_manager(answer(RemoteMode::Unspecified, SERVER_BLOB)),
        Err(FetchError::UnspecifiedMode)
    );
}

#[test]
fn unrecognized_mode_is_fatal() {
    assert_eq!(
        fetch_port_mapping_from_manager(answer(RemoteMode::Unrecognized, SERVER_BLOB)),
        Err(FetchError::UnknownMode)
    );
}

#[test]
fn mode_is_judged_before_the_configuration() {
    assert_eq!(
        fetch_port_mapping_from_manager(answer(RemoteMode::Unspecified, "not json")),
        Err(FetchError::UnspecifiedMode)
    );
    assert_eq!(
        fetch_port_mapping_from_manager(answer(RemoteMode::Unrecognized, "not json")),
        Err(FetchError::UnknownMode)
    );
}

#[test]
fn malformed_configuration_is_fatal() {
    for blob in ["not json", "[]", "{\"server\":{}}", "{\"surprise\":1}"] {
        let outcome = fetch_port_mapping_from_manager(answer(RemoteMode::Server, blob));
        assert!(matches!(outcome, Err(FetchError::MalformedConfig(_))), "{blob}");
    }
}

#[test]
fn served_mapping_is_decoded_with_its_sections() {
    let spec = fetch_port_mapping_from_manager(answer(RemoteMode::Server, SERVER_BLOB))
        .unwrap()
        .unwrap();
    assert_eq!(spec.mode, PortMappingMode::Server);
    assert!(spec.config.client.is_none());
    let section = spec.config.server.clone().unwrap();
    assert!(section.contains("\"bind_addr\":\"0.0.0.0:2333\""), "{section}");
    assert_ne!(section, SERVER_BLOB);

    let spec = fetch_port_mapping_from_manager(answer(RemoteMode::Client, CLIENT_BLOB))
        .unwrap()
        .unwrap();
    assert_eq!(spec.mode, PortMappingMode::Client);
    assert!(spec.config.server.is_none());
    assert!(spec.config.client.unwrap().contains("\"remote_addr\":\"edge:2333\""));
}

#[test]
fn decoded_mapping_is_accepted_by_the_engine() {
    let spec = decode_port_mapping(&RemotePortMapping {
        mode: RemoteMode::Server,
        config_json: SERVER_BLOB.to_string(),
    })
    .unwrap();
    let (config, mode) = spec.into_rathole().unwrap();
    assert_eq!(mode, PortMappingMode::Server);
    assert!(config.server.is_some());
    assert!(config.client.is_none());
}

#[test]
fn mapping_of_role_without_its_section_decodes_and_is_then_refused() {
    let spec = decode_port_mapping(&RemotePortMapping {
        mode: RemoteMode::Client,
        config_json: SERVER_BLOB.to_string(),
    })
    .unwrap();
    assert_eq!(spec.mode, PortMappingMode::Client);
    assert_eq!(
        spec.into_rathole(),
        Err(laval_node::model::ValidationError::MissingClientSection)
    );
}

#[test]
fn remote_roles() {
    assert_eq!(remote_role(RemoteMode::Server), Ok(PortMappingMode::Server));
    assert_eq!(remote_role(RemoteMode::Client), Ok(PortMappingMode::Client));
    assert_eq!(remote_role(RemoteMode::Unspecified), Err(FetchError::UnspecifiedMode));
    assert_eq!(remote_role(RemoteMode::Unrecognized), Err(FetchError::UnknownMode));
}

#[test]
fn port_mapping_from_parts() {
    let config = TunnelConfig { server: Some("{}".to_string()), client: None };
    assert_eq!(
        port_mapping_from(RemoteMode::Server, Ok(config.clone())),
        Ok(PortMappingSpec { mode: PortMappingMode::Server, config: config.clone() })
    );
    assert_eq!(
        port_mapping_from(RemoteMode::Client, Err("eof".to_string())),
        Err(FetchError::MalformedConfig("eof".to_string()))
    );
    assert_eq!(
        port_mapping_from(RemoteMode::Unspecified, Ok(config.clone())),
        Err(FetchError::UnspecifiedMode)
    );
    assert_eq!(
        port_mapping_from(RemoteMode::Unrecognized, Err("eof".to_string())),
        Err(FetchError::UnknownMode)
    );
}

#[test]
fn fetch_error_messages() {
    assert_eq!(FetchError::UnknownMode.message(), "unknown port mapping mode from manager");
    assert_eq!(
        FetchError::UnspecifiedMode.message(),
        "manager returned unspecified port mapping mode"
    );
    assert_eq!(
        FetchError::MalformedConfig("eof".to_string()).message(),
        "failed to parse port mapping configuration from manager"
    );
    assert_eq!(FetchError::Transport("down".to_string()).message(), "down");
}
