use sero::cli::Cli;
use sero::svc_info::{ConfigError, ServicePort, ServicePortInfo};

fn port(name: Option<&str>, number: u16) -> ServicePort {
    ServicePort { name: name.map(|s| s.to_string()), number }
}

#[test]
fn no_ports_field_is_a_config_error() {
    assert_eq!(
        ServicePortInfo::try_new(None, None).unwrap_err(),
        ConfigError::NoPorts
    );
}

#[test]
fn empty_port_list_is_a_config_error() {
    let ports: Vec<ServicePort> = Vec::new();
    assert_eq!(
        ServicePortInfo::try_new(Some(&ports), None).unwrap_err(),
        ConfigError::PortNotFound
    );
}

#[test]
fn first_port_is_the_default() {
    let ports = vec![port(Some("http"), 80), port(Some("metrics"), 9090)];
    let info = ServicePortInfo::try_new(Some(&ports), None).unwrap();
    assert_eq!(info.name, "http");
    assert_eq!(info.number, 80);
}

#[test]
fn unnamed_first_port_resolves_to_the_empty_name() {
    let ports = vec![port(None, 5432)];
    let info = ServicePortInfo::try_new(Some(&ports), None).unwrap();
    assert_eq!(info.name, "");
    assert_eq!(info.number, 5432);
}

#[test]
fn named_port_selects_the_first_match() {
    let ports = vec![
        port(Some("http"), 80),
        port(Some("grpc"), 50051),
        port(Some("grpc"), 50052),
    ];
    let name = "grpc".to_string();
    let info = ServicePortInfo::try_new(Some(&ports), Some(&name)).unwrap();
    assert_eq!(info.name, "grpc");
    assert_eq!(info.number, 50051);
}

#[test]
fn absent_named_port_is_a_config_error() {
    let ports = vec![port(Some("http"), 80)];
    let name = "grpc".to_string();
    assert_eq!(
        ServicePortInfo::try_new(Some(&ports), Some(&name)).unwrap_err(),
        ConfigError::PortNotFound
    );
}

#[test]
fn unnamed_ports_never_match_a_requested_name() {
    let ports = vec![port(None, 80)];
    let name = "http".to_string();
    assert_eq!(
        ServicePortInfo::try_new(Some(&ports), Some(&name)).unwrap_err(),
        ConfigError::PortNotFound
    );
}

#[test]
fn configuration_record_carries_the_options() {
    let cli = Cli {
        listen_host: "0.0.0.0".to_string(),
        listen_port: 3000,
        deployment: "demo".to_string(),
        service: "demo-svc".to_string(),
        service_port: None,
        inject: false,
    };
    assert_eq!(cli.listen_port, 3000);
    assert!(cli.service_port.is_none());
}
