use deploy::cli::{Cli, RebuildAction};
use deploy::default_port;
use deploy::host::{AddressFamily, Host};

#[test]
fn default_port_is_22() {
    assert_eq!(default_port(), 22);
}

#[test]
fn entry_without_port_and_user_gets_the_defaults() {
    let host = Host::from_entry("10.0.0.5".to_string(), AddressFamily::V4, None, None, "alice");
    assert_eq!(
        host,
        Host {
            address: "10.0.0.5".to_string(),
            family: AddressFamily::V4,
            port: 22,
            user: "alice".to_string(),
        }
    );
}

#[test]
fn entry_with_port_and_user_keeps_them() {
    let host = Host::from_entry(
        "10.0.0.5".to_string(),
        AddressFamily::V4,
        Some(2222),
        Some("root".to_string()),
        "alice",
    );
    assert_eq!(host.port, 2222);
    assert_eq!(host.user, "root");
}

#[test]
fn endpoint_joins_address_and_port() {
    let host = Host::from_entry("10.0.0.5".to_string(), AddressFamily::V4, None, None, "u");
    assert_eq!(host.endpoint(), "10.0.0.5:22");
    let host = Host::from_entry("10.0.0.5".to_string(), AddressFamily::V4, Some(0), None, "u");
    assert_eq!(host.endpoint(), "10.0.0.5:0");
    let host =
        Host::from_entry("192.168.1.20".to_string(), AddressFamily::V4, Some(65535), None, "u");
    assert_eq!(host.endpoint(), "192.168.1.20:65535");
}

#[test]
fn endpoint_of_an_ipv6_host_is_bracketed() {
    let host = Host::from_entry("fe80::1".to_string(), AddressFamily::V6, Some(2222), None, "u");
    assert_eq!(host.endpoint(), "[fe80::1]:2222");
}

#[test]
fn aliases_are_the_address_then_the_endpoint() {
    let host = Host::from_entry("10.0.0.5".to_string(), AddressFamily::V4, None, None, "u");
    assert_eq!(host.aliases(), vec!["10.0.0.5".to_string(), "10.0.0.5:22".to_string()]);
}

#[test]
fn rebuild_actions_are_named_by_their_words() {
    assert_eq!(RebuildAction::Switch.to_string(), "switch");
    assert_eq!(RebuildAction::Boot.to_string(), "boot");
    assert_eq!(RebuildAction::Test.to_string(), "test");
    assert_eq!(RebuildAction::Boot.as_str(), "boot");
    assert_eq!(RebuildAction::default(), RebuildAction::Switch);
}

#[test]
fn options_default_to_switch_in_the_current_directory() {
    let cli = Cli::new(vec!["web1".to_string()]);
    assert_eq!(
        cli,
        Cli {
            action: RebuildAction::Switch,
            path: ".".to_string(),
            quiet: false,
            all: false,
            hosts: vec!["web1".to_string()],
        }
    );
    assert!(cli.has_targets());
    assert_eq!(cli.inventory_reference(), ".#deploy.hosts");
}

#[test]
fn options_need_targets_unless_all_is_set() {
    let mut cli = Cli::new(Vec::new());
    assert!(!cli.has_targets());
    cli.all = true;
    assert!(cli.has_targets());
    cli.path = "/etc/nixos".to_string();
    assert_eq!(cli.inventory_reference(), "/etc/nixos#deploy.hosts");
}
