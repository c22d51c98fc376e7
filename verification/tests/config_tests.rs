use germina::config::{AppArgs, AppConfig};
use germina::node::{Endpoint, HostAddr};

fn args(node_port: u16, web_port: u16) -> AppArgs {
    AppArgs { path: Some("/srv/germina".to_string()), host: HostAddr::V4(127, 0, 0, 1), node_port, web_port }
}

#[test]
fn default_ports_are_accepted() {
    let c = AppConfig::from_args(args(17171, 18080)).unwrap();
    assert_eq!(c.root_path(), Some("/srv/germina"));
    assert_eq!(c.node_bind_addr(), Endpoint { host: HostAddr::V4(127, 0, 0, 1), port: 17171 });
    assert_eq!(c.web_bind_addr(), Endpoint { host: HostAddr::V4(127, 0, 0, 1), port: 18080 });
    assert_ne!(c.node_bind_addr(), c.web_bind_addr());
}

#[test]
fn zero_node_port_is_refused() {
    assert_eq!(AppConfig::from_args(args(0, 0)).unwrap_err(), "node-port must be greater than zero");
}

#[test]
fn zero_web_port_is_refused() {
    assert_eq!(AppConfig::from_args(args(1, 0)).unwrap_err(), "web-port must be greater than zero");
}

#[test]
fn equal_ports_are_refused() {
    assert_eq!(AppConfig::from_args(args(5, 5)).unwrap_err(), "node-port and web-port must be different");
}

#[test]
fn root_path_is_optional() {
    let mut a = args(1, 2);
    a.path = None;
    assert_eq!(AppConfig::from_args(a).unwrap().root_path(), None);
}
