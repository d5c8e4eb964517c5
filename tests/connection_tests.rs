use circuit_watcher::connection::{
    auth_header_value, base_url, decimal, resource_url, Connection, ConnectionInfo,
    ConnectionStatus,
};

#[test]
fn decimal_notation() {
    assert_eq!(decimal(0), "0");
    assert_eq!(decimal(7), "7");
    assert_eq!(decimal(10), "10");
    assert_eq!(decimal(54321), "54321");
    assert_eq!(decimal(u32::MAX), "4294967295");
}

#[test]
fn addresses_and_header() {
    assert_eq!(base_url(2999), "https://127.0.0.1:2999");
    assert_eq!(
        resource_url(51234, "/lol-gameflow/v1/session"),
        "https://127.0.0.1:51234/lol-gameflow/v1/session"
    );
    assert_eq!(auth_header_value("cmlvdDpzZWNyZXQ="), "Basic cmlvdDpzZWNyZXQ=");
}

#[test]
fn status_texts() {
    assert_eq!(
        ConnectionStatus::Connected { port: 51234 }.text(),
        "Connected to LeagueClient on https://127.0.0.1:51234"
    );
    assert_eq!(ConnectionStatus::NotFound.text(), "LeagueClient not found, may be closed.");
}

#[test]
fn discovery_replaces_and_drops() {
    let mut c = Connection::new();
    assert_eq!(c.status(), ConnectionStatus::NotFound);
    let info = ConnectionInfo { port: 1000, auth: "abc".to_string() };
    assert!(c.on_discovery(Some(info.clone())));
    assert_eq!(c.status(), ConnectionStatus::Connected { port: 1000 });
    assert!(!c.on_discovery(Some(info)));
    let other = ConnectionInfo { port: 1000, auth: "xyz".to_string() };
    assert!(c.on_discovery(Some(other)));
    assert_eq!(c.info().as_ref().unwrap().auth, "xyz");
    assert!(c.on_discovery(None));
    assert_eq!(c.status(), ConnectionStatus::NotFound);
    assert!(!c.on_discovery(None));
}
