use pve_launcher::models::{AuthTokens, ProxmoxConnection, ServerConfig, Session};

fn server() -> ServerConfig {
    ServerConfig::new(
        "id".to_string(),
        "Lab".to_string(),
        "pve.lan".to_string(),
        8006,
        "root@pam".to_string(),
    )
}

fn session(cluster_name: Option<&str>) -> Session {
    Session::new(
        server(),
        "secret".to_string(),
        AuthTokens { ticket: "T".to_string(), csrf_token: "C".to_string() },
        cluster_name.map(|name| name.to_string()),
    )
}

#[test]
fn a_session_answers_for_its_server() {
    let session = session(None);
    assert_eq!(session.host(), "pve.lan");
    assert_eq!(session.port(), 8006);
    assert_eq!(session.username(), "root@pam");
    assert_eq!(session.password, "secret");
    assert_eq!(session.tokens.ticket, "T");
    assert_eq!(session.tokens.csrf_token, "C");
}

#[test]
fn a_session_is_named_after_the_cluster_where_known() {
    assert_eq!(session(Some("prod")).display_name(), "prod");
    assert_eq!(session(None).display_name(), "Lab");
    assert_eq!(session(Some("")).display_name(), "");
}

#[test]
fn a_connection_is_made_from_a_session() {
    let connection = ProxmoxConnection::from_session(&session(None), "pve1", 100);
    assert_eq!(
        connection,
        ProxmoxConnection {
            name: "Lab".to_string(),
            host: "pve.lan".to_string(),
            port: 8006,
            username: "root@pam".to_string(),
            password: "secret".to_string(),
            node: "pve1".to_string(),
            vmid: "100".to_string(),
        }
    );
}

#[test]
fn records_are_copied_whole() {
    let first = session(Some("prod"));
    assert_eq!(first.clone(), first);
    assert_eq!(server().clone(), server());
}
