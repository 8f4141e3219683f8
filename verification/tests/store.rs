use pve_launcher::models::ServerConfig;
use pve_launcher::utils::config::find_server;
use pve_launcher::utils::credentials::{
    config_key, password_key, service_name, ServerConfigWithPassword,
};
use pve_launcher::utils::{
    add_server, delete_server, get_last_used_server, set_last_used_server, update_server,
    StoredConfig,
};

fn server(id: &str, name: &str) -> ServerConfig {
    ServerConfig::new(
        id.to_string(),
        name.to_string(),
        format!("{}.lan", name),
        8006,
        "root@pam".to_string(),
    )
}

fn stored(ids: &[&str], last: Option<&str>) -> StoredConfig {
    StoredConfig {
        servers: ids.iter().map(|id| server(id, id)).collect(),
        last_used_server_id: last.map(|id| id.to_string()),
    }
}

#[test]
fn nothing_is_saved_at_first() {
    assert_eq!(StoredConfig::default(), stored(&[], None));
}

#[test]
fn a_server_is_added_at_the_end() {
    let mut config = stored(&["a"], Some("a"));
    add_server(&mut config, server("b", "b"));
    assert_eq!(config, stored(&["a", "b"], Some("a")));
}

#[test]
fn a_saved_server_comes_back_with_the_same_fields() {
    let mut config = StoredConfig::default();
    let saved = ServerConfig::new(
        "3f2c".to_string(),
        "Lab".to_string(),
        "10.0.0.2".to_string(),
        8443,
        "admin@pve".to_string(),
    );
    add_server(&mut config, saved.clone());
    set_last_used_server(&mut config, "3f2c");
    let found = get_last_used_server(&config).unwrap();
    assert_eq!(found.id, "3f2c");
    assert_eq!(found.name, "Lab");
    assert_eq!(found.host, "10.0.0.2");
    assert_eq!(found.port, 8443);
    assert_eq!(found.username, "admin@pve");
    assert_eq!(found, saved);
}

#[test]
fn the_first_server_with_the_identifier_is_updated() {
    let mut config = stored(&["a", "b", "b"], None);
    let changed = server("b", "renamed");
    assert_eq!(update_server(&mut config, changed.clone()), Ok(()));
    assert_eq!(config.servers, vec![server("a", "a"), changed, server("b", "b")]);
}

#[test]
fn updating_an_unknown_server_changes_nothing() {
    let mut config = stored(&["a"], Some("a"));
    assert_eq!(update_server(&mut config, server("z", "z")), Err("Server not found".to_string()));
    assert_eq!(config, stored(&["a"], Some("a")));
}

#[test]
fn deleting_removes_every_server_with_the_identifier() {
    let mut config = stored(&["a", "b", "a", "c"], Some("c"));
    delete_server(&mut config, "a");
    assert_eq!(config, stored(&["b", "c"], Some("c")));
    delete_server(&mut config, "missing");
    assert_eq!(config, stored(&["b", "c"], Some("c")));
}

#[test]
fn deleting_the_last_used_server_forgets_it() {
    let mut config = stored(&["a", "b"], Some("b"));
    delete_server(&mut config, "b");
    assert_eq!(config, stored(&["a"], None));
    assert_eq!(get_last_used_server(&config), None);
}

#[test]
fn the_last_used_server_is_noted_and_found() {
    let mut config = stored(&["a", "b"], None);
    assert_eq!(get_last_used_server(&config), None);
    set_last_used_server(&mut config, "b");
    assert_eq!(config, stored(&["a", "b"], Some("b")));
    assert_eq!(get_last_used_server(&config), Some(server("b", "b")));
    set_last_used_server(&mut config, "gone");
    assert_eq!(get_last_used_server(&config), None);
}

#[test]
fn servers_are_found_by_identifier() {
    let config = stored(&["a", "b", "b"], None);
    assert_eq!(find_server(&config.servers, "a"), Some(0));
    assert_eq!(find_server(&config.servers, "b"), Some(1));
    assert_eq!(find_server(&config.servers, "c"), None);
    assert_eq!(find_server(&vec![], "a"), None);
}

#[test]
fn the_password_is_kept_under_a_key_of_its_own() {
    assert_eq!(service_name(), "com.proxmox.vmlauncher");
    assert_eq!(config_key(), "server_config");
    assert_eq!(password_key("10.0.0.2"), "10.0.0.2_password");
    assert_eq!(password_key(""), "_password");
}

#[test]
fn a_saved_server_is_taken_apart_and_joined_again() {
    let whole = ServerConfigWithPassword {
        host: "pve.lan".to_string(),
        port: 8006,
        username: "root@pam".to_string(),
        password: "secret".to_string(),
    };
    let public = whole.public_part();
    assert_eq!(public.host, "pve.lan");
    assert_eq!(public.port, 8006);
    assert_eq!(public.username, "root@pam");
    assert_eq!(ServerConfigWithPassword::from_parts(public, "secret".to_string()), whole);
}
