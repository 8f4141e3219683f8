use pve_launcher::api::vms::PowerAction;
use pve_launcher::api::ApiError;
use pve_launcher::models::{AuthTokens, ServerConfig, Session, VMInfo};
use pve_launcher::ui::app::{App, AppEffect, AppMsg, AppView};
use pve_launcher::ui::login::{
    build_server_subtitle, LoginEffect, LoginMode, LoginMsg, LoginOutput, LoginPage,
};
use pve_launcher::ui::main_page::{MainEffect, MainMsg, MainOutput, MainPage};
use pve_launcher::ui::vm_item::{
    get_status_class, get_status_icon, VMItem, VMItemInput, VMItemOutput,
};
use pve_launcher::utils::StoredConfig;

fn server(id: &str) -> ServerConfig {
    ServerConfig::new(
        id.to_string(),
        format!("name-{}", id),
        format!("{}.lan", id),
        8006,
        "root@pam".to_string(),
    )
}

fn tokens() -> AuthTokens {
    AuthTokens { ticket: "T".to_string(), csrf_token: "C".to_string() }
}

fn session() -> Session {
    Session::new(server("a"), "secret".to_string(), tokens(), Some("prod".to_string()))
}

fn stored(ids: &[&str], last: Option<&str>) -> StoredConfig {
    StoredConfig {
        servers: ids.iter().map(|id| server(id)).collect(),
        last_used_server_id: last.map(|id| id.to_string()),
    }
}

fn machine(vmid: u32, status: &str) -> VMInfo {
    VMInfo {
        vmid,
        name: format!("vm{}", vmid),
        status: status.to_string(),
        node: "pve1".to_string(),
        vm_type: "qemu".to_string(),
        uptime: 0,
        cpus: 1,
        maxmem: 0,
        mem: 0,
        maxdisk: 0,
        disk: 0,
        tags: String::new(),
        spice: true,
        ip_address: Some("10.0.0.5".to_string()),
    }
}

fn main_page() -> MainPage {
    MainPage::init(session()).0
}

fn power(action: PowerAction, vmid: u32) -> MainEffect {
    MainEffect::ChangePower {
        action,
        host: "a.lan".to_string(),
        port: 8006,
        ticket: "T".to_string(),
        csrf: "C".to_string(),
        node: "pve1".to_string(),
        vmid,
    }
}

#[test]
fn the_login_page_opens_empty_without_servers() {
    let page = LoginPage::init(StoredConfig::default());
    assert_eq!(page.mode, LoginMode::Empty);
    assert_eq!(page.selected_server_idx, None);
    assert_eq!(page.new_port, "8006");
    assert_eq!(page.new_username, "root@pam");
    assert!(!page.is_loading);
    assert!(!page.needs_refresh());
}

#[test]
fn the_login_page_selects_the_last_used_server() {
    let page = LoginPage::init(stored(&["a", "b", "c"], Some("b")));
    assert_eq!(page.mode, LoginMode::Login);
    assert_eq!(page.selected_server_idx, Some(1));
    assert!(page.needs_refresh());
    assert_eq!(LoginPage::init(stored(&["a", "b"], None)).selected_server_idx, Some(0));
    assert_eq!(LoginPage::init(stored(&["a", "b"], Some("gone"))).selected_server_idx, Some(0));
}

#[test]
fn a_new_server_needs_host_and_user() {
    let mut page = LoginPage::init(StoredConfig::default());
    assert_eq!(page.update(LoginMsg::ShowAddServer), vec![]);
    assert_eq!(page.mode, LoginMode::AddServer);
    assert!(!page.can_save_server());
    assert_eq!(page.update(LoginMsg::SaveServer), vec![]);
    page.update(LoginMsg::SetNewHost("pve.lan".to_string()));
    assert!(page.can_save_server());
    page.update(LoginMsg::SetNewUsername(String::new()));
    assert!(!page.can_save_server());
    assert_eq!(page.update(LoginMsg::SaveServer), vec![]);
}

#[test]
fn a_saved_server_gets_a_fresh_identifier_and_defaults() {
    let mut page = LoginPage::init(StoredConfig::default());
    page.update(LoginMsg::ShowAddServer);
    page.update(LoginMsg::SetNewHost("pve.lan".to_string()));
    page.update(LoginMsg::SetNewPort("not a port".to_string()));
    let first = page.update(LoginMsg::SaveServer);
    let second = page.update(LoginMsg::SaveServer);
    let stored = |effects: Vec<LoginEffect>| match effects.into_iter().next() {
        Some(LoginEffect::StoreServer(server)) => server,
        other => panic!("unexpected {:?}", other),
    };
    let (first, second) = (stored(first), stored(second));
    assert_eq!(first.id.len(), 36);
    assert_ne!(first.id, "");
    assert_ne!(first.id, second.id);
    assert_eq!(first.name, "pve.lan");
    assert_eq!(first.host, "pve.lan");
    assert_eq!(first.port, 8006);
    assert_eq!(first.username, "root@pam");
    assert_eq!(page.servers, vec![]);
    assert_eq!(page.mode, LoginMode::AddServer);
}

#[test]
fn the_form_is_drafted_under_a_given_identifier() {
    let mut page = LoginPage::init(StoredConfig::default());
    page.update(LoginMsg::SetNewName("Lab".to_string()));
    page.update(LoginMsg::SetNewHost("10.0.0.2".to_string()));
    page.update(LoginMsg::SetNewPort("8443".to_string()));
    page.update(LoginMsg::SetNewUsername("admin@pve".to_string()));
    let expected = ServerConfig::new(
        "fixed".to_string(),
        "Lab".to_string(),
        "10.0.0.2".to_string(),
        8443,
        "admin@pve".to_string(),
    );
    assert_eq!(page.draft_server("fixed".to_string()), expected);
    assert_eq!(page.save_server("fixed".to_string()), vec![LoginEffect::StoreServer(expected)]);
}

#[test]
fn a_stored_server_is_listed_and_selected() {
    let mut page = LoginPage::init(stored(&["a"], None));
    page.update(LoginMsg::ShowAddServer);
    page.update(LoginMsg::SetPassword("typed".to_string()));
    assert_eq!(page.update(LoginMsg::ServerSaved(server("b"))), vec![]);
    assert_eq!(page.servers, vec![server("a"), server("b")]);
    assert_eq!(page.selected_server_idx, Some(1));
    assert_eq!(page.mode, LoginMode::Login);
    assert_eq!(page.password, "");
}

#[test]
fn a_server_that_was_not_stored_shows_the_error() {
    let mut page = LoginPage::init(StoredConfig::default());
    page.update(LoginMsg::ShowAddServer);
    page.update(LoginMsg::SaveFailed("Failed to write config: denied".to_string()));
    assert_eq!(page.error, Some("Failed to write config: denied".to_string()));
    assert_eq!(page.mode, LoginMode::AddServer);
    assert_eq!(page.servers, vec![]);
}

#[test]
fn cancelling_goes_back() {
    let mut page = LoginPage::init(StoredConfig::default());
    page.update(LoginMsg::ShowAddServer);
    page.update(LoginMsg::CancelAddServer);
    assert_eq!(page.mode, LoginMode::Empty);
    let mut page = LoginPage::init(stored(&["a"], None));
    page.update(LoginMsg::ShowAddServer);
    page.update(LoginMsg::CancelAddServer);
    assert_eq!(page.mode, LoginMode::Login);
}

#[test]
fn deleting_selects_the_first_server_left() {
    let mut page = LoginPage::init(stored(&["a", "b", "c"], Some("b")));
    assert_eq!(
        page.update(LoginMsg::DeleteServer),
        vec![LoginEffect::ForgetServer("b".to_string())]
    );
    assert_eq!(page.servers, vec![server("a"), server("c")]);
    assert_eq!(page.selected_server_idx, Some(0));
    page.update(LoginMsg::DeleteServer);
    page.update(LoginMsg::DeleteServer);
    assert_eq!(page.servers, vec![]);
    assert_eq!(page.mode, LoginMode::Empty);
    assert_eq!(page.selected_server_idx, None);
    assert_eq!(page.update(LoginMsg::DeleteServer), vec![]);
}

#[test]
fn a_selection_outside_the_list_does_nothing() {
    let mut page = LoginPage::init(stored(&["a"], None));
    page.update(LoginMsg::SelectServer(5));
    page.update(LoginMsg::SetPassword("secret".to_string()));
    assert_eq!(page.selected_server_idx, Some(5));
    assert_eq!(page.update(LoginMsg::DeleteServer), vec![]);
    assert_eq!(page.update(LoginMsg::Login), vec![]);
    assert!(!page.is_loading);
    assert_eq!(page.update(LoginMsg::LoginSuccess(tokens(), None)), vec![]);
    assert_eq!(page.servers, vec![server("a")]);
}

#[test]
fn a_login_needs_a_server_and_a_password() {
    let mut page = LoginPage::init(stored(&["a", "b"], Some("b")));
    assert!(!page.can_login());
    assert_eq!(page.update(LoginMsg::Login), vec![]);
    assert!(!page.is_loading);
    page.update(LoginMsg::LoginError("old".to_string()));
    page.update(LoginMsg::SetPassword("secret".to_string()));
    assert_eq!(page.error, None);
    assert!(page.can_login());
    assert_eq!(
        page.update(LoginMsg::Login),
        vec![LoginEffect::Authenticate { server: server("b"), password: "secret".to_string() }]
    );
    assert!(page.is_loading);
}

#[test]
fn a_successful_login_hands_over_the_session() {
    let mut page = LoginPage::init(stored(&["a", "b"], Some("b")));
    page.update(LoginMsg::SetPassword("secret".to_string()));
    page.update(LoginMsg::Login);
    let effects = page.update(LoginMsg::LoginSuccess(tokens(), Some("prod".to_string())));
    assert_eq!(
        effects,
        vec![LoginEffect::Output(LoginOutput::LoggedIn(Session::new(
            server("b"),
            "secret".to_string(),
            tokens(),
            Some("prod".to_string()),
        )))]
    );
    assert!(!page.is_loading);
}

#[test]
fn a_failed_login_shows_the_error() {
    let mut page = LoginPage::init(stored(&["a"], None));
    page.update(LoginMsg::SetPassword("wrong".to_string()));
    page.update(LoginMsg::Login);
    assert_eq!(page.update(LoginMsg::LoginError("Authentication failed: 401".to_string())), vec![]);
    assert!(!page.is_loading);
    assert_eq!(page.error, Some("Authentication failed: 401".to_string()));
    page.update(LoginMsg::SelectServer(0));
    assert_eq!(page.error, None);
}

#[test]
fn the_main_page_starts_by_loading() {
    let (page, effects) = MainPage::init(session());
    assert!(page.is_loading);
    assert!(page.shows_loading());
    assert!(!page.shows_empty());
    assert_eq!(effects, vec![MainEffect::Input(MainMsg::LoadVMs)]);
}

#[test]
fn loading_asks_for_the_list_with_the_session_s_tokens() {
    let mut page = main_page();
    page.update(MainMsg::LoadError("x".to_string()));
    let effects = page.update(MainMsg::LoadVMs);
    assert_eq!(
        effects,
        vec![MainEffect::ListVms {
            host: "a.lan".to_string(),
            port: 8006,
            ticket: "T".to_string(),
            csrf: "C".to_string(),
        }]
    );
    assert!(page.is_loading);
    assert_eq!(page.error, None);
}

#[test]
fn a_loaded_list_replaces_the_rows() {
    let mut page = main_page();
    page.update(MainMsg::VMsLoaded(vec![machine(100, "running"), machine(101, "stopped")]));
    page.update(MainMsg::VMOperationStarted(100));
    assert!(page.vms[0].is_operating);
    page.update(MainMsg::VMsLoaded(vec![machine(102, "running")]));
    assert_eq!(page.vms, vec![VMItem::init_model(machine(102, "running"))]);
    assert!(!page.is_loading);
    assert!(!page.shows_loading());
}

#[test]
fn a_failed_load_keeps_the_rows() {
    let mut page = main_page();
    page.update(MainMsg::VMsLoaded(vec![machine(100, "running")]));
    page.update(MainMsg::LoadVMs);
    assert_eq!(page.update(MainMsg::LoadError("API error (500): x".to_string())), vec![]);
    assert_eq!(page.vms, vec![VMItem::init_model(machine(100, "running"))]);
    assert_eq!(page.error, Some("API error (500): x".to_string()));
    assert!(!page.shows_error());
}

#[test]
fn an_order_marks_the_machine_and_asks_for_the_operation() {
    let mut page = main_page();
    page.update(MainMsg::VMsLoaded(vec![machine(100, "stopped"), machine(101, "running")]));
    assert_eq!(
        page.update(MainMsg::StartVM(100, "pve1".to_string())),
        vec![power(PowerAction::Start, 100)]
    );
    assert!(page.operating_vms.contains(&100));
    assert!(page.vms[0].is_operating);
    assert!(!page.vms[1].is_operating);
    assert_eq!(
        page.update(MainMsg::StopVM(101, "pve1".to_string())),
        vec![power(PowerAction::Stop, 101)]
    );
    assert!(page.vms[1].is_operating);
}

#[test]
fn a_second_order_for_an_operating_machine_asks_for_nothing() {
    let mut page = main_page();
    page.update(MainMsg::VMsLoaded(vec![machine(100, "stopped")]));
    let mut requests = 0;
    for msg in [
        MainMsg::StartVM(100, "pve1".to_string()),
        MainMsg::StartVM(100, "pve1".to_string()),
        MainMsg::StopVM(100, "pve1".to_string()),
        MainMsg::StartVM(100, "other".to_string()),
    ] {
        requests += page.update(msg).len();
    }
    assert_eq!(requests, 1);
    assert_eq!(page.operating_vms.len(), 1);
    page.update(MainMsg::VMOperationError(100, "x".to_string()));
    assert_eq!(page.update(MainMsg::StopVM(100, "pve1".to_string())).len(), 1);
}

#[test]
fn a_finished_operation_shows_a_toast_and_loads_anew() {
    let mut page = main_page();
    page.update(MainMsg::VMsLoaded(vec![machine(100, "stopped")]));
    page.update(MainMsg::StartVM(100, "pve1".to_string()));
    let effects = page.update(MainMsg::VMOperationComplete(100, "started".to_string()));
    assert_eq!(
        effects,
        vec![
            MainEffect::Input(MainMsg::ShowToast("VM 100 started".to_string())),
            MainEffect::Input(MainMsg::LoadVMs),
        ]
    );
    assert!(page.operating_vms.is_empty());
    assert!(!page.vms[0].is_operating);
}

#[test]
fn a_failed_operation_shows_its_error() {
    let mut page = main_page();
    page.update(MainMsg::StartVM(100, "pve1".to_string()));
    let effects = page.update(MainMsg::VMOperationError(100, "API error (500): locked".to_string()));
    assert_eq!(
        effects,
        vec![MainEffect::Input(MainMsg::ShowToast("Error: API error (500): locked".to_string()))]
    );
    assert!(page.operating_vms.is_empty());
}

#[test]
fn every_message_takes_the_toast_away() {
    let mut page = main_page();
    page.update(MainMsg::ShowToast("VM 100 started".to_string()));
    assert_eq!(page.toast_message, Some("VM 100 started".to_string()));
    page.update(MainMsg::LoadVMs);
    assert_eq!(page.toast_message, None);
}

#[test]
fn connecting_and_logging_out() {
    let mut page = main_page();
    assert_eq!(
        page.update(MainMsg::ConnectVM(100, "pve1".to_string())),
        vec![MainEffect::OpenDisplay {
            host: "a.lan".to_string(),
            port: 8006,
            ticket: "T".to_string(),
            csrf: "C".to_string(),
            node: "pve1".to_string(),
            vmid: 100,
        }]
    );
    assert_eq!(page.update(MainMsg::Logout), vec![MainEffect::Output(MainOutput::Logout)]);
}

#[test]
fn only_the_first_row_of_a_machine_is_marked() {
    let mut page = main_page();
    page.update(MainMsg::VMsLoaded(vec![
        machine(101, "running"),
        machine(100, "running"),
        machine(100, "stopped"),
    ]));
    page.set_vm_operating(100, true);
    let marks: Vec<bool> = page.vms.iter().map(|row| row.is_operating).collect();
    assert_eq!(marks, vec![false, true, false]);
    page.set_vm_operating(999, true);
    let marks: Vec<bool> = page.vms.iter().map(|row| row.is_operating).collect();
    assert_eq!(marks, vec![false, true, false]);
}

#[test]
fn a_row_shows_its_machine() {
    let mut row = VMItem::init_model(machine(100, "running"));
    assert!(!row.is_operating);
    assert_eq!(row.subtitle(), "VM 100 · pve1 · running");
    assert!(row.stops_on_click());
    assert_eq!(row.power_click(), VMItemOutput::Stop(100, "pve1".to_string()));
    assert_eq!(row.connect_click(), VMItemOutput::Connect(100, "pve1".to_string()));
    assert!(row.can_connect());
    assert!(row.shows_address());
    row.update(VMItemInput::SetOperating(true));
    assert!(!row.shows_address());
    row.update(VMItemInput::UpdateStatus("stopped".to_string()));
    assert_eq!(row.vm.status, "stopped");
    assert_eq!(row.power_click(), VMItemOutput::Start(100, "pve1".to_string()));
    assert!(!row.can_connect());
    row.update(VMItemInput::UpdateStatus("PAUSED".to_string()));
    assert!(row.stops_on_click());
    assert!(!row.can_connect());
}

#[test]
fn status_icons_and_classes() {
    assert_eq!(get_status_icon("running"), "media-playback-start-symbolic");
    assert_eq!(get_status_icon("paused"), "media-playback-pause-symbolic");
    assert_eq!(get_status_icon("stopped"), "media-playback-stop-symbolic");
    assert_eq!(get_status_icon("Running"), "media-playback-stop-symbolic");
    assert_eq!(get_status_class("running"), "success");
    assert_eq!(get_status_class("paused"), "warning");
    assert_eq!(get_status_class("anything"), "dim-label");
}

#[test]
fn the_root_moves_between_the_pages() {
    let mut app = App::init();
    assert_eq!(app, App { view: AppView::Login, login_visible: true, main_open: false });
    assert_eq!(app.update(AppMsg::LoggedIn(session())), vec![AppEffect::OpenMain(session())]);
    assert_eq!(app, App { view: AppView::Main, login_visible: false, main_open: true });
    assert_eq!(app.update(AppMsg::Logout), vec![AppEffect::CloseMain]);
    assert_eq!(app, App::init());
    assert_eq!(app.update(AppMsg::Logout), vec![AppEffect::CloseMain]);
    assert_eq!(app, App::init());
}

#[test]
fn the_server_list_shows_endpoint_and_selection() {
    assert_eq!(build_server_subtitle(&server("a")), "root@pam@a.lan:8006");
    let page = LoginPage::init(stored(&["a", "b"], Some("b")));
    assert!(!page.is_selected(0));
    assert!(page.is_selected(1));
    assert!(!LoginPage::init(StoredConfig::default()).is_selected(0));
}

#[test]
fn the_login_page_offers_what_fits_its_mode() {
    let mut page = LoginPage::init(StoredConfig::default());
    assert_eq!(page.mode_title(), "No servers configured");
    page.update(LoginMsg::ShowAddServer);
    assert_eq!(page.mode_title(), "Add a new server");
    assert!(!page.shows_back());
    let mut page = LoginPage::init(stored(&["a"], None));
    assert_eq!(page.mode_title(), "Connect to server");
    assert!(page.shows_delete());
    assert!(!page.connect_enabled());
    assert_eq!(page.connect_label(), "Connect");
    page.update(LoginMsg::SetPassword("secret".to_string()));
    assert!(page.connect_enabled());
    page.update(LoginMsg::Login);
    assert!(!page.connect_enabled());
    assert_eq!(page.connect_label(), "Connecting...");
    page.update(LoginMsg::ShowAddServer);
    assert!(page.shows_back());
    assert!(!page.shows_delete());
}

#[test]
fn outcomes_become_messages() {
    let failure = || ApiError::Api { status: 500, message: "locked".to_string() };
    assert_eq!(
        MainMsg::loaded(Ok(vec![machine(100, "running")])),
        MainMsg::VMsLoaded(vec![machine(100, "running")])
    );
    assert_eq!(
        MainMsg::loaded(Err(failure())),
        MainMsg::LoadError("API error (500): locked".to_string())
    );
    let done = |action: PowerAction| MainMsg::operated(action, 100, Ok("UPID:x".to_string()));
    assert_eq!(done(PowerAction::Start), MainMsg::VMOperationComplete(100, "started".to_string()));
    assert_eq!(done(PowerAction::Stop), MainMsg::VMOperationComplete(100, "stopped".to_string()));
    assert_eq!(
        done(PowerAction::Suspend),
        MainMsg::VMOperationComplete(100, "suspended".to_string())
    );
    assert_eq!(done(PowerAction::Resume), MainMsg::VMOperationComplete(100, "resumed".to_string()));
    assert_eq!(
        MainMsg::operated(PowerAction::Start, 100, Err(failure())),
        MainMsg::VMOperationError(100, "API error (500): locked".to_string())
    );
    assert_eq!(
        MainMsg::display_failed(&ApiError::Spice("no viewer".to_string())),
        MainMsg::ShowToast("Error: SPICE error: no viewer".to_string())
    );
    assert_eq!(
        LoginMsg::login_failed(&ApiError::Auth("401".to_string())),
        LoginMsg::LoginError("Authentication failed: 401".to_string())
    );
    assert_eq!(
        LoginMsg::login_succeeded(tokens(), Ok("prod".to_string())),
        LoginMsg::LoginSuccess(tokens(), Some("prod".to_string()))
    );
    assert_eq!(
        LoginMsg::login_succeeded(tokens(), Err(failure())),
        LoginMsg::LoginSuccess(tokens(), None)
    );
    assert_eq!(LoginMsg::stored(server("a"), Ok(())), LoginMsg::ServerSaved(server("a")));
    assert_eq!(
        LoginMsg::stored(server("a"), Err("denied".to_string())),
        LoginMsg::SaveFailed("denied".to_string())
    );
}

#[test]
fn what_rows_and_pages_tell_is_passed_on() {
    assert_eq!(
        MainMsg::from_row(VMItemOutput::Start(1, "n".to_string())),
        MainMsg::StartVM(1, "n".to_string())
    );
    assert_eq!(
        MainMsg::from_row(VMItemOutput::Stop(1, "n".to_string())),
        MainMsg::StopVM(1, "n".to_string())
    );
    assert_eq!(
        MainMsg::from_row(VMItemOutput::Connect(1, "n".to_string())),
        MainMsg::ConnectVM(1, "n".to_string())
    );
    assert_eq!(AppMsg::from_login(LoginOutput::LoggedIn(session())), AppMsg::LoggedIn(session()));
    assert_eq!(AppMsg::from_main(MainOutput::Logout), AppMsg::Logout);
}
