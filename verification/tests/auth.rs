use pve_launcher::api::auth::{authenticate, build_ticket_request, get_cluster_name, read_ticket};
use pve_launcher::api::http::{
    ClusterNode, Expect, Method, Node, Payload, Reply, Request, Response, Step,
};
use pve_launcher::api::ApiError;
use pve_launcher::models::AuthTokens;

fn answered(status: u16, body: &str, payload: Payload) -> Reply {
    Reply::Answered(Response { status, body: body.to_string(), payload })
}

fn tokens() -> AuthTokens {
    AuthTokens { ticket: "PVE:root@pam:TICKET".to_string(), csrf_token: "CSRF".to_string() }
}

fn ticket_reply() -> Reply {
    answered(200, "{}", Payload::Ticket(tokens()))
}

fn entry(name: &str, node_type: &str) -> ClusterNode {
    ClusterNode { name: name.to_string(), node_type: node_type.to_string() }
}

fn node(name: &str) -> Node {
    Node { node: name.to_string() }
}

fn pair(a: &str, b: &str) -> (String, String) {
    (a.to_string(), b.to_string())
}

#[test]
fn ticket_request_posts_the_credentials_as_a_form() {
    let request = build_ticket_request("pve.example", 8006, "root@pam", "secret");
    assert_eq!(
        request,
        Request {
            method: Method::Post,
            url: "https://pve.example:8006/api2/json/access/ticket".to_string(),
            headers: vec![],
            form: Some(vec![pair("username", "root@pam"), pair("password", "secret")]),
            expects: Expect::Ticket,
        }
    );
}

#[test]
fn authenticate_first_sends_the_ticket_request() {
    let step = authenticate("h", 1, "u", "p", &vec![]);
    assert_eq!(step, Step::Send(build_ticket_request("h", 1, "u", "p")));
}

#[test]
fn authenticate_gives_the_tokens_of_an_accepted_login() {
    let step = authenticate("h", 8006, "u", "p", &vec![ticket_reply()]);
    assert_eq!(step, Step::Done(Ok(tokens())));
}

#[test]
fn every_success_status_is_accepted() {
    for status in [200u16, 201, 204, 299] {
        let reply = answered(status, "", Payload::Ticket(tokens()));
        assert_eq!(read_ticket(&reply), Ok(tokens()));
    }
}

#[test]
fn authenticate_fails_on_any_other_status() {
    let reply = answered(401, "no", Payload::Ticket(tokens()));
    assert_eq!(
        authenticate("h", 8006, "u", "p", &vec![reply]),
        Step::Done(Err(ApiError::Auth(
            "Authentication failed with status: 401 Unauthorized".to_string()
        )))
    );
    for status in [199u16, 300, 302, 403, 500] {
        let reply = answered(status, "", Payload::Ticket(tokens()));
        assert!(matches!(read_ticket(&reply), Err(ApiError::Auth(_))));
    }
}

#[test]
fn status_text_is_the_http_library_s() {
    let message = |status: u16| match read_ticket(&answered(status, "", Payload::Text)) {
        Err(ApiError::Auth(message)) => message,
        other => panic!("unexpected {:?}", other),
    };
    assert_eq!(message(500), "Authentication failed with status: 500 Internal Server Error");
    assert_eq!(message(595), "Authentication failed with status: 595 <unknown status code>");
    assert_eq!(message(99), "Authentication failed with status: 99");
    assert_eq!(message(1000), "Authentication failed with status: 1000");
}

#[test]
fn a_malformed_body_is_a_parse_failure() {
    let reply = answered(200, "<html>", Payload::Malformed("expected value".to_string()));
    assert_eq!(read_ticket(&reply), Err(ApiError::Parse("expected value".to_string())));
    let reply = answered(200, "text", Payload::Text);
    assert_eq!(read_ticket(&reply), Err(ApiError::Parse("unexpected document".to_string())));
}

#[test]
fn no_answer_is_a_client_failure() {
    let reply = Reply::Failed("connection refused".to_string());
    assert_eq!(read_ticket(&reply), Err(ApiError::Client("connection refused".to_string())));
}

#[test]
fn authenticate_makes_one_attempt() {
    let replies = vec![answered(401, "", Payload::Text), ticket_reply()];
    assert!(matches!(authenticate("h", 1, "u", "p", &replies), Step::Done(Err(_))));
}

#[test]
fn cluster_name_logs_in_anew_then_asks_for_the_status() {
    assert_eq!(
        get_cluster_name("h", 8006, "u", "p", &vec![]),
        Step::Send(build_ticket_request("h", 8006, "u", "p"))
    );
    assert_eq!(
        get_cluster_name("h", 8006, "u", "p", &vec![ticket_reply()]),
        Step::Send(Request {
            method: Method::Get,
            url: "https://h:8006/api2/json/cluster/status".to_string(),
            headers: vec![pair("Cookie", "PVEAuthCookie=PVE:root@pam:TICKET")],
            form: None,
            expects: Expect::ClusterStatus,
        })
    );
}

#[test]
fn cluster_name_is_the_cluster_entry_s() {
    let status = answered(
        200,
        "",
        Payload::ClusterStatus(vec![
            entry("pve1", "node"),
            entry("lab", "cluster"),
            entry("other", "cluster"),
        ]),
    );
    assert_eq!(
        get_cluster_name("h", 8006, "u", "p", &vec![ticket_reply(), status]),
        Step::Done(Ok("lab".to_string()))
    );
}

#[test]
fn cluster_name_falls_back_to_the_first_node() {
    let status = answered(200, "", Payload::ClusterStatus(vec![entry("pve1", "node")]));
    let replies = vec![ticket_reply(), status];
    assert_eq!(
        get_cluster_name("h", 8006, "u", "p", &replies),
        Step::Send(Request {
            method: Method::Get,
            url: "https://h:8006/api2/json/nodes".to_string(),
            headers: vec![pair("Cookie", "PVEAuthCookie=PVE:root@pam:TICKET")],
            form: None,
            expects: Expect::Nodes,
        })
    );
    let status = answered(200, "", Payload::ClusterStatus(vec![entry("pve1", "node")]));
    let nodes = answered(200, "", Payload::Nodes(vec![node("pve1"), node("pve2")]));
    assert_eq!(
        get_cluster_name("h", 8006, "u", "p", &vec![ticket_reply(), status, nodes]),
        Step::Done(Ok("pve1".to_string()))
    );
}

#[test]
fn cluster_name_falls_back_to_the_host() {
    let status = answered(200, "", Payload::ClusterStatus(vec![]));
    let nodes = answered(200, "", Payload::Nodes(vec![]));
    assert_eq!(
        get_cluster_name("10.0.0.2", 8006, "u", "p", &vec![ticket_reply(), status, nodes]),
        Step::Done(Ok("10.0.0.2".to_string()))
    );
}

#[test]
fn a_refused_status_query_falls_back_too() {
    let status = answered(403, "denied", Payload::ClusterStatus(vec![entry("lab", "cluster")]));
    let nodes = answered(200, "", Payload::Nodes(vec![node("solo")]));
    assert_eq!(
        get_cluster_name("h", 8006, "u", "p", &vec![ticket_reply(), status, nodes]),
        Step::Done(Ok("solo".to_string()))
    );
    let status = answered(200, "", Payload::Malformed("eof".to_string()));
    let nodes = answered(200, "", Payload::Nodes(vec![node("solo")]));
    assert_eq!(
        get_cluster_name("h", 8006, "u", "p", &vec![ticket_reply(), status, nodes]),
        Step::Done(Ok("solo".to_string()))
    );
}

#[test]
fn an_unanswered_status_query_falls_back_too() {
    let replies = vec![ticket_reply(), Reply::Failed("timed out".to_string())];
    match get_cluster_name("h", 8006, "u", "p", &replies) {
        Step::Send(request) => assert_eq!(request.url, "https://h:8006/api2/json/nodes"),
        other => panic!("unexpected {:?}", other),
    }
    let nodes = answered(200, "", Payload::Nodes(vec![node("solo")]));
    let replies = vec![ticket_reply(), Reply::Failed("timed out".to_string()), nodes];
    assert_eq!(
        get_cluster_name("h", 8006, "u", "p", &replies),
        Step::Done(Ok("solo".to_string()))
    );
}

#[test]
fn cluster_name_fails_where_login_or_the_nodes_listing_fails() {
    let refused = answered(401, "", Payload::Text);
    assert!(matches!(
        get_cluster_name("h", 8006, "u", "p", &vec![refused]),
        Step::Done(Err(ApiError::Auth(_)))
    ));
    let replies = vec![
        ticket_reply(),
        Reply::Failed("timed out".to_string()),
        Reply::Failed("timed out again".to_string()),
    ];
    assert_eq!(
        get_cluster_name("h", 8006, "u", "p", &replies),
        Step::Done(Err(ApiError::Client("timed out again".to_string())))
    );
    let status = answered(200, "", Payload::ClusterStatus(vec![]));
    let nodes = answered(200, "", Payload::Malformed("bad nodes".to_string()));
    assert_eq!(
        get_cluster_name("h", 8006, "u", "p", &vec![ticket_reply(), status, nodes]),
        Step::Done(Err(ApiError::Parse("bad nodes".to_string())))
    );
}

#[test]
fn the_authentication_failure_names_the_status() {
    assert_eq!(
        pve_launcher::api::auth::build_auth_failure("403 Forbidden"),
        ApiError::Auth("Authentication failed with status: 403 Forbidden".to_string())
    );
}
