//! Fetching the one-time configuration of a remote display, and handing it to
//! the viewer.

use crate::api::auth::{build_ticket_request, read_ticket, ticket_outcome, ticket_request};
use crate::api::error::{ApiError, ErrorView};
use crate::api::http::{
    api_url, build_api_url, build_cookie_header, build_csrf_header, build_get_with_ticket,
    build_vm_path, cookie_header, csrf_header, get_with_ticket, is_success, result_view,
    status_is_success, status_line, status_text, vm_path, Expect, Method, Reply, ReplyView,
    Request, RequestView, Step, StepView,
};
use crate::text::{decimal, push_decimal};
use vstd::prelude::*;

verus! {

/// The request that finds out whether the machine is there.
pub open spec fn probe_request(
    host: Seq<char>,
    port: u16,
    ticket: Seq<char>,
    node: Seq<char>,
    vmid: u32,
) -> RequestView {
    get_with_ticket(
        api_url(host, port, vm_path(node, vmid, "/status/current"@)),
        ticket,
        Expect::Text,
    )
}

/// The address of a machine's display-proxy endpoint.
pub open spec fn spice_url(host: Seq<char>, port: u16, node: Seq<char>, vmid: u32) -> Seq<char> {
    "https://"@ + host + ":"@ + decimal(port as nat) + "/api2/spiceconfig"@ + vm_path(
        node,
        vmid,
        "/spiceproxy"@,
    )
}

/// The request for a display configuration: a post to the display-proxy
/// endpoint that names the host as the proxy.
pub open spec fn spice_request(
    host: Seq<char>,
    port: u16,
    ticket: Seq<char>,
    csrf: Seq<char>,
    node: Seq<char>,
    vmid: u32,
) -> RequestView {
    RequestView {
        method: Method::Post,
        url: spice_url(host, port, node, vmid),
        headers: seq![csrf_header(csrf), cookie_header(ticket)],
        form: Some(seq![("proxy"@, host)]),
        expects: Expect::Text,
    }
}

fn build_spice_request(host: &str, port: u16, ticket: &str, csrf: &str, node: &str, vmid: u32)
    -> (request: Request)
    ensures
        request@ == spice_request(host@, port, ticket@, csrf@, node@, vmid),
{
    let mut url = String::from_str("https://");
    url.append(host);
    url.append(":");
    push_decimal(&mut url, port as u64);
    url.append("/api2/spiceconfig");
    let path = build_vm_path(node, vmid, "/spiceproxy");
    url.append(path.as_str());
    let mut headers: Vec<(String, String)> = Vec::new();
    headers.push(build_csrf_header(csrf));
    headers.push(build_cookie_header(ticket));
    let mut form: Vec<(String, String)> = Vec::new();
    form.push((String::from_str("proxy"), String::from_str(host)));
    let request = Request {
        method: Method::Post,
        url,
        headers,
        form: Some(form),
        expects: Expect::Text,
    };
    proof {
        assert(request.headers.deep_view() =~= seq![csrf_header(csrf@), cookie_header(ticket@)]);
        assert(request.form.deep_view()->0 =~= seq![("proxy"@, host@)]);
    }
    request
}

/// What is said of a machine that the probe did not find.
pub open spec fn not_found_detail(node: Seq<char>, vmid: u32, status: u16, body: Seq<char>) -> Seq<
    char,
> {
    "node='"@ + node + "', vmid='"@ + decimal(vmid as nat) + "' ("@ + status_text(status)
        + "). Response: "@ + body
}

/// The failure that the probe's reply means, if it means one: any status that
/// is no success says that the machine is not there.
pub open spec fn probe_failure(reply: ReplyView, node: Seq<char>, vmid: u32) -> Option<ErrorView> {
    match reply {
        ReplyView::Failed(detail) => Some(ErrorView::Client(detail)),
        ReplyView::Answered(response) => if is_success(response.status) {
            None
        } else {
            Some(
                ErrorView::VMNotFound(
                    not_found_detail(node, vmid, response.status, response.body),
                ),
            )
        },
    }
}

/// The failure for a machine that the probe did not find, where
/// `status_line` is the text of the probe's status.
pub fn build_not_found(node: &str, vmid: u32, status_line: &str, body: &str) -> (error: ApiError)
    ensures
        error@ == ErrorView::VMNotFound(
            "node='"@ + node@ + "', vmid='"@ + decimal(vmid as nat) + "' ("@ + status_line@
                + "). Response: "@ + body@,
        ),
{
    let mut detail = String::from_str("node='");
    detail.append(node);
    detail.append("', vmid='");
    push_decimal(&mut detail, vmid as u64);
    detail.append("' (");
    detail.append(status_line);
    detail.append("). Response: ");
    detail.append(body);
    ApiError::VMNotFound(detail)
}

/// The display failure for an answer that is no success, where `status_line`
/// is the text of its status.
pub fn build_spice_failure(status_line: &str, body: &str) -> (error: ApiError)
    ensures
        error@ == ErrorView::Spice(
            "Failed to get SPICE config ("@ + status_line@ + "): "@ + body@,
        ),
{
    let mut message = String::from_str("Failed to get SPICE config (");
    message.append(status_line);
    message.append("): ");
    message.append(body);
    ApiError::Spice(message)
}

/// Reads the probe's reply.
pub fn read_probe(reply: &Reply, node: &str, vmid: u32) -> (failure: Option<ApiError>)
    ensures
        failure.deep_view() == probe_failure(reply@, node@, vmid),
{
    match reply {
        Reply::Failed(detail) => Some(ApiError::Client(detail.clone())),
        Reply::Answered(response) => {
            if status_is_success(response.status) {
                None
            } else {
                let line = status_line(response.status);
                Some(build_not_found(node, vmid, line.as_str(), response.body.as_str()))
            }
        },
    }
}

/// What the display-proxy endpoint's reply means: with a success status the
/// body is the configuration, verbatim; any other status is a display failure
/// that holds the status and the body.
pub open spec fn spice_outcome(reply: ReplyView) -> Result<Seq<char>, ErrorView> {
    match reply {
        ReplyView::Failed(detail) => Err(ErrorView::Client(detail)),
        ReplyView::Answered(response) => if is_success(response.status) {
            Ok(response.body)
        } else {
            Err(
                ErrorView::Spice(
                    "Failed to get SPICE config ("@ + status_text(response.status) + "): "@
                        + response.body,
                ),
            )
        },
    }
}

/// Reads the display-proxy endpoint's reply.
pub fn read_spice_config(reply: &Reply) -> (outcome: Result<String, ApiError>)
    ensures
        result_view(outcome) == spice_outcome(reply@),
{
    match reply {
        Reply::Failed(detail) => Err(ApiError::Client(detail.clone())),
        Reply::Answered(response) => {
            if status_is_success(response.status) {
                Ok(response.body.clone())
            } else {
                let line = status_line(response.status);
                Err(build_spice_failure(line.as_str(), response.body.as_str()))
            }
        },
    }
}

/// Fetching a display configuration, as a function of the replies so far. The
/// machine is always probed first, so that a machine that is not there fails
/// as such and not as a display failure; then the configuration is asked for.
pub open spec fn spice_config_step(
    host: Seq<char>,
    port: u16,
    ticket: Seq<char>,
    csrf: Seq<char>,
    node: Seq<char>,
    vmid: u32,
    replies: Seq<ReplyView>,
) -> StepView<Seq<char>> {
    if replies.len() == 0 {
        StepView::Send(probe_request(host, port, ticket, node, vmid))
    } else {
        match probe_failure(replies[0], node, vmid) {
            Some(error) => StepView::Done(Err(error)),
            None => if replies.len() == 1 {
                StepView::Send(spice_request(host, port, ticket, csrf, node, vmid))
            } else {
                StepView::Done(spice_outcome(replies[1]))
            },
        }
    }
}

fn spice_config_from(
    host: &str,
    port: u16,
    ticket: &str,
    csrf: &str,
    node: &str,
    vmid: u32,
    replies: &Vec<Reply>,
    from: usize,
) -> (step: Step<String>)
    requires
        from <= replies.len(),
    ensures
        step.deep_view() == spice_config_step(
            host@,
            port,
            ticket@,
            csrf@,
            node@,
            vmid,
            replies.deep_view().skip(from as int),
        ),
{
    let ghost rest = replies.deep_view().skip(from as int);
    if replies.len() == from {
        let path = build_vm_path(node, vmid, "/status/current");
        return Step::Send(
            build_get_with_ticket(build_api_url(host, port, path.as_str()), ticket, Expect::Text),
        );
    }
    proof {
        assert(rest[0] == replies[from as int]@);
    }
    match read_probe(&replies[from], node, vmid) {
        Some(error) => {
            return Step::Done(Err(error));
        },
        None => {},
    }
    if replies.len() - from == 1 {
        return Step::Send(build_spice_request(host, port, ticket, csrf, node, vmid));
    }
    proof {
        assert(rest[1] == replies[from + 1]@);
    }
    Step::Done(read_spice_config(&replies[from + 1]))
}

/// Fetches the one-time display configuration of a machine. What comes back
/// is the server's document as it is: nothing here reads it.
pub fn get_spice_config(
    host: &str,
    port: u16,
    ticket: &str,
    csrf: &str,
    node: &str,
    vmid: u32,
    replies: &Vec<Reply>,
) -> (step: Step<String>)
    ensures
        step.deep_view() == spice_config_step(
            host@,
            port,
            ticket@,
            csrf@,
            node@,
            vmid,
            replies.deep_view(),
        ),
{
    proof {
        assert(replies.deep_view().skip(0) =~= replies.deep_view());
    }
    spice_config_from(host, port, ticket, csrf, node, vmid, replies, 0)
}

/// Opening a machine's display from credentials, as a function of the replies
/// so far: it logs in, and fetches the configuration with the tokens that the
/// login gave.
pub open spec fn connect_step(
    host: Seq<char>,
    port: u16,
    username: Seq<char>,
    password: Seq<char>,
    node: Seq<char>,
    vmid: u32,
    replies: Seq<ReplyView>,
) -> StepView<Seq<char>> {
    if replies.len() == 0 {
        StepView::Send(ticket_request(host, port, username, password))
    } else {
        match ticket_outcome(replies[0]) {
            Err(error) => StepView::Done(Err(error)),
            Ok(tokens) => spice_config_step(
                host,
                port,
                tokens.ticket,
                tokens.csrf_token,
                node,
                vmid,
                replies.skip(1),
            ),
        }
    }
}

/// Logs in and fetches the display configuration of a machine, which is then
/// ready for the viewer.
pub fn connect_to_proxmox(
    host: &str,
    port: u16,
    username: &str,
    password: &str,
    node: &str,
    vmid: u32,
    replies: &Vec<Reply>,
) -> (step: Step<String>)
    ensures
        step.deep_view() == connect_step(
            host@,
            port,
            username@,
            password@,
            node@,
            vmid,
            replies.deep_view(),
        ),
{
    if replies.len() == 0 {
        return Step::Send(build_ticket_request(host, port, username, password));
    }
    match read_ticket(&replies[0]) {
        Err(error) => Step::Done(Err(error)),
        Ok(tokens) => spice_config_from(
            host,
            port,
            tokens.ticket.as_str(),
            tokens.csrf_token.as_str(),
            node,
            vmid,
            replies,
            1,
        ),
    }
}

/// The next move in handing a configuration to the viewer.
#[derive(Debug, PartialEq, Eq)]
pub enum LaunchStep {
    /// Write `content` to the file `name` in the directory for temporary files.
    WriteFile { name: String, content: String },
    /// Start `program` with the written file as its one argument, and do not
    /// wait for it.
    Spawn { program: String, file: String },
    Done(Result<(), ApiError>),
}

pub ghost enum LaunchStepView {
    WriteFile { name: Seq<char>, content: Seq<char> },
    Spawn { program: Seq<char>, file: Seq<char> },
    Done(Result<(), ErrorView>),
}

impl View for LaunchStep {
    type V = LaunchStepView;

    open spec fn view(&self) -> LaunchStepView {
        match self {
            LaunchStep::WriteFile { name, content } => LaunchStepView::WriteFile {
                name: name@,
                content: content@,
            },
            LaunchStep::Spawn { program, file } => LaunchStepView::Spawn {
                program: program@,
                file: file@,
            },
            LaunchStep::Done(Ok(_)) => LaunchStepView::Done(Ok(())),
            LaunchStep::Done(Err(error)) => LaunchStepView::Done(Err(error@)),
        }
    }
}

/// The name of the file that holds the configuration: it is keyed by the
/// process, so that two clients do not write the same file.
pub open spec fn viewer_file(process: u32) -> Seq<char> {
    "spice-"@ + decimal(process as nat) + ".vv"@
}

/// The name of the file that holds the configuration.
pub fn viewer_file_name(process: u32) -> (name: String)
    ensures
        name@ == viewer_file(process),
{
    let mut name = String::from_str("spice-");
    push_decimal(&mut name, process as u64);
    name.append(".vv");
    name
}

/// What is said when the viewer did not start.
pub open spec fn spawn_failure(detail: Seq<char>) -> ErrorView {
    ErrorView::Spice(
        "Failed to launch remote-viewer: "@ + detail
            + ". Make sure 'remote-viewer' is installed."@,
    )
}

/// Handing a configuration to the viewer, as a function of what came of the
/// steps so far: the file is written, then the viewer is started on it. A
/// file that cannot be written is an input-output failure; a viewer that does
/// not start is a display failure that says what to install.
pub open spec fn launch_step(
    spice_config: Seq<char>,
    process: u32,
    outcomes: Seq<Result<(), Seq<char>>>,
) -> LaunchStepView {
    if outcomes.len() == 0 {
        LaunchStepView::WriteFile { name: viewer_file(process), content: spice_config }
    } else {
        match outcomes[0] {
            Err(detail) => LaunchStepView::Done(Err(ErrorView::Io(detail))),
            Ok(_) => if outcomes.len() == 1 {
                LaunchStepView::Spawn { program: "remote-viewer"@, file: viewer_file(process) }
            } else {
                match outcomes[1] {
                    Err(detail) => LaunchStepView::Done(Err(spawn_failure(detail))),
                    Ok(_) => LaunchStepView::Done(Ok(())),
                }
            },
        }
    }
}

/// The outcomes of the steps so far, as plain values.
pub open spec fn outcome_views(outcomes: Seq<Result<(), String>>) -> Seq<Result<(), Seq<char>>> {
    outcomes.map_values(
        |outcome: Result<(), String>|
            match outcome {
                Ok(_) => Ok(()),
                Err(detail) => Err(detail@),
            },
    )
}

/// Hands a display configuration to the external viewer. The written file is
/// left where it is.
pub fn launch_spice_viewer(
    spice_config: &str,
    process: u32,
    outcomes: &Vec<Result<(), String>>,
) -> (step: LaunchStep)
    ensures
        step@ == launch_step(spice_config@, process, outcome_views(outcomes@)),
{
    if outcomes.len() == 0 {
        return LaunchStep::WriteFile {
            name: viewer_file_name(process),
            content: String::from_str(spice_config),
        };
    }
    match &outcomes[0] {
        Err(detail) => {
            return LaunchStep::Done(Err(ApiError::Io(detail.clone())));
        },
        Ok(_) => {},
    }
    if outcomes.len() == 1 {
        return LaunchStep::Spawn {
            program: String::from_str("remote-viewer"),
            file: viewer_file_name(process),
        };
    }
    match &outcomes[1] {
        Err(detail) => {
            let mut message = String::from_str("Failed to launch remote-viewer: ");
            message.append(detail.as_str());
            message.append(". Make sure 'remote-viewer' is installed.");
            LaunchStep::Done(Err(ApiError::Spice(message)))
        },
        Ok(_) => LaunchStep::Done(Ok(())),
    }
}

/// A machine that the probe does not find fails as not found before the
/// display-proxy endpoint is asked at all; a configuration that comes back is
/// the body of that endpoint's answer, unchanged.
pub proof fn lemma_probe_comes_first(
    host: Seq<char>,
    port: u16,
    ticket: Seq<char>,
    csrf: Seq<char>,
    node: Seq<char>,
    vmid: u32,
    replies: Seq<ReplyView>,
)
    requires
        replies.len() >= 1,
    ensures
        (replies[0] matches ReplyView::Answered(response) && !is_success(response.status))
            ==> spice_config_step(host, port, ticket, csrf, node, vmid, replies) matches StepView::Done(
            Err(ErrorView::VMNotFound(_)),
        ),
        spice_config_step(host, port, ticket, csrf, node, vmid, replies) matches StepView::Done(
            Ok(config),
        ) ==> replies.len() >= 2 && (replies[0] matches ReplyView::Answered(response)
            && is_success(response.status)) && (replies[1] matches ReplyView::Answered(response)
            && is_success(response.status) && response.body == config),
{
}

/// Fetching a display configuration is over after two replies, and after
/// three where it begins with a login. A result, once there, stays: replies
/// that come after it change nothing.
pub proof fn lemma_display_results_are_final(
    host: Seq<char>,
    port: u16,
    username: Seq<char>,
    password: Seq<char>,
    ticket: Seq<char>,
    csrf: Seq<char>,
    node: Seq<char>,
    vmid: u32,
    replies: Seq<ReplyView>,
    more: Seq<ReplyView>,
)
    ensures
        replies.len() >= 2 ==> spice_config_step(host, port, ticket, csrf, node, vmid, replies)
            is Done,
        replies.len() >= 3 ==> connect_step(host, port, username, password, node, vmid, replies)
            is Done,
        spice_config_step(host, port, ticket, csrf, node, vmid, replies) is Done
            ==> spice_config_step(host, port, ticket, csrf, node, vmid, replies + more)
            == spice_config_step(host, port, ticket, csrf, node, vmid, replies),
        connect_step(host, port, username, password, node, vmid, replies) is Done ==> connect_step(
            host,
            port,
            username,
            password,
            node,
            vmid,
            replies + more,
        ) == connect_step(host, port, username, password, node, vmid, replies),
{
    let longer = replies + more;
    if replies.len() >= 1 {
        assert(longer[0] == replies[0]);
        assert(longer.skip(1) =~= replies.skip(1) + more);
        let rest = replies.skip(1);
        let longer_rest = rest + more;
        if rest.len() >= 1 {
            assert(rest[0] == replies[1]);
            assert(longer_rest[0] == rest[0]);
        }
        if rest.len() >= 2 {
            assert(rest[1] == replies[2]);
            assert(longer_rest[1] == rest[1]);
        }
    }
    if replies.len() >= 2 {
        assert(longer[1] == replies[1]);
    }
}

} // verus!
