//! Asking what became of a task.

use crate::api::auth::{build_ticket_request, read_ticket, ticket_outcome, ticket_request};
use crate::api::error::{ApiError, ErrorView};
use crate::api::http::{
    api_failure, api_url, build_api_failure, build_api_url, build_get_with_ticket,
    build_parse_failure, get_with_ticket, is_success, parse_failure, result_view,
    status_is_success, url_encode, url_encoded, Expect, Payload, PayloadView, Reply, ReplyView,
    RequestView, Step, StepView,
};
use crate::models::task::{TaskStatus, TaskView};
use vstd::prelude::*;

verus! {

/// The path of a task's status: the task's identifier stands in it
/// percent-encoded, since it holds characters that a path segment cannot.
pub open spec fn task_path(node: Seq<char>, upid: Seq<char>) -> Seq<char> {
    "/nodes/"@ + node + "/tasks/"@ + url_encoded(upid) + "/status"@
}

/// The request for a task's status.
pub open spec fn task_status_request(
    host: Seq<char>,
    port: u16,
    ticket: Seq<char>,
    node: Seq<char>,
    upid: Seq<char>,
) -> RequestView {
    get_with_ticket(api_url(host, port, task_path(node, upid)), ticket, Expect::TaskState)
}

/// What the reply to a status request means: the task's status as the server
/// gave it, or the failure.
pub open spec fn task_state_outcome(reply: ReplyView) -> Result<TaskView, ErrorView> {
    match reply {
        ReplyView::Failed(detail) => Err(ErrorView::Client(detail)),
        ReplyView::Answered(response) => if !is_success(response.status) {
            Err(api_failure(response))
        } else {
            match response.payload {
                PayloadView::TaskState(task) => Ok(task),
                other => Err(parse_failure(other)),
            }
        },
    }
}

/// Reads the reply to a status request.
pub fn read_task_state(reply: &Reply) -> (outcome: Result<TaskStatus, ApiError>)
    ensures
        result_view(outcome) == task_state_outcome(reply@),
{
    match reply {
        Reply::Failed(detail) => Err(ApiError::Client(detail.clone())),
        Reply::Answered(response) => {
            if !status_is_success(response.status) {
                Err(build_api_failure(response))
            } else {
                match &response.payload {
                    Payload::TaskState(task) => Ok(task.clone()),
                    other => Err(build_parse_failure(other)),
                }
            }
        },
    }
}

/// Asking for a task's status, as a function of the replies so far: it logs in
/// anew, then asks once.
pub open spec fn task_status_step(
    host: Seq<char>,
    port: u16,
    username: Seq<char>,
    password: Seq<char>,
    node: Seq<char>,
    upid: Seq<char>,
    replies: Seq<ReplyView>,
) -> StepView<TaskView> {
    if replies.len() == 0 {
        StepView::Send(ticket_request(host, port, username, password))
    } else {
        match ticket_outcome(replies[0]) {
            Err(error) => StepView::Done(Err(error)),
            Ok(tokens) => if replies.len() == 1 {
                StepView::Send(task_status_request(host, port, tokens.ticket, node, upid))
            } else {
                StepView::Done(task_state_outcome(replies[1]))
            },
        }
    }
}

/// Asks once what became of the task `upid` on `node`. This does not wait for
/// the task: a caller that wants to wait asks again while the status is
/// running.
pub fn get_task_status(
    host: &str,
    port: u16,
    username: &str,
    password: &str,
    node: &str,
    upid: &str,
    replies: &Vec<Reply>,
) -> (step: Step<TaskStatus>)
    ensures
        step.deep_view() == task_status_step(
            host@,
            port,
            username@,
            password@,
            node@,
            upid@,
            replies.deep_view(),
        ),
{
    if replies.len() == 0 {
        return Step::Send(build_ticket_request(host, port, username, password));
    }
    let tokens = match read_ticket(&replies[0]) {
        Err(error) => {
            return Step::Done(Err(error));
        },
        Ok(tokens) => tokens,
    };
    if replies.len() == 1 {
        let mut path = String::from_str("/nodes/");
        path.append(node);
        path.append("/tasks/");
        let encoded = url_encode(upid);
        path.append(encoded.as_str());
        path.append("/status");
        return Step::Send(
            build_get_with_ticket(
                build_api_url(host, port, path.as_str()),
                tokens.ticket.as_str(),
                Expect::TaskState,
            ),
        );
    }
    Step::Done(read_task_state(&replies[1]))
}

/// A status that was asked for and had is the one that the server gave,
/// unchanged. So it reports success exactly when the server's says that the
/// task is not running and that its exit indicator is `OK`; with any other
/// exit indicator of a task that is not running it reports failure, and the
/// failure's message is that indicator.
pub proof fn lemma_task_report(
    host: Seq<char>,
    port: u16,
    username: Seq<char>,
    password: Seq<char>,
    node: Seq<char>,
    upid: Seq<char>,
    replies: Seq<ReplyView>,
    task: TaskView,
)
    requires
        task_status_step(host, port, username, password, node, upid, replies) == StepView::<
            TaskView,
        >::Done(Ok(task)),
    ensures
        replies.len() >= 2,
        replies[1] matches ReplyView::Answered(response) && response.payload
            == PayloadView::TaskState(task),
        task.succeeded() <==> (task.status != "running"@ && task.exitstatus == "OK"@),
        task.failed() <==> (task.status != "running"@ && task.exitstatus != "OK"@),
        task.failed() ==> task.failure() == Some(task.exitstatus),
        !task.failed() ==> task.failure() is None,
{
}

/// Asking for a task's status is over after two replies: the status endpoint
/// is asked once and never again. A result, once there, stays.
pub proof fn lemma_task_status_is_asked_once(
    host: Seq<char>,
    port: u16,
    username: Seq<char>,
    password: Seq<char>,
    node: Seq<char>,
    upid: Seq<char>,
    replies: Seq<ReplyView>,
    more: Seq<ReplyView>,
)
    ensures
        replies.len() >= 2 ==> task_status_step(host, port, username, password, node, upid, replies)
            is Done,
        task_status_step(host, port, username, password, node, upid, replies) is Done
            ==> task_status_step(host, port, username, password, node, upid, replies + more)
            == task_status_step(host, port, username, password, node, upid, replies),
{
    let longer = replies + more;
    if replies.len() >= 1 {
        assert(longer[0] == replies[0]);
    }
    if replies.len() >= 2 {
        assert(longer[1] == replies[1]);
    }
}

} // verus!
