//! Logging in, and finding a name for what was logged in to.

use crate::api::error::{ApiError, ErrorView};
use crate::api::http::{
    api_url, build_api_url, build_get_with_ticket, build_parse_failure, get_with_ticket,
    is_success, parse_failure, status_is_success, status_line, status_text, ClusterNode,
    ClusterNodeView, Expect, Method, Payload, PayloadView, Reply, ReplyView, Request,
    RequestView, Step, StepView, result_view,
};
use crate::models::connection::{AuthTokens, TokensView};
use crate::text::str_eq;
use vstd::prelude::*;

verus! {

/// The request that trades credentials for a ticket: the credentials go to the
/// ticket endpoint as a form.
pub open spec fn ticket_request(
    host: Seq<char>,
    port: u16,
    username: Seq<char>,
    password: Seq<char>,
) -> RequestView {
    RequestView {
        method: Method::Post,
        url: api_url(host, port, "/access/ticket"@),
        headers: Seq::empty(),
        form: Some(seq![("username"@, username), ("password"@, password)]),
        expects: Expect::Ticket,
    }
}

/// The request that trades credentials for a ticket.
pub fn build_ticket_request(host: &str, port: u16, username: &str, password: &str) -> (request:
    Request)
    ensures
        request@ == ticket_request(host@, port, username@, password@),
{
    let mut form: Vec<(String, String)> = Vec::new();
    form.push((String::from_str("username"), String::from_str(username)));
    form.push((String::from_str("password"), String::from_str(password)));
    let headers: Vec<(String, String)> = Vec::new();
    let request = Request {
        method: Method::Post,
        url: build_api_url(host, port, "/access/ticket"),
        headers,
        form: Some(form),
        expects: Expect::Ticket,
    };
    proof {
        assert(request.headers.deep_view() =~= Seq::empty());
        assert(request.form.deep_view()->0 =~= seq![
            ("username"@, username@),
            ("password"@, password@),
        ]);
    }
    request
}

/// What the ticket endpoint's reply means. Tokens come of an answer with a
/// success status that holds a ticket document, and of nothing else: any other
/// status is an authentication failure that names the status, and a success
/// status without the document is a parse failure.
pub open spec fn ticket_outcome(reply: ReplyView) -> Result<TokensView, ErrorView> {
    match reply {
        ReplyView::Failed(detail) => Err(ErrorView::Client(detail)),
        ReplyView::Answered(response) => if !is_success(response.status) {
            Err(ErrorView::Auth("Authentication failed with status: "@ + status_text(
                response.status,
            )))
        } else {
            match response.payload {
                PayloadView::Ticket(tokens) => Ok(tokens),
                other => Err(parse_failure(other)),
            }
        },
    }
}

/// The authentication failure for a status whose text is `status_line`.
pub fn build_auth_failure(status_line: &str) -> (error: ApiError)
    ensures
        error@ == ErrorView::Auth("Authentication failed with status: "@ + status_line@),
{
    let mut message = String::from_str("Authentication failed with status: ");
    message.append(status_line);
    ApiError::Auth(message)
}

/// Reads the ticket endpoint's reply.
pub fn read_ticket(reply: &Reply) -> (outcome: Result<AuthTokens, ApiError>)
    ensures
        result_view(outcome) == ticket_outcome(reply@),
{
    match reply {
        Reply::Failed(detail) => Err(ApiError::Client(detail.clone())),
        Reply::Answered(response) => {
            if !status_is_success(response.status) {
                let line = status_line(response.status);
                Err(build_auth_failure(line.as_str()))
            } else {
                match &response.payload {
                    Payload::Ticket(tokens) => Ok(tokens.clone()),
                    other => Err(build_parse_failure(other)),
                }
            }
        },
    }
}

/// Logging in, as a function of the replies so far: first the ticket request,
/// then what its reply means.
pub open spec fn authenticate_step(
    host: Seq<char>,
    port: u16,
    username: Seq<char>,
    password: Seq<char>,
    replies: Seq<ReplyView>,
) -> StepView<TokensView> {
    if replies.len() == 0 {
        StepView::Send(ticket_request(host, port, username, password))
    } else {
        StepView::Done(ticket_outcome(replies[0]))
    }
}

/// Logs in with a user name and a password. One request is made, and never
/// repeated: its reply decides.
pub fn authenticate(
    host: &str,
    port: u16,
    username: &str,
    password: &str,
    replies: &Vec<Reply>,
) -> (step: Step<AuthTokens>)
    ensures
        step.deep_view() == authenticate_step(
            host@,
            port,
            username@,
            password@,
            replies.deep_view(),
        ),
{
    if replies.len() == 0 {
        Step::Send(build_ticket_request(host, port, username, password))
    } else {
        Step::Done(read_ticket(&replies[0]))
    }
}

/// Logging in gives tokens exactly when the ticket endpoint answered with a
/// success status and a ticket document, and then it gives that document's
/// tokens.
pub proof fn lemma_tokens_iff_accepted(
    host: Seq<char>,
    port: u16,
    username: Seq<char>,
    password: Seq<char>,
    replies: Seq<ReplyView>,
)
    requires
        replies.len() > 0,
    ensures
        (authenticate_step(host, port, username, password, replies) matches StepView::Done(Ok(_)))
            <==> (replies[0] matches ReplyView::Answered(response) && is_success(response.status)
            && response.payload is Ticket),
        authenticate_step(host, port, username, password, replies) matches StepView::Done(
            Ok(tokens),
        ) ==> replies[0]->Answered_0.payload == PayloadView::Ticket(tokens),
{
}

/// The name of the first entry of the cluster status whose type is `cluster`.
pub open spec fn cluster_entry(entries: Seq<ClusterNodeView>) -> Option<Seq<char>>
    decreases entries.len(),
{
    if entries.len() == 0 {
        None
    } else if entries[0].node_type == "cluster"@ {
        Some(entries[0].name)
    } else {
        cluster_entry(entries.drop_first())
    }
}

/// The name of the first entry whose type is `cluster`.
pub fn find_cluster_entry(entries: &Vec<ClusterNode>) -> (name: Option<String>)
    ensures
        name.deep_view() == cluster_entry(entries.deep_view()),
{
    let ghost all = entries.deep_view();
    let mut i: usize = 0;
    proof {
        assert(all.skip(0) =~= all);
    }
    while i < entries.len()
        invariant
            i <= entries.len(),
            all == entries.deep_view(),
            cluster_entry(all) == cluster_entry(all.skip(i as int)),
        decreases entries.len() - i,
    {
        proof {
            assert(all.skip(i as int)[0] == entries[i as int]@);
            assert(all.skip(i as int).drop_first() =~= all.skip(i + 1));
        }
        if str_eq(entries[i].node_type.as_str(), "cluster") {
            return Some(entries[i].name.clone());
        }
        i += 1;
    }
    None
}

/// The cluster's name, where the reply to the cluster-status request holds one.
/// A request without answer, a status that is no success, and an answer
/// without the document hold none.
pub open spec fn cluster_name_in(reply: ReplyView) -> Option<Seq<char>> {
    match reply {
        ReplyView::Failed(_) => None,
        ReplyView::Answered(response) => if is_success(response.status) {
            match response.payload {
                PayloadView::ClusterStatus(entries) => cluster_entry(entries),
                _ => None,
            }
        } else {
            None
        },
    }
}

/// Reads the cluster's name from the reply to the cluster-status request.
pub fn read_cluster_name(reply: &Reply) -> (name: Option<String>)
    ensures
        name.deep_view() == cluster_name_in(reply@),
{
    match reply {
        Reply::Failed(_) => None,
        Reply::Answered(response) => {
            if status_is_success(response.status) {
                match &response.payload {
                    Payload::ClusterStatus(entries) => find_cluster_entry(entries),
                    _ => None,
                }
            } else {
                None
            }
        },
    }
}

/// What the nodes listing's reply means: the first node's name, or `host`
/// where no node is listed.
pub open spec fn node_name_outcome(reply: ReplyView, host: Seq<char>) -> Result<
    Seq<char>,
    ErrorView,
> {
    match reply {
        ReplyView::Failed(detail) => Err(ErrorView::Client(detail)),
        ReplyView::Answered(response) => match response.payload {
            PayloadView::Nodes(nodes) => Ok(
                if nodes.len() > 0 {
                    nodes[0]
                } else {
                    host
                },
            ),
            other => Err(parse_failure(other)),
        },
    }
}

/// Reads the nodes listing's reply.
pub fn read_node_name(reply: &Reply, host: &str) -> (outcome: Result<String, ApiError>)
    ensures
        result_view(outcome) == node_name_outcome(reply@, host@),
{
    match reply {
        Reply::Failed(detail) => Err(ApiError::Client(detail.clone())),
        Reply::Answered(response) => match &response.payload {
            Payload::Nodes(nodes) => {
                if nodes.len() > 0 {
                    Ok(nodes[0].node.clone())
                } else {
                    Ok(String::from_str(host))
                }
            },
            other => Err(build_parse_failure(other)),
        },
    }
}

/// Naming the connection, as a function of the replies so far. It logs in
/// anew, asks for the cluster status, and takes the name of the entry of type
/// `cluster`. Where the status holds none, or the request for it failed in
/// any way, it asks for the nodes and takes the first one's name; where no
/// node is listed, the name is the host. Only the login and the nodes listing
/// can fail the naming.
pub open spec fn cluster_name_step(
    host: Seq<char>,
    port: u16,
    username: Seq<char>,
    password: Seq<char>,
    replies: Seq<ReplyView>,
) -> StepView<Seq<char>> {
    if replies.len() == 0 {
        StepView::Send(ticket_request(host, port, username, password))
    } else {
        match ticket_outcome(replies[0]) {
            Err(error) => StepView::Done(Err(error)),
            Ok(tokens) => if replies.len() == 1 {
                StepView::Send(
                    get_with_ticket(
                        api_url(host, port, "/cluster/status"@),
                        tokens.ticket,
                        Expect::ClusterStatus,
                    ),
                )
            } else {
                match cluster_name_in(replies[1]) {
                    Some(name) => StepView::Done(Ok(name)),
                    None => if replies.len() == 2 {
                        StepView::Send(
                            get_with_ticket(
                                api_url(host, port, "/nodes"@),
                                tokens.ticket,
                                Expect::Nodes,
                            ),
                        )
                    } else {
                        StepView::Done(node_name_outcome(replies[2], host))
                    },
                }
            },
        }
    }
}

/// Finds the name to show for a connection: the cluster's name, else the
/// first node's name, else the host.
pub fn get_cluster_name(
    host: &str,
    port: u16,
    username: &str,
    password: &str,
    replies: &Vec<Reply>,
) -> (step: Step<String>)
    ensures
        step.deep_view() == cluster_name_step(
            host@,
            port,
            username@,
            password@,
            replies.deep_view(),
        ),
{
    if replies.len() == 0 {
        return Step::Send(build_ticket_request(host, port, username, password));
    }
    let tokens = match read_ticket(&replies[0]) {
        Err(error) => {
            return Step::Done(Err(error));
        },
        Ok(tokens) => tokens,
    };
    if replies.len() == 1 {
        return Step::Send(
            build_get_with_ticket(
                build_api_url(host, port, "/cluster/status"),
                tokens.ticket.as_str(),
                Expect::ClusterStatus,
            ),
        );
    }
    match read_cluster_name(&replies[1]) {
        Some(name) => {
            return Step::Done(Ok(name));
        },
        None => {},
    }
    if replies.len() == 2 {
        return Step::Send(
            build_get_with_ticket(
                build_api_url(host, port, "/nodes"),
                tokens.ticket.as_str(),
                Expect::Nodes,
            ),
        );
    }
    Step::Done(read_node_name(&replies[2], host))
}

/// After a successful login and an answer to the cluster-status request: where
/// the status lists an entry of type `cluster`, the name is that entry's, and
/// nothing more is asked. Where it lists none, the name is the first node's of
/// the nodes listing, and the host where no node is listed.
pub proof fn lemma_cluster_name_fallback(
    host: Seq<char>,
    port: u16,
    username: Seq<char>,
    password: Seq<char>,
    replies: Seq<ReplyView>,
    entries: Seq<ClusterNodeView>,
    nodes: Seq<Seq<char>>,
)
    requires
        replies.len() >= 2,
        ticket_outcome(replies[0]) is Ok,
        replies[1] matches ReplyView::Answered(response) && is_success(response.status)
            && response.payload == PayloadView::ClusterStatus(entries),
    ensures
        has_cluster_entry(entries) ==> cluster_name_step(host, port, username, password, replies)
            == StepView::<Seq<char>>::Done(Ok(first_cluster_entry(entries).name)),
        !has_cluster_entry(entries) && replies.len() >= 3 && (replies[2] matches ReplyView::Answered(
            response,
        ) && response.payload == PayloadView::Nodes(nodes)) ==> cluster_name_step(
            host,
            port,
            username,
            password,
            replies,
        ) == StepView::<Seq<char>>::Done(
            Ok(
                if nodes.len() > 0 {
                    nodes[0]
                } else {
                    host
                },
            ),
        ),
{
    lemma_cluster_entry(entries);
}

/// A cluster whose status could not be had, for want of an answer, of a
/// success status or of the document, is named like one without a `cluster`
/// entry: after the first node of the nodes listing, or after the host.
pub proof fn lemma_cluster_name_without_status(
    host: Seq<char>,
    port: u16,
    username: Seq<char>,
    password: Seq<char>,
    replies: Seq<ReplyView>,
    nodes: Seq<Seq<char>>,
)
    requires
        replies.len() >= 3,
        ticket_outcome(replies[0]) is Ok,
        replies[1] is Failed || (replies[1] matches ReplyView::Answered(response) && (!is_success(
            response.status,
        ) || !(response.payload is ClusterStatus))),
        replies[2] matches ReplyView::Answered(response) && response.payload
            == PayloadView::Nodes(nodes),
    ensures
        cluster_name_step(host, port, username, password, replies) == StepView::<
            Seq<char>,
        >::Done(
            Ok(
                if nodes.len() > 0 {
                    nodes[0]
                } else {
                    host
                },
            ),
        ),
{
}

/// Some entry of the status has the type `cluster`.
pub open spec fn has_cluster_entry(entries: Seq<ClusterNodeView>) -> bool {
    exists|i: int| 0 <= i < entries.len() && #[trigger] entries[i].node_type == "cluster"@
}

/// The first entry of the status that has the type `cluster`.
pub open spec fn first_cluster_entry(entries: Seq<ClusterNodeView>) -> ClusterNodeView {
    let i = choose|i: int|
        0 <= i < entries.len() && #[trigger] entries[i].node_type == "cluster"@ && forall|j: int|
            0 <= j < i ==> #[trigger] entries[j].node_type != "cluster"@;
    entries[i]
}

/// `cluster_entry` finds the first entry of type `cluster`, and finds none
/// only where there is none.
pub proof fn lemma_cluster_entry(entries: Seq<ClusterNodeView>)
    ensures
        cluster_entry(entries) is Some <==> has_cluster_entry(entries),
        has_cluster_entry(entries) ==> cluster_entry(entries) == Some(
            first_cluster_entry(entries).name,
        ),
    decreases entries.len(),
{
    if entries.len() == 0 {
    } else if entries[0].node_type == "cluster"@ {
        let first = choose|i: int|
            0 <= i < entries.len() && #[trigger] entries[i].node_type == "cluster"@ && forall|
                j: int,
            |
                0 <= j < i ==> #[trigger] entries[j].node_type != "cluster"@;
        assert(first == 0) by {
            if first != 0 {
                assert(entries[0].node_type != "cluster"@);
            }
        }
    } else {
        let rest = entries.drop_first();
        lemma_cluster_entry(rest);
        if has_cluster_entry(entries) {
            let i = choose|i: int|
                0 <= i < entries.len() && #[trigger] entries[i].node_type == "cluster"@;
            assert(rest[i - 1].node_type == "cluster"@);
            assert(has_cluster_entry(rest));
        }
        if has_cluster_entry(rest) {
            let i = choose|i: int|
                0 <= i < rest.len() && #[trigger] rest[i].node_type == "cluster"@;
            assert(entries[i + 1].node_type == "cluster"@);
            lemma_first_shifts(entries);
        }
    }
}

proof fn lemma_first_shifts(entries: Seq<ClusterNodeView>)
    requires
        entries.len() > 0,
        entries[0].node_type != "cluster"@,
        has_cluster_entry(entries.drop_first()),
    ensures
        first_cluster_entry(entries) == first_cluster_entry(entries.drop_first()),
{
    let rest = entries.drop_first();
    lemma_first_exists(rest);
    let r = choose|i: int|
        0 <= i < rest.len() && #[trigger] rest[i].node_type == "cluster"@ && forall|j: int|
            0 <= j < i ==> #[trigger] rest[j].node_type != "cluster"@;
    assert(entries[r + 1].node_type == "cluster"@);
    assert forall|j: int| 0 <= j < r + 1 implies #[trigger] entries[j].node_type
        != "cluster"@ by {
        if j > 0 {
            assert(rest[j - 1].node_type != "cluster"@);
        }
    }
    let e = choose|i: int|
        0 <= i < entries.len() && #[trigger] entries[i].node_type == "cluster"@ && forall|j: int|
            0 <= j < i ==> #[trigger] entries[j].node_type != "cluster"@;
    assert(e == r + 1) by {
        if e < r + 1 {
            assert(entries[e].node_type != "cluster"@);
        }
        if e > r + 1 {
            assert(entries[r + 1].node_type != "cluster"@);
        }
    }
}

proof fn lemma_first_exists(entries: Seq<ClusterNodeView>)
    requires
        has_cluster_entry(entries),
    ensures
        exists|i: int|
            0 <= i < entries.len() && #[trigger] entries[i].node_type == "cluster"@ && forall|
                j: int,
            |
                0 <= j < i ==> #[trigger] entries[j].node_type != "cluster"@,
    decreases entries.len(),
{
    if entries[0].node_type == "cluster"@ {
        assert(forall|j: int| 0 <= j < 0 ==> #[trigger] entries[j].node_type != "cluster"@);
    } else {
        let rest = entries.drop_first();
        let i = choose|i: int|
            0 <= i < entries.len() && #[trigger] entries[i].node_type == "cluster"@;
        assert(rest[i - 1].node_type == "cluster"@);
        lemma_first_exists(rest);
        let r = choose|i: int|
            0 <= i < rest.len() && #[trigger] rest[i].node_type == "cluster"@ && forall|j: int|
                0 <= j < i ==> #[trigger] rest[j].node_type != "cluster"@;
        assert(entries[r + 1].node_type == "cluster"@);
        assert forall|j: int| 0 <= j < r + 1 implies #[trigger] entries[j].node_type
            != "cluster"@ by {
            if j > 0 {
                assert(rest[j - 1].node_type != "cluster"@);
            }
        }
    }
}

/// Logging in is over after one reply, and naming the connection after at
/// most three. A result, once there, stays: replies that come after it change
/// nothing.
pub proof fn lemma_session_results_are_final(
    host: Seq<char>,
    port: u16,
    username: Seq<char>,
    password: Seq<char>,
    replies: Seq<ReplyView>,
    more: Seq<ReplyView>,
)
    ensures
        replies.len() >= 1 ==> authenticate_step(host, port, username, password, replies) is Done,
        replies.len() >= 3 ==> cluster_name_step(host, port, username, password, replies) is Done,
        authenticate_step(host, port, username, password, replies) is Done ==> authenticate_step(
            host,
            port,
            username,
            password,
            replies + more,
        ) == authenticate_step(host, port, username, password, replies),
        cluster_name_step(host, port, username, password, replies) is Done ==> cluster_name_step(
            host,
            port,
            username,
            password,
            replies + more,
        ) == cluster_name_step(host, port, username, password, replies),
{
    let longer = replies + more;
    if replies.len() >= 1 {
        assert(longer[0] == replies[0]);
    }
    if replies.len() >= 2 {
        assert(longer[1] == replies[1]);
    }
    if replies.len() >= 3 {
        assert(longer[2] == replies[2]);
    }
}

} // verus!
