//! Requests and replies as plain values, and the addresses of the endpoints.

use crate::api::error::{ApiError, ErrorView};
use crate::models::connection::{AuthTokens, TokensView};
use crate::models::task::{TaskStatus, TaskView};
use crate::models::vm::{VMInfo, VmView};
use crate::text::{decimal, decimal_string, digit_char, push_decimal};
use vstd::prelude::*;

verus! {

/// The two request methods that the client uses.
#[derive(Debug, Clone, Copy, PartialEq, Eq, Structural)]
pub enum Method {
    Get,
    Post,
}

/// The document that a request's answer should carry, so that the transport
/// knows what to decode.
#[derive(Debug, Clone, Copy, PartialEq, Eq, Structural)]
pub enum Expect {
    Ticket,
    ClusterStatus,
    Nodes,
    Inventory,
    VmConfig,
    Interfaces,
    Task,
    TaskState,
    Text,
}

/// One request, ready to be sent.
#[derive(Debug, PartialEq, Eq)]
pub struct Request {
    pub method: Method,
    pub url: String,
    /// Header names with their values.
    pub headers: Vec<(String, String)>,
    /// The fields of a form-encoded body; `None` for a request without body.
    pub form: Option<Vec<(String, String)>>,
    pub expects: Expect,
}

/// A request as plain values.
pub ghost struct RequestView {
    pub method: Method,
    pub url: Seq<char>,
    pub headers: Seq<(Seq<char>, Seq<char>)>,
    pub form: Option<Seq<(Seq<char>, Seq<char>)>>,
    pub expects: Expect,
}

impl View for Request {
    type V = RequestView;

    open spec fn view(&self) -> RequestView {
        RequestView {
            method: self.method,
            url: self.url@,
            headers: self.headers.deep_view(),
            form: self.form.deep_view(),
            expects: self.expects,
        }
    }
}

impl DeepView for Request {
    type V = RequestView;

    open spec fn deep_view(&self) -> RequestView {
        self@
    }
}

/// One entry of the cluster status: the cluster itself or one of its nodes.
#[derive(Debug, PartialEq, Eq)]
pub struct ClusterNode {
    pub name: String,
    pub node_type: String,
}

/// One node of the nodes listing.
#[derive(Debug, PartialEq, Eq)]
pub struct Node {
    pub node: String,
}

/// What a machine's configuration says about its display and processors.
#[derive(Debug, PartialEq, Eq)]
pub struct VMConfig {
    pub vga: String,
    pub cores: u32,
    pub sockets: u32,
}

/// One address of a guest's network interface.
#[derive(Debug, PartialEq, Eq)]
pub struct IpAddress {
    pub ip_address: String,
    pub ip_address_type: String,
}

/// One network interface as the guest agent reports it.
#[derive(Debug, PartialEq, Eq)]
pub struct NetworkInterface {
    pub name: String,
    pub ip_addresses: Option<Vec<IpAddress>>,
}

/// The guest agent's answer to the interface listing.
#[derive(Debug, PartialEq, Eq)]
pub struct NetworkData {
    pub result: Option<Vec<NetworkInterface>>,
}

pub ghost struct ClusterNodeView {
    pub name: Seq<char>,
    pub node_type: Seq<char>,
}

pub ghost struct VMConfigView {
    pub vga: Seq<char>,
    pub cores: u32,
    pub sockets: u32,
}

pub ghost struct IpAddressView {
    pub ip_address: Seq<char>,
    pub ip_address_type: Seq<char>,
}

pub ghost struct NetworkInterfaceView {
    pub name: Seq<char>,
    pub ip_addresses: Option<Seq<IpAddressView>>,
}

impl View for ClusterNode {
    type V = ClusterNodeView;

    open spec fn view(&self) -> ClusterNodeView {
        ClusterNodeView { name: self.name@, node_type: self.node_type@ }
    }
}

impl DeepView for ClusterNode {
    type V = ClusterNodeView;

    open spec fn deep_view(&self) -> ClusterNodeView {
        self@
    }
}

impl View for Node {
    type V = Seq<char>;

    open spec fn view(&self) -> Seq<char> {
        self.node@
    }
}

impl DeepView for Node {
    type V = Seq<char>;

    open spec fn deep_view(&self) -> Seq<char> {
        self@
    }
}

impl View for VMConfig {
    type V = VMConfigView;

    open spec fn view(&self) -> VMConfigView {
        VMConfigView { vga: self.vga@, cores: self.cores, sockets: self.sockets }
    }
}

impl DeepView for VMConfig {
    type V = VMConfigView;

    open spec fn deep_view(&self) -> VMConfigView {
        self@
    }
}

impl View for IpAddress {
    type V = IpAddressView;

    open spec fn view(&self) -> IpAddressView {
        IpAddressView {
            ip_address: self.ip_address@,
            ip_address_type: self.ip_address_type@,
        }
    }
}

impl DeepView for IpAddress {
    type V = IpAddressView;

    open spec fn deep_view(&self) -> IpAddressView {
        self@
    }
}

impl View for NetworkInterface {
    type V = NetworkInterfaceView;

    open spec fn view(&self) -> NetworkInterfaceView {
        NetworkInterfaceView { name: self.name@, ip_addresses: self.ip_addresses.deep_view() }
    }
}

impl DeepView for NetworkInterface {
    type V = NetworkInterfaceView;

    open spec fn deep_view(&self) -> NetworkInterfaceView {
        self@
    }
}

impl View for NetworkData {
    /// The interfaces, where the agent listed any.
    type V = Option<Seq<NetworkInterfaceView>>;

    open spec fn view(&self) -> Option<Seq<NetworkInterfaceView>> {
        self.result.deep_view()
    }
}

impl DeepView for NetworkData {
    type V = Option<Seq<NetworkInterfaceView>>;

    open spec fn deep_view(&self) -> Option<Seq<NetworkInterfaceView>> {
        self@
    }
}

/// The decoded body of an answer.
#[derive(Debug, PartialEq, Eq)]
pub enum Payload {
    /// The body is not a document of the expected kind; the decoder's message.
    Malformed(String),
    Ticket(AuthTokens),
    ClusterStatus(Vec<ClusterNode>),
    Nodes(Vec<Node>),
    Inventory(Vec<VMInfo>),
    VmConfig(VMConfig),
    /// The guest agent's answer, whose `data` member may be absent.
    Interfaces(Option<NetworkData>),
    /// The identifier of the task that a power operation started.
    Task(String),
    TaskState(TaskStatus),
    /// Nothing was decoded: the body is to be taken as it is.
    Text,
}

pub ghost enum PayloadView {
    Malformed(Seq<char>),
    Ticket(TokensView),
    ClusterStatus(Seq<ClusterNodeView>),
    Nodes(Seq<Seq<char>>),
    Inventory(Seq<VmView>),
    VmConfig(VMConfigView),
    Interfaces(Option<Option<Seq<NetworkInterfaceView>>>),
    Task(Seq<char>),
    TaskState(TaskView),
    Text,
}

impl View for Payload {
    type V = PayloadView;

    open spec fn view(&self) -> PayloadView {
        match self {
            Payload::Malformed(detail) => PayloadView::Malformed(detail@),
            Payload::Ticket(tokens) => PayloadView::Ticket(tokens@),
            Payload::ClusterStatus(entries) => PayloadView::ClusterStatus(entries.deep_view()),
            Payload::Nodes(nodes) => PayloadView::Nodes(nodes.deep_view()),
            Payload::Inventory(vms) => PayloadView::Inventory(vms.deep_view()),
            Payload::VmConfig(config) => PayloadView::VmConfig(config@),
            Payload::Interfaces(data) => PayloadView::Interfaces(data.deep_view()),
            Payload::Task(upid) => PayloadView::Task(upid@),
            Payload::TaskState(task) => PayloadView::TaskState(task@),
            Payload::Text => PayloadView::Text,
        }
    }
}

/// An answer of the server: its status, its body as text, and the body decoded.
#[derive(Debug, PartialEq, Eq)]
pub struct Response {
    pub status: u16,
    pub body: String,
    pub payload: Payload,
}

pub ghost struct ResponseView {
    pub status: u16,
    pub body: Seq<char>,
    pub payload: PayloadView,
}

impl View for Response {
    type V = ResponseView;

    open spec fn view(&self) -> ResponseView {
        ResponseView { status: self.status, body: self.body@, payload: self.payload@ }
    }
}

/// What came of sending one request.
#[derive(Debug, PartialEq, Eq)]
pub enum Reply {
    /// No answer arrived; the transport's message.
    Failed(String),
    Answered(Response),
}

pub ghost enum ReplyView {
    Failed(Seq<char>),
    Answered(ResponseView),
}

impl View for Reply {
    type V = ReplyView;

    open spec fn view(&self) -> ReplyView {
        match self {
            Reply::Failed(detail) => ReplyView::Failed(detail@),
            Reply::Answered(response) => ReplyView::Answered(response@),
        }
    }
}

impl DeepView for Reply {
    type V = ReplyView;

    open spec fn deep_view(&self) -> ReplyView {
        self@
    }
}

/// The next move of an operation: a request to send, or the result.
#[derive(Debug, PartialEq, Eq)]
pub enum Step<T> {
    Send(Request),
    Done(Result<T, ApiError>),
}

pub ghost enum StepView<V> {
    Send(RequestView),
    Done(Result<V, ErrorView>),
}

impl<T: DeepView> DeepView for Step<T> {
    type V = StepView<T::V>;

    open spec fn deep_view(&self) -> StepView<T::V> {
        match self {
            Step::Send(request) => StepView::Send(request@),
            Step::Done(Ok(value)) => StepView::Done(Ok(value.deep_view())),
            Step::Done(Err(error)) => StepView::Done(Err(error@)),
        }
    }
}

/// The result of an operation as plain values.
pub open spec fn result_view<T: DeepView>(result: Result<T, ApiError>) -> Result<T::V, ErrorView> {
    match result {
        Ok(value) => Ok(value.deep_view()),
        Err(error) => Err(error@),
    }
}

/// The failure for an answer that does not hold the expected document: the
/// decoder's message where it gave one.
pub open spec fn parse_failure(payload: PayloadView) -> ErrorView {
    match payload {
        PayloadView::Malformed(detail) => ErrorView::Parse(detail),
        _ => ErrorView::Parse("unexpected document"@),
    }
}

/// The failure for an answer that does not hold the expected document.
pub fn build_parse_failure(payload: &Payload) -> (error: ApiError)
    ensures
        error@ == parse_failure(payload@),
{
    match payload {
        Payload::Malformed(detail) => ApiError::Parse(detail.clone()),
        _ => ApiError::Parse(String::from_str("unexpected document")),
    }
}

/// The failure for an answer whose status is no success: the status and the
/// body, verbatim.
pub open spec fn api_failure(response: ResponseView) -> ErrorView {
    ErrorView::Api { status: response.status, message: response.body }
}

/// The failure for an answer whose status is no success.
pub fn build_api_failure(response: &Response) -> (error: ApiError)
    ensures
        error@ == api_failure(response@),
{
    ApiError::Api { status: response.status, message: response.body.clone() }
}

/// A status between 200 and 299 is a success, and no other is.
pub open spec fn is_success(status: u16) -> bool {
    200 <= status < 300
}

/// Whether `status` is a success.
pub fn status_is_success(status: u16) -> (yes: bool)
    ensures
        yes == is_success(status),
{
    200 <= status && status < 300
}

/// What `reqwest::StatusCode` displays for a status: the number, a space, and
/// the reason phrase that the status is registered with.
pub uninterp spec fn status_display(status: u16) -> Seq<char>;

/// `reqwest::StatusCode::from_u16`, then the status code's `to_string`. The
/// first accepts exactly the numbers from 100 to 999; of the text the contract
/// only says that it is `status_display` of the number.
#[verifier::external_body]
fn display_status(status: u16) -> (text: Option<String>)
    ensures
        text is Some <==> 100 <= status <= 999,
        text is Some ==> text->0@ == status_display(status),
{
    match reqwest::StatusCode::from_u16(status) {
        Ok(code) => Some(code.to_string()),
        Err(_) => None,
    }
}

/// The text for a status in messages: what the HTTP library displays for it
/// where it is a status code at all, else its bare number.
pub open spec fn status_text(status: u16) -> Seq<char> {
    if 100 <= status <= 999 {
        status_display(status)
    } else {
        decimal(status as nat)
    }
}

/// The text for a status in messages.
pub fn status_line(status: u16) -> (line: String)
    ensures
        line@ == status_text(status),
{
    match display_status(status) {
        Some(line) => line,
        None => decimal_string(status as u64),
    }
}

/// The bytes that stand for themselves in a path segment: letters, digits,
/// `-`, `.`, `_` and `~`.
pub open spec fn is_unreserved(b: u8) -> bool {
    ||| 0x30 <= b <= 0x39
    ||| 0x41 <= b <= 0x5a
    ||| 0x61 <= b <= 0x7a
    ||| b == 0x2d
    ||| b == 0x2e
    ||| b == 0x5f
    ||| b == 0x7e
}

/// The uppercase hexadecimal digit for `d`.
pub open spec fn hex_digit(d: int) -> char {
    if d < 10 {
        digit_char(d)
    } else if d == 10 {
        'A'
    } else if d == 11 {
        'B'
    } else if d == 12 {
        'C'
    } else if d == 13 {
        'D'
    } else if d == 14 {
        'E'
    } else {
        'F'
    }
}

/// One byte, percent-encoded: itself where it is unreserved, else `%` and its
/// two hexadecimal digits.
pub open spec fn escaped_byte(b: u8) -> Seq<char> {
    if is_unreserved(b) {
        seq![b as char]
    } else {
        seq!['%', hex_digit(b as int / 16), hex_digit(b as int % 16)]
    }
}

/// A run of bytes, percent-encoded byte by byte.
pub open spec fn percent_encoded(bytes: Seq<u8>) -> Seq<char>
    decreases bytes.len(),
{
    if bytes.len() == 0 {
        Seq::empty()
    } else {
        percent_encoded(bytes.drop_last()) + escaped_byte(bytes.last())
    }
}

/// The percent-encoding of a text's UTF-8 bytes.
pub open spec fn url_encoded(s: Seq<char>) -> Seq<char> {
    percent_encoded(vstd::utf8::encode_utf8(s))
}

/// `urlencoding::encode`: every byte of the text's UTF-8 form is kept where it
/// is a letter, a digit, `-`, `.`, `_` or `~`, and written as `%` with two
/// uppercase hexadecimal digits where it is not.
#[verifier::external_body]
pub(crate) fn url_encode(s: &str) -> (encoded: String)
    ensures
        encoded@ == url_encoded(s@),
{
    urlencoding::encode(s).into_owned()
}

/// The address of an endpoint of the JSON interface: `https://host:port/api2/json`
/// and the endpoint's path.
pub open spec fn api_url(host: Seq<char>, port: u16, path: Seq<char>) -> Seq<char> {
    "https://"@ + host + ":"@ + decimal(port as nat) + "/api2/json"@ + path
}

/// The address of an endpoint of the JSON interface.
pub fn build_api_url(host: &str, port: u16, path: &str) -> (url: String)
    ensures
        url@ == api_url(host@, port, path@),
{
    let mut url = String::from_str("https://");
    url.append(host);
    url.append(":");
    push_decimal(&mut url, port as u64);
    url.append("/api2/json");
    url.append(path);
    url
}

/// The path of an endpoint about one machine: `/nodes/{node}/qemu/{vmid}` and
/// the endpoint's own part.
pub open spec fn vm_path(node: Seq<char>, vmid: u32, tail: Seq<char>) -> Seq<char> {
    "/nodes/"@ + node + "/qemu/"@ + decimal(vmid as nat) + tail
}

/// The path of an endpoint about one machine.
pub fn build_vm_path(node: &str, vmid: u32, tail: &str) -> (path: String)
    ensures
        path@ == vm_path(node@, vmid, tail@),
{
    let mut path = String::from_str("/nodes/");
    path.append(node);
    path.append("/qemu/");
    push_decimal(&mut path, vmid as u64);
    path.append(tail);
    path
}

/// The header that carries the session ticket.
pub open spec fn cookie_header(ticket: Seq<char>) -> (Seq<char>, Seq<char>) {
    ("Cookie"@, "PVEAuthCookie="@ + ticket)
}

/// The header that carries the token required on changing requests.
pub open spec fn csrf_header(csrf: Seq<char>) -> (Seq<char>, Seq<char>) {
    ("CSRFPreventionToken"@, csrf)
}

/// The header that carries the session ticket.
pub fn build_cookie_header(ticket: &str) -> (header: (String, String))
    ensures
        header.deep_view() == cookie_header(ticket@),
{
    let mut value = String::from_str("PVEAuthCookie=");
    value.append(ticket);
    (String::from_str("Cookie"), value)
}

/// The header that carries the token required on changing requests.
pub fn build_csrf_header(csrf: &str) -> (header: (String, String))
    ensures
        header.deep_view() == csrf_header(csrf@),
{
    (String::from_str("CSRFPreventionToken"), String::from_str(csrf))
}

/// A reading request that carries only the session ticket.
pub open spec fn get_with_ticket(url: Seq<char>, ticket: Seq<char>, expects: Expect)
    -> RequestView {
    RequestView {
        method: Method::Get,
        url,
        headers: seq![cookie_header(ticket)],
        form: None,
        expects,
    }
}

/// A reading request that carries only the session ticket.
pub fn build_get_with_ticket(url: String, ticket: &str, expects: Expect) -> (request: Request)
    ensures
        request@ == get_with_ticket(url@, ticket@, expects),
{
    let mut headers: Vec<(String, String)> = Vec::new();
    headers.push(build_cookie_header(ticket));
    let request = Request { method: Method::Get, url, headers, form: None, expects };
    assert(request.headers.deep_view() =~= seq![cookie_header(ticket@)]);
    request
}

} // verus!
