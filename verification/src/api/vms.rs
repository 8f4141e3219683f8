//! The inventory of machines, what the client adds to each record, and the
//! operations that change a machine's power state.

use crate::api::error::{ApiError, ErrorView};
use crate::api::http::{
    api_failure, api_url, build_api_failure, build_api_url, build_cookie_header,
    build_csrf_header, build_get_with_ticket, build_parse_failure, build_vm_path, cookie_header,
    csrf_header, get_with_ticket, is_success, parse_failure, result_view, status_is_success,
    vm_path, Expect, IpAddress, IpAddressView, Method, NetworkInterface, NetworkInterfaceView,
    Payload, PayloadView, Reply, ReplyView, Request, RequestView, Step, StepView, VMConfig,
    VMConfigView,
};
use crate::models::vm::{VMInfo, VMStatus, VmView};
use crate::text::{contains, contains_text, lowercase, starts_with, str_eq, to_lowercase};
use vstd::prelude::*;

verus! {

/// The number of cores that a configuration without a `cores` entry has.
pub fn default_cores() -> (cores: u32)
    ensures
        cores == 1,
{
    1
}

/// The number of sockets that a configuration without a `sockets` entry has.
pub fn default_sockets() -> (sockets: u32)
    ensures
        sockets == 1,
{
    1
}

/// A record of the inventory is a virtual machine, and no container.
pub open spec fn is_vm(vm: VmView) -> bool {
    vm.vm_type == "qemu"@
}

/// The virtual machines among the records of the inventory, in their order.
pub open spec fn only_vms(raw: Seq<VmView>) -> Seq<VmView> {
    raw.filter(|vm: VmView| is_vm(vm))
}

/// Keeps the virtual machines among the records of the inventory.
pub fn keep_vms(raw: &Vec<VMInfo>) -> (vms: Vec<VMInfo>)
    ensures
        vms.deep_view() == only_vms(raw.deep_view()),
{
    let ghost all = raw.deep_view();
    let ghost pred = |vm: VmView| is_vm(vm);
    let mut vms: Vec<VMInfo> = Vec::new();
    let mut i: usize = 0;
    proof {
        reveal(Seq::filter);
        assert(all.take(0) =~= Seq::empty());
        assert(vms.deep_view() =~= all.take(0).filter(pred));
    }
    while i < raw.len()
        invariant
            i <= raw.len(),
            all == raw.deep_view(),
            pred == |vm: VmView| is_vm(vm),
            vms.deep_view() == all.take(i as int).filter(pred),
        decreases raw.len() - i,
    {
        let ghost before = vms.deep_view();
        proof {
            reveal(Seq::filter);
            assert(all.take(i + 1).drop_last() =~= all.take(i as int));
            assert(all.take(i + 1).last() == raw[i as int]@);
        }
        if str_eq(raw[i].vm_type.as_str(), "qemu") {
            vms.push(raw[i].clone());
            proof {
                assert(vms.deep_view() =~= before.push(raw[i as int]@));
            }
        }
        i += 1;
    }
    proof {
        assert(all.take(raw.len() as int) =~= all);
    }
    vms
}

/// A display adapter can serve a remote display exactly when its name, in
/// lowercase, contains `qxl`.
pub open spec fn has_qxl(vga: Seq<char>) -> bool {
    contains_text(lowercase(vga), "qxl"@)
}

/// Whether an already lowercased adapter name contains `qxl`.
pub fn has_qxl_marker(lowered_vga: &str) -> (yes: bool)
    ensures
        yes == contains_text(lowered_vga@, "qxl"@),
{
    contains(lowered_vga, "qxl")
}

/// Whether a display adapter can serve a remote display.
pub fn supports_spice(vga: &str) -> (yes: bool)
    ensures
        yes == has_qxl(vga@),
{
    let lowered = to_lowercase(vga);
    has_qxl_marker(lowered.as_str())
}

/// The processor count of a configuration: cores times sockets, and the
/// largest count that a record can hold where the product is larger.
pub open spec fn processors(config: VMConfigView) -> u32 {
    if config.cores * config.sockets <= u32::MAX {
        (config.cores * config.sockets) as u32
    } else {
        u32::MAX
    }
}

/// The processor count of a configuration.
pub fn count_processors(config: &VMConfig) -> (count: u32)
    ensures
        count == processors(config@),
{
    let cores: u64 = config.cores as u64;
    let sockets: u64 = config.sockets as u64;
    assert(cores * sockets <= 0xffff_ffff * 0xffff_ffff) by (nonlinear_arith)
        requires
            cores <= 0xffff_ffff,
            sockets <= 0xffff_ffff,
    ;
    let product: u64 = cores * sockets;
    if product <= u32::MAX as u64 {
        product as u32
    } else {
        u32::MAX
    }
}

/// A record after its configuration was read: the display flag is the
/// configuration's, and so is the processor count where the inventory
/// reported none.
pub open spec fn with_config(vm: VmView, config: VMConfigView) -> VmView {
    VmView {
        spice: has_qxl(config.vga),
        cpus: if vm.cpus == 0 {
            processors(config)
        } else {
            vm.cpus
        },
        ..vm
    }
}

/// Adds to a record what its configuration says.
pub fn apply_config(vm: &mut VMInfo, config: &VMConfig)
    ensures
        final(vm)@ == with_config(old(vm)@, config@),
{
    vm.spice = supports_spice(config.vga.as_str());
    if vm.cpus == 0 {
        vm.cpus = count_processors(config);
    }
}

/// The configuration in a reply, where it holds one: an answer with a success
/// status and the document.
pub open spec fn config_in(reply: ReplyView) -> Option<VMConfigView> {
    match reply {
        ReplyView::Answered(response) => if is_success(response.status) {
            match response.payload {
                PayloadView::VmConfig(config) => Some(config),
                _ => None,
            }
        } else {
            None
        },
        ReplyView::Failed(_) => None,
    }
}

/// A record after the reply to its configuration request. A machine whose
/// configuration could not be had has no display flag, whatever the inventory
/// said of it, and keeps the rest of its record: one machine's failure never
/// fails the listing.
pub open spec fn after_config(vm: VmView, reply: ReplyView) -> VmView {
    match config_in(reply) {
        Some(config) => with_config(vm, config),
        None => VmView { spice: false, ..vm },
    }
}

/// Adds to a record what the reply to its configuration request says.
pub fn apply_config_reply(vm: &mut VMInfo, reply: &Reply)
    ensures
        final(vm)@ == after_config(old(vm)@, reply@),
{
    match reply {
        Reply::Answered(response) => {
            if status_is_success(response.status) {
                match &response.payload {
                    Payload::VmConfig(config) => {
                        apply_config(vm, config);
                        return ;
                    },
                    _ => {},
                }
            }
        },
        Reply::Failed(_) => {},
    }
    vm.spice = false;
}

/// An address that can be shown for a guest: an IPv4 address outside the
/// loopback block.
pub open spec fn usable_address(address: IpAddressView) -> bool {
    address.ip_address_type == "ipv4"@ && !"127."@.is_prefix_of(address.ip_address)
}

/// The first usable address of a list.
pub open spec fn first_usable(addresses: Seq<IpAddressView>) -> Option<Seq<char>>
    decreases addresses.len(),
{
    if addresses.len() == 0 {
        None
    } else if usable_address(addresses[0]) {
        Some(addresses[0].ip_address)
    } else {
        first_usable(addresses.drop_first())
    }
}

/// The address that an interface offers: none for the loopback interface `lo`
/// and for an interface without addresses, else its first usable one.
pub open spec fn interface_address(interface: NetworkInterfaceView) -> Option<Seq<char>> {
    if interface.name == "lo"@ {
        None
    } else {
        match interface.ip_addresses {
            Some(addresses) => first_usable(addresses),
            None => None,
        }
    }
}

/// The address of a guest: what the first interface that offers one offers.
pub open spec fn guest_address(interfaces: Seq<NetworkInterfaceView>) -> Option<Seq<char>>
    decreases interfaces.len(),
{
    if interfaces.len() == 0 {
        None
    } else {
        match interface_address(interfaces[0]) {
            Some(address) => Some(address),
            None => guest_address(interfaces.drop_first()),
        }
    }
}

fn pick_usable(addresses: &Vec<IpAddress>) -> (found: Option<String>)
    ensures
        found.deep_view() == first_usable(addresses.deep_view()),
{
    let ghost all = addresses.deep_view();
    let mut i: usize = 0;
    proof {
        assert(all.skip(0) =~= all);
    }
    while i < addresses.len()
        invariant
            i <= addresses.len(),
            all == addresses.deep_view(),
            first_usable(all) == first_usable(all.skip(i as int)),
        decreases addresses.len() - i,
    {
        proof {
            assert(all.skip(i as int)[0] == addresses[i as int]@);
            assert(all.skip(i as int).drop_first() =~= all.skip(i + 1));
        }
        let address = &addresses[i];
        if str_eq(address.ip_address_type.as_str(), "ipv4") && !starts_with(
            address.ip_address.as_str(),
            "127.",
        ) {
            return Some(address.ip_address.clone());
        }
        i += 1;
    }
    None
}

/// Picks the address to show for a guest from its interfaces.
pub fn pick_guest_address(interfaces: &Vec<NetworkInterface>) -> (found: Option<String>)
    ensures
        found.deep_view() == guest_address(interfaces.deep_view()),
{
    let ghost all = interfaces.deep_view();
    let mut i: usize = 0;
    proof {
        assert(all.skip(0) =~= all);
    }
    while i < interfaces.len()
        invariant
            i <= interfaces.len(),
            all == interfaces.deep_view(),
            guest_address(all) == guest_address(all.skip(i as int)),
        decreases interfaces.len() - i,
    {
        proof {
            assert(all.skip(i as int)[0] == interfaces[i as int]@);
            assert(all.skip(i as int).drop_first() =~= all.skip(i + 1));
        }
        let interface = &interfaces[i];
        if !str_eq(interface.name.as_str(), "lo") {
            match &interface.ip_addresses {
                Some(addresses) => {
                    match pick_usable(addresses) {
                        Some(address) => {
                            return Some(address);
                        },
                        None => {},
                    }
                },
                None => {},
            }
        }
        i += 1;
    }
    None
}

/// The guest's address in a reply of the guest agent. A failed request, a
/// status that is no success, an answer without the interface list and a list
/// without a usable address all give none.
pub open spec fn address_in(reply: ReplyView) -> Option<Seq<char>> {
    match reply {
        ReplyView::Answered(response) => if is_success(response.status) {
            match response.payload {
                PayloadView::Interfaces(Some(Some(interfaces))) => guest_address(interfaces),
                _ => None,
            }
        } else {
            None
        },
        ReplyView::Failed(_) => None,
    }
}

/// Reads the guest's address from a reply of the guest agent.
pub fn get_vm_ip(reply: &Reply) -> (found: Option<String>)
    ensures
        found.deep_view() == address_in(reply@),
{
    match reply {
        Reply::Answered(response) => {
            if status_is_success(response.status) {
                match &response.payload {
                    Payload::Interfaces(Some(data)) => match &data.result {
                        Some(interfaces) => pick_guest_address(interfaces),
                        None => None,
                    },
                    _ => None,
                }
            } else {
                None
            }
        },
        Reply::Failed(_) => None,
    }
}

/// A record after the reply of its guest agent: the address is what the reply
/// holds, and nothing where it holds none.
pub open spec fn after_interfaces(vm: VmView, reply: ReplyView) -> VmView {
    VmView { ip_address: address_in(reply), ..vm }
}

/// The guest agent is asked about the machines that run: those whose status
/// text names the state `Running`, whatever its letter case.
pub open spec fn needs_address(vm: VmView) -> bool {
    vm.state() == VMStatus::Running
}

/// The request for the inventory of machines.
pub open spec fn inventory_request(host: Seq<char>, port: u16, ticket: Seq<char>) -> RequestView {
    get_with_ticket(api_url(host, port, "/cluster/resources?type=vm"@), ticket, Expect::Inventory)
}

/// The request for one machine's configuration.
pub open spec fn config_request(host: Seq<char>, port: u16, ticket: Seq<char>, vm: VmView)
    -> RequestView {
    get_with_ticket(
        api_url(host, port, vm_path(vm.node, vm.vmid, "/config"@)),
        ticket,
        Expect::VmConfig,
    )
}

/// The request for one guest's network interfaces.
pub open spec fn interfaces_request(host: Seq<char>, port: u16, ticket: Seq<char>, vm: VmView)
    -> RequestView {
    get_with_ticket(
        api_url(host, port, vm_path(vm.node, vm.vmid, "/agent/network-get-interfaces"@)),
        ticket,
        Expect::Interfaces,
    )
}

fn build_vm_request(host: &str, port: u16, ticket: &str, vm: &VMInfo, tail: &str, expects: Expect)
    -> (request: Request)
    ensures
        request@ == get_with_ticket(
            api_url(host@, port, vm_path(vm@.node, vm@.vmid, tail@)),
            ticket@,
            expects,
        ),
{
    let path = build_vm_path(vm.node.as_str(), vm.vmid, tail);
    build_get_with_ticket(build_api_url(host, port, path.as_str()), ticket, expects)
}

/// What the inventory's reply means: the virtual machines among its records,
/// or the failure. A status that is no success fails with the status and the
/// body.
pub open spec fn inventory_outcome(reply: ReplyView) -> Result<Seq<VmView>, ErrorView> {
    match reply {
        ReplyView::Failed(detail) => Err(ErrorView::Client(detail)),
        ReplyView::Answered(response) => if !is_success(response.status) {
            Err(api_failure(response))
        } else {
            match response.payload {
                PayloadView::Inventory(raw) => Ok(only_vms(raw)),
                other => Err(parse_failure(other)),
            }
        },
    }
}

/// Reads the inventory's reply.
pub fn read_inventory(reply: &Reply) -> (outcome: Result<Vec<VMInfo>, ApiError>)
    ensures
        result_view(outcome) == inventory_outcome(reply@),
{
    match reply {
        Reply::Failed(detail) => Err(ApiError::Client(detail.clone())),
        Reply::Answered(response) => {
            if !status_is_success(response.status) {
                Err(build_api_failure(response))
            } else {
                match &response.payload {
                    Payload::Inventory(raw) => Ok(keep_vms(raw)),
                    other => Err(build_parse_failure(other)),
                }
            }
        },
    }
}

/// The listing from machine `i` on, where `replies[k]` is the first reply that
/// no earlier machine has used and `done` holds the earlier machines' records.
/// Each machine uses one reply, for its configuration, and a machine that
/// runs uses a second one, for its address.
pub open spec fn enrich_from(
    host: Seq<char>,
    port: u16,
    ticket: Seq<char>,
    vms: Seq<VmView>,
    i: int,
    replies: Seq<ReplyView>,
    k: int,
    done: Seq<VmView>,
) -> StepView<Seq<VmView>>
    decreases vms.len() - i,
{
    if i < 0 || i >= vms.len() || k < 0 {
        StepView::Done(Ok(done))
    } else if k >= replies.len() {
        StepView::Send(config_request(host, port, ticket, vms[i]))
    } else {
        let vm = after_config(vms[i], replies[k]);
        if !needs_address(vm) {
            enrich_from(host, port, ticket, vms, i + 1, replies, k + 1, done.push(vm))
        } else if k + 1 >= replies.len() {
            StepView::Send(interfaces_request(host, port, ticket, vms[i]))
        } else {
            enrich_from(
                host,
                port,
                ticket,
                vms,
                i + 1,
                replies,
                k + 2,
                done.push(after_interfaces(vm, replies[k + 1])),
            )
        }
    }
}

/// Listing the machines, as a function of the replies so far: the inventory
/// first, then machine by machine.
pub open spec fn list_vms_step(
    host: Seq<char>,
    port: u16,
    ticket: Seq<char>,
    replies: Seq<ReplyView>,
) -> StepView<Seq<VmView>> {
    if replies.len() == 0 {
        StepView::Send(inventory_request(host, port, ticket))
    } else {
        match inventory_outcome(replies[0]) {
            Err(error) => StepView::Done(Err(error)),
            Ok(vms) => enrich_from(host, port, ticket, vms, 0, replies, 1, Seq::empty()),
        }
    }
}

/// Lists the virtual machines of the cluster. Records of other types are
/// dropped; each machine's record gets its display flag and, where the
/// inventory has none, its processor count from the machine's configuration,
/// and a machine whose configuration cannot be had has no display flag; the
/// record of each machine that runs gets the guest's address. Only the
/// inventory itself can fail the listing.
pub fn list_vms(host: &str, port: u16, ticket: &str, csrf: &str, replies: &Vec<Reply>) -> (step:
    Step<Vec<VMInfo>>)
    ensures
        step.deep_view() == list_vms_step(host@, port, ticket@, replies.deep_view()),
{
    if replies.len() == 0 {
        return Step::Send(
            build_get_with_ticket(
                build_api_url(host, port, "/cluster/resources?type=vm"),
                ticket,
                Expect::Inventory,
            ),
        );
    }
    let vms = match read_inventory(&replies[0]) {
        Err(error) => {
            return Step::Done(Err(error));
        },
        Ok(vms) => vms,
    };
    let ghost goal = list_vms_step(host@, port, ticket@, replies.deep_view());
    let mut done: Vec<VMInfo> = Vec::new();
    let mut i: usize = 0;
    let mut k: usize = 1;
    proof {
        assert(done.deep_view() =~= Seq::empty());
    }
    while i < vms.len()
        invariant
            i <= vms.len(),
            1 <= k <= replies.len(),
            goal == list_vms_step(host@, port, ticket@, replies.deep_view()),
            goal == enrich_from(
                host@,
                port,
                ticket@,
                vms.deep_view(),
                i as int,
                replies.deep_view(),
                k as int,
                done.deep_view(),
            ),
        decreases vms.len() - i,
    {
        if k == replies.len() {
            return Step::Send(
                build_vm_request(host, port, ticket, &vms[i], "/config", Expect::VmConfig),
            );
        }
        let ghost before = done.deep_view();
        let mut vm = vms[i].clone();
        apply_config_reply(&mut vm, &replies[k]);
        if !vm.is_running() {
            k += 1;
        } else {
            if replies.len() - k < 2 {
                return Step::Send(
                    build_vm_request(
                        host,
                        port,
                        ticket,
                        &vms[i],
                        "/agent/network-get-interfaces",
                        Expect::Interfaces,
                    ),
                );
            }
            vm.ip_address = get_vm_ip(&replies[k + 1]);
            k += 2;
        }
        done.push(vm);
        proof {
            assert(done.deep_view() =~= before.push(vm@));
        }
        i += 1;
    }
    Step::Done(Ok(done))
}

/// The four changes of power state that the client asks for.
#[derive(Debug, Clone, Copy, PartialEq, Eq, Structural)]
pub enum PowerAction {
    Start,
    Stop,
    Suspend,
    Resume,
}

impl PowerAction {
    /// The last part of the endpoint's path.
    pub open spec fn segment(self) -> Seq<char> {
        match self {
            PowerAction::Start => "/status/start"@,
            PowerAction::Stop => "/status/stop"@,
            PowerAction::Suspend => "/status/suspend"@,
            PowerAction::Resume => "/status/resume"@,
        }
    }

    /// The word that says that the change is done.
    pub open spec fn done_word(self) -> Seq<char> {
        match self {
            PowerAction::Start => "started"@,
            PowerAction::Stop => "stopped"@,
            PowerAction::Suspend => "suspended"@,
            PowerAction::Resume => "resumed"@,
        }
    }

    /// The word that says that the change is done.
    pub fn past(&self) -> (word: &'static str)
        ensures
            word@ == self.done_word(),
    {
        match self {
            PowerAction::Start => "started",
            PowerAction::Stop => "stopped",
            PowerAction::Suspend => "suspended",
            PowerAction::Resume => "resumed",
        }
    }

    /// The last part of the endpoint's path.
    pub fn path(&self) -> (tail: &'static str)
        ensures
            tail@ == self.segment(),
    {
        match self {
            PowerAction::Start => "/status/start",
            PowerAction::Stop => "/status/stop",
            PowerAction::Suspend => "/status/suspend",
            PowerAction::Resume => "/status/resume",
        }
    }
}

/// The request that changes a machine's power state: a post without body to
/// the action's endpoint, with the token for changing requests and the ticket.
pub open spec fn power_request(
    action: PowerAction,
    host: Seq<char>,
    port: u16,
    ticket: Seq<char>,
    csrf: Seq<char>,
    node: Seq<char>,
    vmid: u32,
) -> RequestView {
    RequestView {
        method: Method::Post,
        url: api_url(host, port, vm_path(node, vmid, action.segment())),
        headers: seq![csrf_header(csrf), cookie_header(ticket)],
        form: None,
        expects: Expect::Task,
    }
}

/// What the reply to a power request means: the identifier of the task that
/// the server started, or the failure. A status that is no success fails with
/// the status and the body, verbatim.
pub open spec fn task_outcome(reply: ReplyView) -> Result<Seq<char>, ErrorView> {
    match reply {
        ReplyView::Failed(detail) => Err(ErrorView::Client(detail)),
        ReplyView::Answered(response) => if !is_success(response.status) {
            Err(api_failure(response))
        } else {
            match response.payload {
                PayloadView::Task(upid) => Ok(upid),
                other => Err(parse_failure(other)),
            }
        },
    }
}

/// Reads the reply to a power request.
pub fn read_task(reply: &Reply) -> (outcome: Result<String, ApiError>)
    ensures
        result_view(outcome) == task_outcome(reply@),
{
    match reply {
        Reply::Failed(detail) => Err(ApiError::Client(detail.clone())),
        Reply::Answered(response) => {
            if !status_is_success(response.status) {
                Err(build_api_failure(response))
            } else {
                match &response.payload {
                    Payload::Task(upid) => Ok(upid.clone()),
                    other => Err(build_parse_failure(other)),
                }
            }
        },
    }
}

/// A change of power state, as a function of the replies so far: one request,
/// then what its reply means.
pub open spec fn power_step(
    action: PowerAction,
    host: Seq<char>,
    port: u16,
    ticket: Seq<char>,
    csrf: Seq<char>,
    node: Seq<char>,
    vmid: u32,
    replies: Seq<ReplyView>,
) -> StepView<Seq<char>> {
    if replies.len() == 0 {
        StepView::Send(power_request(action, host, port, ticket, csrf, node, vmid))
    } else {
        StepView::Done(task_outcome(replies[0]))
    }
}

/// Changes a machine's power state and gives the task's identifier.
pub fn change_power(
    action: PowerAction,
    host: &str,
    port: u16,
    ticket: &str,
    csrf: &str,
    node: &str,
    vmid: u32,
    replies: &Vec<Reply>,
) -> (step: Step<String>)
    ensures
        step.deep_view() == power_step(
            action,
            host@,
            port,
            ticket@,
            csrf@,
            node@,
            vmid,
            replies.deep_view(),
        ),
{
    if replies.len() == 0 {
        let path = build_vm_path(node, vmid, action.path());
        let mut headers: Vec<(String, String)> = Vec::new();
        headers.push(build_csrf_header(csrf));
        headers.push(build_cookie_header(ticket));
        let request = Request {
            method: Method::Post,
            url: build_api_url(host, port, path.as_str()),
            headers,
            form: None,
            expects: Expect::Task,
        };
        proof {
            assert(request.headers.deep_view() =~= seq![csrf_header(csrf@), cookie_header(ticket@)]);
        }
        Step::Send(request)
    } else {
        Step::Done(read_task(&replies[0]))
    }
}

/// Starts a machine.
pub fn start_vm(
    host: &str,
    port: u16,
    ticket: &str,
    csrf: &str,
    node: &str,
    vmid: u32,
    replies: &Vec<Reply>,
) -> (step: Step<String>)
    ensures
        step.deep_view() == power_step(
            PowerAction::Start,
            host@,
            port,
            ticket@,
            csrf@,
            node@,
            vmid,
            replies.deep_view(),
        ),
{
    change_power(PowerAction::Start, host, port, ticket, csrf, node, vmid, replies)
}

/// Stops a machine.
pub fn stop_vm(
    host: &str,
    port: u16,
    ticket: &str,
    csrf: &str,
    node: &str,
    vmid: u32,
    replies: &Vec<Reply>,
) -> (step: Step<String>)
    ensures
        step.deep_view() == power_step(
            PowerAction::Stop,
            host@,
            port,
            ticket@,
            csrf@,
            node@,
            vmid,
            replies.deep_view(),
        ),
{
    change_power(PowerAction::Stop, host, port, ticket, csrf, node, vmid, replies)
}

/// Suspends a machine.
pub fn suspend_vm(
    host: &str,
    port: u16,
    ticket: &str,
    csrf: &str,
    node: &str,
    vmid: u32,
    replies: &Vec<Reply>,
) -> (step: Step<String>)
    ensures
        step.deep_view() == power_step(
            PowerAction::Suspend,
            host@,
            port,
            ticket@,
            csrf@,
            node@,
            vmid,
            replies.deep_view(),
        ),
{
    change_power(PowerAction::Suspend, host, port, ticket, csrf, node, vmid, replies)
}

/// Resumes a suspended machine.
pub fn resume_vm(
    host: &str,
    port: u16,
    ticket: &str,
    csrf: &str,
    node: &str,
    vmid: u32,
    replies: &Vec<Reply>,
) -> (step: Step<String>)
    ensures
        step.deep_view() == power_step(
            PowerAction::Resume,
            host@,
            port,
            ticket@,
            csrf@,
            node@,
            vmid,
            replies.deep_view(),
        ),
{
    change_power(PowerAction::Resume, host, port, ticket, csrf, node, vmid, replies)
}

/// Two records are of the same machine: they differ at most in what the
/// client adds, the display flag, the processor count and the address.
pub open spec fn same_machine(a: VmView, b: VmView) -> bool {
    a == (VmView { spice: a.spice, cpus: a.cpus, ip_address: a.ip_address, ..b })
}

/// `listed` is what a listing makes of the inventory's record `found`: the
/// same machine, with the inventory's processor count where the inventory has
/// one, and with the inventory's address where the machine does not run.
pub open spec fn listed_from(listed: VmView, found: VmView) -> bool {
    &&& same_machine(listed, found)
    &&& found.cpus != 0 ==> listed.cpus == found.cpus
    &&& !needs_address(found) ==> listed.ip_address == found.ip_address
}

proof fn lemma_enrich_keeps_machines(
    host: Seq<char>,
    port: u16,
    ticket: Seq<char>,
    vms: Seq<VmView>,
    i: int,
    replies: Seq<ReplyView>,
    k: int,
    done: Seq<VmView>,
    out: Seq<VmView>,
)
    requires
        0 <= i <= vms.len(),
        0 <= k,
        done.len() == i,
        forall|j: int| 0 <= j < i ==> listed_from(#[trigger] done[j], vms[j]),
        enrich_from(host, port, ticket, vms, i, replies, k, done) == StepView::<
            Seq<VmView>,
        >::Done(Ok(out)),
    ensures
        out.len() == vms.len(),
        forall|j: int| 0 <= j < vms.len() ==> listed_from(#[trigger] out[j], vms[j]),
    decreases vms.len() - i,
{
    if i < vms.len() && k < replies.len() {
        let vm = after_config(vms[i], replies[k]);
        if !needs_address(vm) {
            lemma_enrich_keeps_machines(
                host,
                port,
                ticket,
                vms,
                i + 1,
                replies,
                k + 1,
                done.push(vm),
                out,
            );
        } else if k + 1 < replies.len() {
            lemma_enrich_keeps_machines(
                host,
                port,
                ticket,
                vms,
                i + 1,
                replies,
                k + 2,
                done.push(after_interfaces(vm, replies[k + 1])),
                out,
            );
        }
    }
}

/// Whatever the inventory holds and whatever the later replies are, a listing
/// that ends well holds virtual machines only: one record for each record of
/// the inventory whose type is the virtual machines', in the inventory's
/// order, and each of them that record but for what the client adds. So the
/// listing is never longer than the inventory has such records. A processor
/// count that the inventory reports is never replaced, and the address of a
/// machine that does not run is never asked for.
pub proof fn lemma_listing_holds_vms(
    host: Seq<char>,
    port: u16,
    ticket: Seq<char>,
    replies: Seq<ReplyView>,
    raw: Seq<VmView>,
    vms: Seq<VmView>,
)
    requires
        replies.len() > 0,
        replies[0] matches ReplyView::Answered(response) && response.payload
            == PayloadView::Inventory(raw),
        list_vms_step(host, port, ticket, replies) == StepView::<Seq<VmView>>::Done(Ok(vms)),
    ensures
        forall|j: int| 0 <= j < vms.len() ==> is_vm(#[trigger] vms[j]),
        vms.len() == only_vms(raw).len(),
        vms.len() <= raw.len(),
        forall|j: int| 0 <= j < vms.len() ==> listed_from(#[trigger] vms[j], only_vms(raw)[j]),
{
    let kept = only_vms(raw);
    let pred = |vm: VmView| is_vm(vm);
    raw.lemma_filter_len(pred);
    lemma_enrich_keeps_machines(host, port, ticket, kept, 0, replies, 1, Seq::empty(), vms);
    assert forall|j: int| 0 <= j < vms.len() implies is_vm(#[trigger] vms[j]) by {
        raw.lemma_filter_pred(pred, j);
        assert(listed_from(vms[j], kept[j]));
    }
}

/// What a configuration adds to a record. The display flag is set exactly
/// when the adapter's name, in lowercase, contains `qxl`. A record without a
/// processor count gets cores times sockets, as far as a record can hold the
/// product; a record with a count keeps it. Nothing else changes.
pub proof fn lemma_config_adds(vm: VmView, config: VMConfigView)
    ensures
        with_config(vm, config).spice <==> contains_text(lowercase(config.vga), "qxl"@),
        vm.cpus == 0 && config.cores * config.sockets <= u32::MAX ==> with_config(vm, config).cpus
            == config.cores * config.sockets,
        vm.cpus != 0 ==> with_config(vm, config).cpus == vm.cpus,
        same_machine(with_config(vm, config), vm),
        with_config(vm, config).ip_address == vm.ip_address,
{
}

/// What the reply to a configuration request adds to a record, whatever the
/// reply. The display flag is set exactly when the reply holds a
/// configuration whose adapter name, in lowercase, contains `qxl`: a machine
/// whose configuration could not be had, for want of an answer, of a success
/// status or of the document, has no display flag and keeps the inventory's
/// processor count. The status, and with it the state, is never touched.
pub proof fn lemma_config_reply_adds(vm: VmView, reply: ReplyView)
    ensures
        config_in(reply) is Some <==> (reply matches ReplyView::Answered(response) && is_success(
            response.status,
        ) && response.payload is VmConfig),
        after_config(vm, reply).spice <==> (config_in(reply) matches Some(config) && contains_text(
            lowercase(config.vga),
            "qxl"@,
        )),
        config_in(reply) is None ==> after_config(vm, reply) == (VmView { spice: false, ..vm }),
        config_in(reply) matches Some(config) ==> after_config(vm, reply) == with_config(
            vm,
            config,
        ),
        vm.cpus != 0 ==> after_config(vm, reply).cpus == vm.cpus,
        listed_from(after_config(vm, reply), vm),
        after_config(vm, reply).state() == vm.state(),
        needs_address(after_config(vm, reply)) == needs_address(vm),
{
}

/// The number of machines that run, from machine `i` on.
pub open spec fn running_from(vms: Seq<VmView>, i: int) -> nat
    decreases vms.len() - i,
{
    if i < 0 || i >= vms.len() {
        0
    } else if needs_address(vms[i]) {
        1 + running_from(vms, i + 1)
    } else {
        running_from(vms, i + 1)
    }
}

proof fn lemma_enrich_counts(
    host: Seq<char>,
    port: u16,
    ticket: Seq<char>,
    vms: Seq<VmView>,
    i: int,
    replies: Seq<ReplyView>,
    k: int,
    done: Seq<VmView>,
)
    requires
        0 <= i <= vms.len(),
        0 <= k <= replies.len(),
    ensures
        replies.len() - k >= (vms.len() - i) + running_from(vms, i) ==> enrich_from(
            host,
            port,
            ticket,
            vms,
            i,
            replies,
            k,
            done,
        ) is Done,
        replies.len() - k < (vms.len() - i) + running_from(vms, i) ==> enrich_from(
            host,
            port,
            ticket,
            vms,
            i,
            replies,
            k,
            done,
        ) is Send,
    decreases vms.len() - i,
{
    if i < vms.len() && k < replies.len() {
        let vm = after_config(vms[i], replies[k]);
        assert(needs_address(vm) == needs_address(vms[i]));
        if !needs_address(vm) {
            lemma_enrich_counts(host, port, ticket, vms, i + 1, replies, k + 1, done.push(vm));
        } else if k + 1 < replies.len() {
            lemma_enrich_counts(
                host,
                port,
                ticket,
                vms,
                i + 1,
                replies,
                k + 2,
                done.push(after_interfaces(vm, replies[k + 1])),
            );
        }
    }
}

/// A listing of an inventory with `n` virtual machines, `r` of which run,
/// takes exactly `1 + n + r` replies: one for the inventory, one for each
/// machine's configuration, and one more for each running machine's address.
/// With fewer it asks on, and with that many it is over. So the guest agent is
/// asked about the machines that run, and about no other.
pub proof fn lemma_listing_request_count(
    host: Seq<char>,
    port: u16,
    ticket: Seq<char>,
    replies: Seq<ReplyView>,
    vms: Seq<VmView>,
)
    requires
        replies.len() >= 1,
        inventory_outcome(replies[0]) == Ok::<Seq<VmView>, ErrorView>(vms),
    ensures
        replies.len() >= 1 + vms.len() + running_from(vms, 0) ==> list_vms_step(
            host,
            port,
            ticket,
            replies,
        ) is Done,
        replies.len() < 1 + vms.len() + running_from(vms, 0) ==> list_vms_step(
            host,
            port,
            ticket,
            replies,
        ) is Send,
        running_from(vms, 0) <= vms.len(),
{
    lemma_enrich_counts(host, port, ticket, vms, 0, replies, 1, Seq::empty());
    lemma_running_is_bounded(vms, 0);
}

proof fn lemma_running_is_bounded(vms: Seq<VmView>, i: int)
    requires
        0 <= i <= vms.len(),
    ensures
        running_from(vms, i) <= vms.len() - i,
    decreases vms.len() - i,
{
    if i < vms.len() {
        lemma_running_is_bounded(vms, i + 1);
    }
}

/// Address `j` of interface `i` can be shown: the interface is not `lo`, and
/// the address is an IPv4 address that does not begin with `127.`.
pub open spec fn offers(interfaces: Seq<NetworkInterfaceView>, i: int, j: int) -> bool {
    &&& 0 <= i < interfaces.len()
    &&& interfaces[i].name != "lo"@
    &&& interfaces[i].ip_addresses is Some
    &&& 0 <= j < interfaces[i].ip_addresses->0.len()
    &&& usable_address(interfaces[i].ip_addresses->0[j])
}

proof fn lemma_first_usable(addresses: Seq<IpAddressView>) -> (j: int)
    ensures
        first_usable(addresses) is Some ==> 0 <= j < addresses.len() && usable_address(
            addresses[j],
        ) && first_usable(addresses) == Some(addresses[j].ip_address),
        first_usable(addresses) is Some ==> forall|m: int|
            0 <= m < j ==> !usable_address(#[trigger] addresses[m]),
        first_usable(addresses) is None ==> forall|m: int|
            0 <= m < addresses.len() ==> !usable_address(#[trigger] addresses[m]),
    decreases addresses.len(),
{
    if addresses.len() == 0 {
        0
    } else if usable_address(addresses[0]) {
        0
    } else {
        let rest = addresses.drop_first();
        let r = lemma_first_usable(rest);
        assert forall|m: int| 0 <= m < addresses.len() && (first_usable(addresses) is None || m < r
            + 1) implies !usable_address(#[trigger] addresses[m]) by {
            if m > 0 {
                assert(addresses[m] == rest[m - 1]);
            }
        }
        r + 1
    }
}

/// The address shown for a guest is the first one that can be shown, going
/// through the interfaces in order and through each one's addresses in order;
/// none is shown exactly when none can be. So no address of the interface `lo`
/// and no address that begins with `127.` is ever shown.
pub proof fn lemma_guest_address(interfaces: Seq<NetworkInterfaceView>) -> (at: (int, int))
    ensures
        guest_address(interfaces) is Some ==> offers(interfaces, at.0, at.1) && guest_address(
            interfaces,
        ) == Some(interfaces[at.0].ip_addresses->0[at.1].ip_address),
        guest_address(interfaces) is Some ==> forall|i: int, j: int| #[trigger]
            offers(interfaces, i, j) ==> at.0 < i || (at.0 == i && at.1 <= j),
        guest_address(interfaces) is None ==> forall|i: int, j: int|
            !#[trigger] offers(interfaces, i, j),
    decreases interfaces.len(),
{
    if interfaces.len() == 0 {
        (0, 0)
    } else {
        let first = interfaces[0];
        let rest = interfaces.drop_first();
        if interface_address(first) is Some {
            let j = lemma_first_usable(first.ip_addresses->0);
            (0, j)
        } else {
            if first.name != "lo"@ && first.ip_addresses is Some {
                let _ = lemma_first_usable(first.ip_addresses->0);
            }
            let r = lemma_guest_address(rest);
            assert forall|i: int, j: int| #[trigger] offers(interfaces, i, j) implies i > 0
                && offers(rest, i - 1, j) by {
                if i > 0 {
                    assert(interfaces[i] == rest[i - 1]);
                }
            }
            if guest_address(interfaces) is Some {
                assert(interfaces[r.0 + 1] == rest[r.0]);
                assert forall|i: int, j: int| #[trigger] offers(interfaces, i, j) implies r.0 + 1
                    < i || (r.0 + 1 == i && r.1 <= j) by {
                    assert(offers(rest, i - 1, j));
                }
            }
            (r.0 + 1, r.1)
        }
    }
}

proof fn lemma_enrich_ends(
    host: Seq<char>,
    port: u16,
    ticket: Seq<char>,
    vms: Seq<VmView>,
    i: int,
    replies: Seq<ReplyView>,
    k: int,
    done: Seq<VmView>,
)
    requires
        0 <= i <= vms.len(),
        0 <= k,
        replies.len() - k >= 2 * (vms.len() - i),
    ensures
        enrich_from(host, port, ticket, vms, i, replies, k, done) is Done,
    decreases vms.len() - i,
{
    if i < vms.len() {
        let vm = after_config(vms[i], replies[k]);
        if !needs_address(vm) {
            lemma_enrich_ends(host, port, ticket, vms, i + 1, replies, k + 1, done.push(vm));
        } else {
            lemma_enrich_ends(
                host,
                port,
                ticket,
                vms,
                i + 1,
                replies,
                k + 2,
                done.push(after_interfaces(vm, replies[k + 1])),
            );
        }
    }
}

/// A listing is over after the inventory's reply and at most two more replies
/// for each virtual machine of the inventory: it never asks for more.
pub proof fn lemma_listing_ends(
    host: Seq<char>,
    port: u16,
    ticket: Seq<char>,
    replies: Seq<ReplyView>,
)
    requires
        replies.len() >= 1,
        inventory_outcome(replies[0]) matches Ok(vms) ==> replies.len() >= 1 + 2 * vms.len(),
    ensures
        list_vms_step(host, port, ticket, replies) is Done,
{
    match inventory_outcome(replies[0]) {
        Ok(vms) => {
            lemma_enrich_ends(host, port, ticket, vms, 0, replies, 1, Seq::empty());
        },
        Err(_) => {},
    }
}

proof fn lemma_enrich_done_is_final(
    host: Seq<char>,
    port: u16,
    ticket: Seq<char>,
    vms: Seq<VmView>,
    i: int,
    replies: Seq<ReplyView>,
    k: int,
    done: Seq<VmView>,
    more: Seq<ReplyView>,
)
    requires
        0 <= i,
        0 <= k,
        enrich_from(host, port, ticket, vms, i, replies, k, done) is Done,
    ensures
        enrich_from(host, port, ticket, vms, i, replies + more, k, done) == enrich_from(
            host,
            port,
            ticket,
            vms,
            i,
            replies,
            k,
            done,
        ),
    decreases vms.len() - i,
{
    let longer = replies + more;
    if i < vms.len() {
        assert(k < replies.len());
        assert(longer[k] == replies[k]);
        let vm = after_config(vms[i], replies[k]);
        if !needs_address(vm) {
            lemma_enrich_done_is_final(
                host,
                port,
                ticket,
                vms,
                i + 1,
                replies,
                k + 1,
                done.push(vm),
                more,
            );
        } else {
            assert(k + 1 < replies.len());
            assert(longer[k + 1] == replies[k + 1]);
            lemma_enrich_done_is_final(
                host,
                port,
                ticket,
                vms,
                i + 1,
                replies,
                k + 2,
                done.push(after_interfaces(vm, replies[k + 1])),
                more,
            );
        }
    }
}

/// The result of a listing or of a change of power state, once there, stays:
/// replies that come after it change nothing.
pub proof fn lemma_vm_results_are_final(
    action: PowerAction,
    host: Seq<char>,
    port: u16,
    ticket: Seq<char>,
    csrf: Seq<char>,
    node: Seq<char>,
    vmid: u32,
    replies: Seq<ReplyView>,
    more: Seq<ReplyView>,
)
    ensures
        list_vms_step(host, port, ticket, replies) is Done ==> list_vms_step(
            host,
            port,
            ticket,
            replies + more,
        ) == list_vms_step(host, port, ticket, replies),
        power_step(action, host, port, ticket, csrf, node, vmid, replies) is Done ==> power_step(
            action,
            host,
            port,
            ticket,
            csrf,
            node,
            vmid,
            replies + more,
        ) == power_step(action, host, port, ticket, csrf, node, vmid, replies),
        replies.len() >= 1 ==> power_step(action, host, port, ticket, csrf, node, vmid, replies)
            is Done,
{
    let longer = replies + more;
    if replies.len() > 0 {
        assert(longer[0] == replies[0]);
        match inventory_outcome(replies[0]) {
            Ok(vms) => {
                if list_vms_step(host, port, ticket, replies) is Done {
                    lemma_enrich_done_is_final(
                        host,
                        port,
                        ticket,
                        vms,
                        0,
                        replies,
                        1,
                        Seq::empty(),
                        more,
                    );
                }
            },
            Err(_) => {},
        }
    }
}

} // verus!
