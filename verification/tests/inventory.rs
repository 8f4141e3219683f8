use pve_launcher::api::http::{
    Expect, IpAddress, Method, NetworkData, NetworkInterface, Payload, Reply, Request, Response,
    Step, VMConfig,
};
use pve_launcher::api::vms::{
    apply_config, apply_config_reply, count_processors, default_cores, default_sockets, get_vm_ip, has_qxl_marker,
    keep_vms, list_vms, pick_guest_address, supports_spice,
};
use pve_launcher::api::ApiError;
use pve_launcher::models::VMInfo;

fn record(vmid: u32, vm_type: &str, status: &str, cpus: u32) -> VMInfo {
    VMInfo {
        vmid,
        name: format!("vm{}", vmid),
        status: status.to_string(),
        node: "pve1".to_string(),
        vm_type: vm_type.to_string(),
        uptime: 12,
        cpus,
        maxmem: 2048,
        mem: 1024,
        maxdisk: 100,
        disk: 10,
        tags: "a;b".to_string(),
        spice: false,
        ip_address: None,
    }
}

fn answered(status: u16, body: &str, payload: Payload) -> Reply {
    Reply::Answered(Response { status, body: body.to_string(), payload })
}

fn config(vga: &str, cores: u32, sockets: u32) -> VMConfig {
    VMConfig { vga: vga.to_string(), cores, sockets }
}

fn config_reply(vga: &str, cores: u32, sockets: u32) -> Reply {
    answered(200, "", Payload::VmConfig(config(vga, cores, sockets)))
}

fn address(ip: &str, kind: &str) -> IpAddress {
    IpAddress { ip_address: ip.to_string(), ip_address_type: kind.to_string() }
}

fn interface(name: &str, addresses: Option<Vec<IpAddress>>) -> NetworkInterface {
    NetworkInterface { name: name.to_string(), ip_addresses: addresses }
}

fn interfaces_reply(interfaces: Vec<NetworkInterface>) -> Reply {
    answered(200, "", Payload::Interfaces(Some(NetworkData { result: Some(interfaces) })))
}

fn get(url: &str, expects: Expect) -> Request {
    Request {
        method: Method::Get,
        url: url.to_string(),
        headers: vec![("Cookie".to_string(), "PVEAuthCookie=T".to_string())],
        form: None,
        expects,
    }
}

fn inventory(records: Vec<VMInfo>) -> Reply {
    answered(200, "", Payload::Inventory(records))
}

#[test]
fn configuration_defaults() {
    assert_eq!(default_cores(), 1);
    assert_eq!(default_sockets(), 1);
}

#[test]
fn listing_first_asks_for_the_inventory() {
    assert_eq!(
        list_vms("pve", 8006, "T", "C", &vec![]),
        Step::Send(get("https://pve:8006/api2/json/cluster/resources?type=vm", Expect::Inventory))
    );
}

#[test]
fn a_refused_inventory_fails_with_status_and_body() {
    let reply = answered(500, "{\"data\":null,\"message\":\"boom\"}", Payload::Text);
    assert_eq!(
        list_vms("pve", 8006, "T", "C", &vec![reply]),
        Step::Done(Err(ApiError::Api {
            status: 500,
            message: "{\"data\":null,\"message\":\"boom\"}".to_string(),
        }))
    );
}

#[test]
fn an_unanswered_or_unreadable_inventory_fails() {
    assert_eq!(
        list_vms("pve", 8006, "T", "C", &vec![Reply::Failed("refused".to_string())]),
        Step::Done(Err(ApiError::Client("refused".to_string())))
    );
    let reply = answered(200, "x", Payload::Malformed("expected value at line 1".to_string()));
    assert_eq!(
        list_vms("pve", 8006, "T", "C", &vec![reply]),
        Step::Done(Err(ApiError::Parse("expected value at line 1".to_string())))
    );
}

#[test]
fn only_virtual_machines_are_kept() {
    let raw = vec![
        record(100, "qemu", "stopped", 2),
        record(200, "lxc", "running", 1),
        record(101, "qemu", "stopped", 4),
        record(300, "storage", "available", 0),
        record(102, "QEMU", "stopped", 1),
        record(103, "", "stopped", 1),
    ];
    let kept = keep_vms(&raw);
    assert_eq!(kept, vec![record(100, "qemu", "stopped", 2), record(101, "qemu", "stopped", 4)]);
    assert_eq!(keep_vms(&vec![]), vec![]);
}

#[test]
fn an_empty_inventory_lists_nothing() {
    assert_eq!(list_vms("pve", 8006, "T", "C", &vec![inventory(vec![])]), Step::Done(Ok(vec![])));
    let only_containers = inventory(vec![record(200, "lxc", "running", 1)]);
    assert_eq!(list_vms("pve", 8006, "T", "C", &vec![only_containers]), Step::Done(Ok(vec![])));
}

#[test]
fn each_machine_is_asked_for_its_configuration() {
    let replies =
        vec![inventory(vec![record(200, "lxc", "running", 1), record(100, "qemu", "stopped", 0)])];
    assert_eq!(
        list_vms("pve", 8006, "T", "C", &replies),
        Step::Send(get("https://pve:8006/api2/json/nodes/pve1/qemu/100/config", Expect::VmConfig))
    );
}

#[test]
fn a_stopped_machine_takes_one_reply() {
    let replies = vec![
        inventory(vec![record(100, "qemu", "stopped", 0), record(101, "qemu", "stopped", 0)]),
        config_reply("qxl", 2, 2),
    ];
    assert_eq!(
        list_vms("pve", 8006, "T", "C", &replies),
        Step::Send(get("https://pve:8006/api2/json/nodes/pve1/qemu/101/config", Expect::VmConfig))
    );
}

#[test]
fn a_running_machine_is_asked_for_its_address() {
    let replies = vec![inventory(vec![record(100, "qemu", "running", 2)]), config_reply("std", 1, 1)];
    assert_eq!(
        list_vms("pve", 8006, "T", "C", &replies),
        Step::Send(get(
            "https://pve:8006/api2/json/nodes/pve1/qemu/100/agent/network-get-interfaces",
            Expect::Interfaces
        ))
    );
}

#[test]
fn a_listing_is_complete_after_one_or_two_replies_for_each_machine() {
    let replies = vec![
        inventory(vec![
            record(100, "qemu", "running", 0),
            record(200, "lxc", "running", 1),
            record(101, "qemu", "stopped", 0),
            record(102, "qemu", "paused", 8),
        ]),
        config_reply("qxl", 4, 2),
        interfaces_reply(vec![
            interface("lo", Some(vec![address("127.0.0.1", "ipv4")])),
            interface("eth0", Some(vec![address("10.0.0.5", "ipv4")])),
        ]),
        config_reply("std", 2, 1),
        config_reply("virtio", 16, 2),
    ];
    let mut first = record(100, "qemu", "running", 8);
    first.spice = true;
    first.ip_address = Some("10.0.0.5".to_string());
    let second = record(101, "qemu", "stopped", 2);
    let third = record(102, "qemu", "paused", 8);
    assert_eq!(
        list_vms("pve", 8006, "T", "C", &replies),
        Step::Done(Ok(vec![first, second, third]))
    );
}

#[test]
fn one_machine_s_failure_does_not_fail_the_listing() {
    let replies = vec![
        inventory(vec![record(100, "qemu", "running", 0), record(101, "qemu", "stopped", 0)]),
        answered(500, "no config", Payload::Text),
        Reply::Failed("agent not running".to_string()),
        Reply::Failed("timed out".to_string()),
    ];
    assert_eq!(
        list_vms("pve", 8006, "T", "C", &replies),
        Step::Done(Ok(vec![record(100, "qemu", "running", 0), record(101, "qemu", "stopped", 0)]))
    );
}

#[test]
fn an_unreadable_configuration_leaves_the_rest_of_the_record() {
    let replies = vec![
        inventory(vec![record(100, "qemu", "stopped", 0)]),
        answered(200, "?", Payload::Malformed("bad".to_string())),
    ];
    assert_eq!(
        list_vms("pve", 8006, "T", "C", &replies),
        Step::Done(Ok(vec![record(100, "qemu", "stopped", 0)]))
    );
}

#[test]
fn a_machine_without_configuration_has_no_display_flag() {
    let flagged = |vmid: u32, cpus: u32| {
        let mut vm = record(vmid, "qemu", "stopped", cpus);
        vm.spice = true;
        vm
    };
    let failures = [
        Reply::Failed("timed out".to_string()),
        answered(500, "no config", Payload::VmConfig(config("qxl", 4, 2))),
        answered(200, "?", Payload::Malformed("bad".to_string())),
        answered(200, "text", Payload::Text),
    ];
    for failure in failures {
        let replies = vec![
            inventory(vec![flagged(100, 0), flagged(101, 3), flagged(102, 0)]),
            config_reply("qxl", 4, 2),
            failure,
            config_reply("std", 2, 2),
        ];
        let mut first = record(100, "qemu", "stopped", 8);
        first.spice = true;
        let second = record(101, "qemu", "stopped", 3);
        let third = record(102, "qemu", "stopped", 4);
        assert_eq!(
            list_vms("pve", 8006, "T", "C", &replies),
            Step::Done(Ok(vec![first, second, third]))
        );
    }
}

#[test]
fn a_failed_configuration_reply_clears_only_the_flag() {
    let mut vm = record(100, "qemu", "running", 0);
    vm.spice = true;
    vm.ip_address = Some("10.0.0.5".to_string());
    apply_config_reply(&mut vm, &Reply::Failed("refused".to_string()));
    let mut expected = record(100, "qemu", "running", 0);
    expected.ip_address = Some("10.0.0.5".to_string());
    assert_eq!(vm, expected);

    let mut vm = record(100, "qemu", "running", 0);
    apply_config_reply(&mut vm, &config_reply("QXL", 2, 3));
    let mut expected = record(100, "qemu", "running", 6);
    expected.spice = true;
    assert_eq!(vm, expected);
}

#[test]
fn a_failed_address_lookup_clears_the_address() {
    let mut running = record(100, "qemu", "running", 1);
    running.ip_address = Some("stale".to_string());
    let replies = vec![
        inventory(vec![running]),
        config_reply("std", 1, 1),
        answered(500, "QEMU guest agent is not running", Payload::Text),
    ];
    assert_eq!(
        list_vms("pve", 8006, "T", "C", &replies),
        Step::Done(Ok(vec![record(100, "qemu", "running", 1)]))
    );
}

#[test]
fn every_running_machine_is_asked_for_its_address() {
    for status in ["running", "Running", "RUNNING", "rUnNiNg"] {
        let replies =
            vec![inventory(vec![record(100, "qemu", status, 1)]), config_reply("std", 1, 1)];
        assert_eq!(
            list_vms("pve", 8006, "T", "C", &replies),
            Step::Send(get(
                "https://pve:8006/api2/json/nodes/pve1/qemu/100/agent/network-get-interfaces",
                Expect::Interfaces
            ))
        );
        let replies = vec![
            inventory(vec![record(100, "qemu", status, 1)]),
            config_reply("std", 1, 1),
            interfaces_reply(vec![interface("eth0", Some(vec![address("10.0.0.5", "ipv4")]))]),
        ];
        let mut expected = record(100, "qemu", status, 1);
        expected.ip_address = Some("10.0.0.5".to_string());
        assert_eq!(list_vms("pve", 8006, "T", "C", &replies), Step::Done(Ok(vec![expected])));
    }
}

#[test]
fn a_machine_that_does_not_run_is_not_asked_for_its_address() {
    for status in ["paused", "Paused", "stopped", "", "suspended", "running "] {
        let replies =
            vec![inventory(vec![record(100, "qemu", status, 1)]), config_reply("std", 1, 1)];
        assert_eq!(
            list_vms("pve", 8006, "T", "C", &replies),
            Step::Done(Ok(vec![record(100, "qemu", status, 1)]))
        );
    }
}

#[test]
fn a_listing_takes_one_request_and_one_or_two_for_each_machine() {
    let machines = vec![
        record(100, "qemu", "Running", 1),
        record(200, "lxc", "running", 1),
        record(101, "qemu", "stopped", 1),
        record(102, "qemu", "running", 1),
        record(103, "qemu", "paused", 1),
    ];
    let mut replies: Vec<Reply> = Vec::new();
    let mut asked_for_address: Vec<String> = Vec::new();
    loop {
        match list_vms("pve", 8006, "T", "C", &replies) {
            Step::Send(request) => {
                let reply = match request.expects {
                    Expect::Inventory => inventory(machines.clone()),
                    Expect::VmConfig => config_reply("qxl", 1, 1),
                    _ => {
                        asked_for_address.push(request.url.clone());
                        interfaces_reply(vec![])
                    }
                };
                replies.push(reply);
            }
            Step::Done(outcome) => {
                assert_eq!(outcome.map(|vms| vms.len()), Ok(4));
                break;
            }
        }
    }
    assert_eq!(replies.len(), 1 + 4 + 2);
    assert_eq!(
        asked_for_address,
        vec![
            "https://pve:8006/api2/json/nodes/pve1/qemu/100/agent/network-get-interfaces"
                .to_string(),
            "https://pve:8006/api2/json/nodes/pve1/qemu/102/agent/network-get-interfaces"
                .to_string(),
        ]
    );
}

#[test]
fn display_flag_follows_the_adapter() {
    assert!(!supports_spice("std"));
    assert!(supports_spice("qxl-vga"));
    assert!(supports_spice("QXL"));
    assert!(supports_spice("qxl,memory=32"));
    assert!(supports_spice("vga=Qxl2"));
    assert!(!supports_spice(""));
    assert!(!supports_spice("virtio"));
    assert!(!supports_spice("q-x-l"));
    assert!(has_qxl_marker("qxl"));
    assert!(!has_qxl_marker("QXL"));
}

#[test]
fn processor_count_is_cores_times_sockets() {
    assert_eq!(count_processors(&config("std", 4, 2)), 8);
    assert_eq!(count_processors(&config("std", 1, 1)), 1);
    assert_eq!(count_processors(&config("std", 0, 7)), 0);
    assert_eq!(count_processors(&config("std", 65535, 65537)), 4294967295);
    assert_eq!(count_processors(&config("std", 65536, 65536)), u32::MAX);
    assert_eq!(count_processors(&config("std", u32::MAX, u32::MAX)), u32::MAX);
}

#[test]
fn processor_count_is_filled_in_only_where_missing() {
    let mut missing = record(100, "qemu", "stopped", 0);
    apply_config(&mut missing, &config("qxl", 4, 2));
    let mut expected = record(100, "qemu", "stopped", 8);
    expected.spice = true;
    assert_eq!(missing, expected);

    let mut reported = record(100, "qemu", "running", 3);
    reported.spice = true;
    apply_config(&mut reported, &config("std", 4, 2));
    assert_eq!(reported, record(100, "qemu", "running", 3));
}

#[test]
fn loopback_is_never_the_guest_s_address() {
    let interfaces = vec![
        interface("lo", Some(vec![address("127.0.0.1", "ipv4")])),
        interface("eth0", Some(vec![address("10.0.0.5", "ipv4")])),
    ];
    assert_eq!(pick_guest_address(&interfaces), Some("10.0.0.5".to_string()));
}

#[test]
fn the_first_usable_address_is_picked() {
    let interfaces = vec![
        interface("lo", Some(vec![address("192.168.1.1", "ipv4")])),
        interface("eth0", None),
        interface(
            "eth1",
            Some(vec![
                address("fe80::1", "ipv6"),
                address("127.0.1.1", "ipv4"),
                address("192.168.1.7", "ipv4"),
                address("192.168.1.8", "ipv4"),
            ]),
        ),
        interface("eth2", Some(vec![address("10.0.0.1", "ipv4")])),
    ];
    assert_eq!(pick_guest_address(&interfaces), Some("192.168.1.7".to_string()));
}

#[test]
fn no_usable_address_is_no_address() {
    assert_eq!(pick_guest_address(&vec![]), None);
    let interfaces = vec![
        interface("lo", Some(vec![address("10.0.0.9", "ipv4")])),
        interface("eth0", Some(vec![address("fe80::1", "ipv6"), address("127.9.9.9", "ipv4")])),
        interface("eth1", Some(vec![address("10.0.0.1", "IPv4")])),
        interface("eth2", Some(vec![])),
    ];
    assert_eq!(pick_guest_address(&interfaces), None);
}

#[test]
fn an_agent_without_an_answer_gives_no_address() {
    assert_eq!(get_vm_ip(&Reply::Failed("x".to_string())), None);
    assert_eq!(get_vm_ip(&answered(200, "", Payload::Interfaces(None))), None);
    assert_eq!(
        get_vm_ip(&answered(200, "", Payload::Interfaces(Some(NetworkData { result: None })))),
        None
    );
    assert_eq!(get_vm_ip(&answered(200, "", Payload::Malformed("x".to_string()))), None);
    let good = vec![interface("eth0", Some(vec![address("10.0.0.5", "ipv4")]))];
    assert_eq!(
        get_vm_ip(&answered(
            500,
            "",
            Payload::Interfaces(Some(NetworkData { result: Some(good) }))
        )),
        None
    );
    let good = vec![interface("eth0", Some(vec![address("10.0.0.5", "ipv4")]))];
    assert_eq!(get_vm_ip(&interfaces_reply(good)), Some("10.0.0.5".to_string()));
}

#[test]
fn the_listing_makes_one_call_and_up_to_two_for_each_machine() {
    let machines = vec![
        record(100, "qemu", "running", 1),
        record(101, "qemu", "stopped", 1),
        record(102, "qemu", "running", 1),
    ];
    let mut replies: Vec<Reply> = Vec::new();
    let mut calls = 0;
    loop {
        match list_vms("pve", 8006, "T", "C", &replies) {
            Step::Send(request) => {
                calls += 1;
                let reply = match request.expects {
                    Expect::Inventory => inventory(machines.clone()),
                    Expect::VmConfig => config_reply("qxl", 1, 1),
                    _ => interfaces_reply(vec![]),
                };
                replies.push(reply);
            }
            Step::Done(outcome) => {
                assert_eq!(outcome.map(|vms| vms.len()), Ok(3));
                break;
            }
        }
    }
    assert_eq!(calls, 1 + 3 + 2);
}
