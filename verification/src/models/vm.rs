//! Virtual machines as the cluster inventory reports them.

use crate::text::{lowercase, split, split_on, str_eq, texts, to_lowercase};
use vstd::prelude::*;

verus! {

/// The power state of a machine, as a closed set.
#[derive(Debug, Clone, Copy, PartialEq, Eq, Structural)]
pub enum VMStatus {
    Running,
    Stopped,
    Paused,
}

impl VMStatus {
    /// The state that an already lowercased status text names. Every text but
    /// `running` and `paused` names `Stopped`.
    pub open spec fn of_lowered(lowered: Seq<char>) -> VMStatus {
        if lowered == "running"@ {
            VMStatus::Running
        } else if lowered == "paused"@ {
            VMStatus::Paused
        } else {
            VMStatus::Stopped
        }
    }

    /// The state that a status text names, whatever its letter case.
    pub open spec fn of_text(s: Seq<char>) -> VMStatus {
        VMStatus::of_lowered(lowercase(s))
    }

    /// The text that the cluster uses for this state.
    pub open spec fn label(self) -> Seq<char> {
        match self {
            VMStatus::Running => "running"@,
            VMStatus::Stopped => "stopped"@,
            VMStatus::Paused => "paused"@,
        }
    }

    /// Reads a status text that is already in lowercase.
    pub fn from_lowercase(lowered: &str) -> (status: VMStatus)
        ensures
            status == VMStatus::of_lowered(lowered@),
    {
        if str_eq(lowered, "running") {
            VMStatus::Running
        } else if str_eq(lowered, "paused") {
            VMStatus::Paused
        } else {
            VMStatus::Stopped
        }
    }

    /// Reads a status text without regard to letter case; an unrecognized
    /// text reads as `Stopped`.
    pub fn from_str(s: &str) -> (status: VMStatus)
        ensures
            status == VMStatus::of_text(s@),
    {
        let lowered = to_lowercase(s);
        VMStatus::from_lowercase(lowered.as_str())
    }

    /// The text that the cluster uses for this state.
    pub fn as_str(&self) -> (label: &'static str)
        ensures
            label@ == self.label(),
    {
        match self {
            VMStatus::Running => "running",
            VMStatus::Stopped => "stopped",
            VMStatus::Paused => "paused",
        }
    }
}

/// One machine of the cluster inventory, with what the client adds to it.
#[derive(Debug, PartialEq, Eq)]
pub struct VMInfo {
    pub vmid: u32,
    pub name: String,
    pub status: String,
    pub node: String,
    pub vm_type: String,
    pub uptime: u64,
    pub cpus: u32,
    pub maxmem: u64,
    pub mem: u64,
    pub maxdisk: u64,
    pub disk: u64,
    pub tags: String,
    pub spice: bool,
    pub ip_address: Option<String>,
}

/// A machine record as plain values.
pub ghost struct VmView {
    pub vmid: u32,
    pub name: Seq<char>,
    pub status: Seq<char>,
    pub node: Seq<char>,
    pub vm_type: Seq<char>,
    pub uptime: u64,
    pub cpus: u32,
    pub maxmem: u64,
    pub mem: u64,
    pub maxdisk: u64,
    pub disk: u64,
    pub tags: Seq<char>,
    pub spice: bool,
    pub ip_address: Option<Seq<char>>,
}

impl VmView {
    /// The power state that the raw status text names.
    pub open spec fn state(self) -> VMStatus {
        VMStatus::of_text(self.status)
    }

    /// The tags of the machine: none for an empty tag text, else the pieces
    /// between semicolons.
    pub open spec fn tag_list(self) -> Seq<Seq<char>> {
        if self.tags.len() == 0 {
            Seq::empty()
        } else {
            split_on(self.tags, ';')
        }
    }
}

impl View for VMInfo {
    type V = VmView;

    open spec fn view(&self) -> VmView {
        VmView {
            vmid: self.vmid,
            name: self.name@,
            status: self.status@,
            node: self.node@,
            vm_type: self.vm_type@,
            uptime: self.uptime,
            cpus: self.cpus,
            maxmem: self.maxmem,
            mem: self.mem,
            maxdisk: self.maxdisk,
            disk: self.disk,
            tags: self.tags@,
            spice: self.spice,
            ip_address: match self.ip_address {
                Some(ip) => Some(ip@),
                None => None,
            },
        }
    }
}

impl DeepView for VMInfo {
    type V = VmView;

    open spec fn deep_view(&self) -> VmView {
        self@
    }
}

impl Clone for VMInfo {
    fn clone(&self) -> (copy: Self)
        ensures
            copy == *self,
    {
        VMInfo {
            vmid: self.vmid,
            name: self.name.clone(),
            status: self.status.clone(),
            node: self.node.clone(),
            vm_type: self.vm_type.clone(),
            uptime: self.uptime,
            cpus: self.cpus,
            maxmem: self.maxmem,
            mem: self.mem,
            maxdisk: self.maxdisk,
            disk: self.disk,
            tags: self.tags.clone(),
            spice: self.spice,
            ip_address: match &self.ip_address {
                Some(ip) => Some(ip.clone()),
                None => None,
            },
        }
    }
}

impl VMInfo {
    /// The power state that the raw status text names.
    pub fn get_status(&self) -> (status: VMStatus)
        ensures
            status == self@.state(),
    {
        VMStatus::from_str(self.status.as_str())
    }

    /// The tags of the machine, split at semicolons; an empty tag text has none.
    pub fn get_tags(&self) -> (tags: Vec<String>)
        ensures
            texts(tags@) == self@.tag_list(),
    {
        if self.tags.as_str().is_empty() {
            let tags: Vec<String> = Vec::new();
            assert(texts(tags@) =~= Seq::empty());
            tags
        } else {
            split(self.tags.as_str(), ';')
        }
    }

    /// Whether the machine is running.
    pub fn is_running(&self) -> (yes: bool)
        ensures
            yes == (self@.state() == VMStatus::Running),
    {
        self.get_status() == VMStatus::Running
    }

    /// Whether the machine is paused.
    pub fn is_paused(&self) -> (yes: bool)
        ensures
            yes == (self@.state() == VMStatus::Paused),
    {
        self.get_status() == VMStatus::Paused
    }

    /// Whether the machine is stopped, which includes every unrecognized status.
    pub fn is_stopped(&self) -> (yes: bool)
        ensures
            yes == (self@.state() == VMStatus::Stopped),
    {
        self.get_status() == VMStatus::Stopped
    }
}

/// A machine runs or is paused exactly when its status text, in lowercase, is
/// `running` or `paused`; with every other status text it counts as stopped.
/// The text of a state reads back as that state once it is in lowercase.
pub proof fn lemma_one_state(vm: VmView, status: VMStatus)
    ensures
        vm.state() == VMStatus::Running <==> lowercase(vm.status) == "running"@,
        vm.state() == VMStatus::Paused <==> lowercase(vm.status) == "paused"@,
        vm.state() == VMStatus::Stopped <==> (lowercase(vm.status) != "running"@ && lowercase(
            vm.status,
        ) != "paused"@),
        VMStatus::of_lowered(status.label()) == status,
{
    reveal_strlit("running");
    reveal_strlit("paused");
    reveal_strlit("stopped");
    assert("running"@.len() == 7);
    assert("paused"@.len() == 6);
    assert("stopped"@[0] == 's');
    assert("running"@[0] == 'r');
}

} // verus!
