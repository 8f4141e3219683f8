//! One row of the machine list.

use crate::models::vm::{VMInfo, VMStatus, VmView};
use crate::text::{decimal, push_decimal, str_eq};
use vstd::prelude::*;

verus! {

/// What the list tells a row.
#[derive(Debug, PartialEq, Eq)]
pub enum VMItemInput {
    SetOperating(bool),
    UpdateStatus(String),
}

/// What a row asks of the list, each with the machine's number and node.
#[derive(Debug, PartialEq, Eq)]
pub enum VMItemOutput {
    Start(u32, String),
    Stop(u32, String),
    Connect(u32, String),
}

pub ghost enum VMItemOutputView {
    Start(u32, Seq<char>),
    Stop(u32, Seq<char>),
    Connect(u32, Seq<char>),
}

impl View for VMItemOutput {
    type V = VMItemOutputView;

    open spec fn view(&self) -> VMItemOutputView {
        match self {
            VMItemOutput::Start(vmid, node) => VMItemOutputView::Start(*vmid, node@),
            VMItemOutput::Stop(vmid, node) => VMItemOutputView::Stop(*vmid, node@),
            VMItemOutput::Connect(vmid, node) => VMItemOutputView::Connect(*vmid, node@),
        }
    }
}

/// A machine with the mark that a power operation on it is under way.
#[derive(Debug, PartialEq, Eq)]
pub struct VMItem {
    pub vm: VMInfo,
    pub is_operating: bool,
}

pub ghost struct VMItemView {
    pub vm: VmView,
    pub is_operating: bool,
}

impl VMItemView {
    /// The power button stops a machine that runs or is paused, and starts
    /// any other.
    pub open spec fn stops(self) -> bool {
        self.vm.state() == VMStatus::Running || self.vm.state() == VMStatus::Paused
    }

    /// What a click on the power button asks for.
    pub open spec fn power_click(self) -> VMItemOutputView {
        if self.stops() {
            VMItemOutputView::Stop(self.vm.vmid, self.vm.node)
        } else {
            VMItemOutputView::Start(self.vm.vmid, self.vm.node)
        }
    }

    /// The display can be opened for a running machine with a display adapter
    /// that serves one.
    pub open spec fn can_connect(self) -> bool {
        self.vm.state() == VMStatus::Running && self.vm.spice
    }

    /// The line under the machine's name.
    pub open spec fn subtitle(self) -> Seq<char> {
        "VM "@ + decimal(self.vm.vmid as nat) + " · "@ + self.vm.node + " · "@ + self.vm.status
    }

    /// The row after a message.
    pub open spec fn after(self, msg: VMItemInput) -> VMItemView {
        match msg {
            VMItemInput::SetOperating(operating) => VMItemView { is_operating: operating, ..self },
            VMItemInput::UpdateStatus(status) => VMItemView {
                vm: VmView { status: status@, ..self.vm },
                ..self
            },
        }
    }
}

impl View for VMItem {
    type V = VMItemView;

    open spec fn view(&self) -> VMItemView {
        VMItemView { vm: self.vm@, is_operating: self.is_operating }
    }
}

impl DeepView for VMItem {
    type V = VMItemView;

    open spec fn deep_view(&self) -> VMItemView {
        self@
    }
}

impl VMItem {
    /// The row for a machine; no operation is under way.
    pub fn init_model(vm: VMInfo) -> (item: Self)
        ensures
            item@ == (VMItemView { vm: vm@, is_operating: false }),
    {
        VMItem { vm, is_operating: false }
    }

    /// Takes a message from the list.
    pub fn update(&mut self, msg: VMItemInput)
        ensures
            final(self)@ == old(self)@.after(msg),
    {
        match msg {
            VMItemInput::SetOperating(operating) => {
                self.is_operating = operating;
            },
            VMItemInput::UpdateStatus(status) => {
                self.vm.status = status;
            },
        }
    }

    /// The line under the machine's name.
    pub fn subtitle(&self) -> (line: String)
        ensures
            line@ == self@.subtitle(),
    {
        let mut line = String::from_str("VM ");
        push_decimal(&mut line, self.vm.vmid as u64);
        line.append(" · ");
        line.append(self.vm.node.as_str());
        line.append(" · ");
        line.append(self.vm.status.as_str());
        line
    }

    /// Whether the power button stops the machine rather than starts it.
    pub fn stops_on_click(&self) -> (yes: bool)
        ensures
            yes == self@.stops(),
    {
        self.vm.is_running() || self.vm.is_paused()
    }

    /// What a click on the power button asks for.
    pub fn power_click(&self) -> (output: VMItemOutput)
        ensures
            output@ == self@.power_click(),
    {
        if self.stops_on_click() {
            VMItemOutput::Stop(self.vm.vmid, self.vm.node.clone())
        } else {
            VMItemOutput::Start(self.vm.vmid, self.vm.node.clone())
        }
    }

    /// What a click on the connect button asks for.
    pub fn connect_click(&self) -> (output: VMItemOutput)
        ensures
            output@ == VMItemOutputView::Connect(self@.vm.vmid, self@.vm.node),
    {
        VMItemOutput::Connect(self.vm.vmid, self.vm.node.clone())
    }

    /// Whether the connect button is shown.
    pub fn can_connect(&self) -> (yes: bool)
        ensures
            yes == self@.can_connect(),
    {
        self.vm.is_running() && self.vm.spice
    }

    /// Whether the guest's address is shown: there is one, and no operation
    /// is under way.
    pub fn shows_address(&self) -> (yes: bool)
        ensures
            yes == (self@.vm.ip_address is Some && !self@.is_operating),
    {
        self.vm.ip_address.is_some() && !self.is_operating
    }
}

/// The icon for a raw status text.
pub open spec fn status_icon(status: Seq<char>) -> Seq<char> {
    if status == "running"@ {
        "media-playback-start-symbolic"@
    } else if status == "paused"@ {
        "media-playback-pause-symbolic"@
    } else {
        "media-playback-stop-symbolic"@
    }
}

/// The icon for a raw status text.
pub fn get_status_icon(status: &str) -> (icon: &'static str)
    ensures
        icon@ == status_icon(status@),
{
    if str_eq(status, "running") {
        "media-playback-start-symbolic"
    } else if str_eq(status, "paused") {
        "media-playback-pause-symbolic"
    } else {
        "media-playback-stop-symbolic"
    }
}

/// The style class for a raw status text.
pub open spec fn status_class(status: Seq<char>) -> Seq<char> {
    if status == "running"@ {
        "success"@
    } else if status == "paused"@ {
        "warning"@
    } else {
        "dim-label"@
    }
}

/// The style class for a raw status text.
pub fn get_status_class(status: &str) -> (class: &'static str)
    ensures
        class@ == status_class(status@),
{
    if str_eq(status, "running") {
        "success"
    } else if str_eq(status, "paused") {
        "warning"
    } else {
        "dim-label"
    }
}

} // verus!
