//! The page that lists the machines of the session and takes the user's
//! orders about them.

use crate::api::error::ApiError;
use crate::api::vms::PowerAction;
use crate::models::connection::{Session, SessionView};
use crate::models::vm::{VMInfo, VmView};
use crate::text::{decimal, push_decimal};
use crate::ui::vm_item::{VMItem, VMItemInput, VMItemOutput, VMItemOutputView, VMItemView};
use std::collections::HashSet;
use vstd::prelude::*;

verus! {

broadcast use vstd::std_specs::hash::group_hash_axioms;

/// The messages that the page takes: from its widgets, from its rows, and
/// from whoever carried out what the page asked for.
#[derive(Debug, PartialEq, Eq)]
pub enum MainMsg {
    LoadVMs,
    VMsLoaded(Vec<VMInfo>),
    LoadError(String),
    StartVM(u32, String),
    StopVM(u32, String),
    ConnectVM(u32, String),
    VMOperationStarted(u32),
    VMOperationComplete(u32, String),
    VMOperationError(u32, String),
    ShowToast(String),
    Logout,
}

pub ghost enum MainMsgView {
    LoadVMs,
    VMsLoaded(Seq<VmView>),
    LoadError(Seq<char>),
    StartVM(u32, Seq<char>),
    StopVM(u32, Seq<char>),
    ConnectVM(u32, Seq<char>),
    VMOperationStarted(u32),
    VMOperationComplete(u32, Seq<char>),
    VMOperationError(u32, Seq<char>),
    ShowToast(Seq<char>),
    Logout,
}

impl View for MainMsg {
    type V = MainMsgView;

    open spec fn view(&self) -> MainMsgView {
        match self {
            MainMsg::LoadVMs => MainMsgView::LoadVMs,
            MainMsg::VMsLoaded(vms) => MainMsgView::VMsLoaded(vms.deep_view()),
            MainMsg::LoadError(error) => MainMsgView::LoadError(error@),
            MainMsg::StartVM(vmid, node) => MainMsgView::StartVM(*vmid, node@),
            MainMsg::StopVM(vmid, node) => MainMsgView::StopVM(*vmid, node@),
            MainMsg::ConnectVM(vmid, node) => MainMsgView::ConnectVM(*vmid, node@),
            MainMsg::VMOperationStarted(vmid) => MainMsgView::VMOperationStarted(*vmid),
            MainMsg::VMOperationComplete(vmid, action) => MainMsgView::VMOperationComplete(
                *vmid,
                action@,
            ),
            MainMsg::VMOperationError(vmid, error) => MainMsgView::VMOperationError(
                *vmid,
                error@,
            ),
            MainMsg::ShowToast(message) => MainMsgView::ShowToast(message@),
            MainMsg::Logout => MainMsgView::Logout,
        }
    }
}

impl MainMsg {
    /// The message for what a row asks.
    pub fn from_row(output: VMItemOutput) -> (msg: MainMsg)
        ensures
            msg@ == (match output@ {
                VMItemOutputView::Start(vmid, node) => MainMsgView::StartVM(vmid, node),
                VMItemOutputView::Stop(vmid, node) => MainMsgView::StopVM(vmid, node),
                VMItemOutputView::Connect(vmid, node) => MainMsgView::ConnectVM(vmid, node),
            }),
    {
        match output {
            VMItemOutput::Start(vmid, node) => MainMsg::StartVM(vmid, node),
            VMItemOutput::Stop(vmid, node) => MainMsg::StopVM(vmid, node),
            VMItemOutput::Connect(vmid, node) => MainMsg::ConnectVM(vmid, node),
        }
    }

    /// The message for what came of listing the machines: the list, or the
    /// failure's line.
    pub fn loaded(outcome: Result<Vec<VMInfo>, ApiError>) -> (msg: MainMsg)
        ensures
            msg@ == (match outcome {
                Ok(vms) => MainMsgView::VMsLoaded(vms.deep_view()),
                Err(error) => MainMsgView::LoadError(error@.message()),
            }),
    {
        match outcome {
            Ok(vms) => MainMsg::VMsLoaded(vms),
            Err(error) => MainMsg::LoadError(error.message()),
        }
    }

    /// The message for what came of a change of power state: that it is
    /// done, whatever the task's identifier, or the failure's line.
    pub fn operated(action: PowerAction, vmid: u32, outcome: Result<String, ApiError>) -> (msg:
        MainMsg)
        ensures
            msg@ == (match outcome {
                Ok(_) => MainMsgView::VMOperationComplete(vmid, action.done_word()),
                Err(error) => MainMsgView::VMOperationError(vmid, error@.message()),
            }),
    {
        match outcome {
            Ok(_) => MainMsg::VMOperationComplete(vmid, String::from_str(action.past())),
            Err(error) => MainMsg::VMOperationError(vmid, error.message()),
        }
    }

    /// The message for a display that could not be opened.
    pub fn display_failed(error: &ApiError) -> (msg: MainMsg)
        ensures
            msg@ == MainMsgView::ShowToast("Error: "@ + error@.message()),
    {
        let mut toast = String::from_str("Error: ");
        let line = error.message();
        toast.append(line.as_str());
        MainMsg::ShowToast(toast)
    }
}

/// What the page tells its parent.
#[derive(Debug, Clone, Copy, PartialEq, Eq, Structural)]
pub enum MainOutput {
    Logout,
}

/// What is to be done outside the page after a message.
#[derive(Debug, PartialEq, Eq)]
pub enum MainEffect {
    /// List the machines, and answer with `VMsLoaded` or `LoadError`.
    ListVms { host: String, port: u16, ticket: String, csrf: String },
    /// Change a machine's power state, and answer with `VMOperationComplete`
    /// or `VMOperationError`.
    ChangePower {
        action: PowerAction,
        host: String,
        port: u16,
        ticket: String,
        csrf: String,
        node: String,
        vmid: u32,
    },
    /// Fetch the machine's display configuration and hand it to the viewer.
    OpenDisplay { host: String, port: u16, ticket: String, csrf: String, node: String, vmid: u32 },
    /// Hand this message to the page, after the ones already waiting.
    Input(MainMsg),
    /// Hand this message to the page's parent.
    Output(MainOutput),
}

pub ghost enum MainEffectView {
    ListVms { host: Seq<char>, port: u16, ticket: Seq<char>, csrf: Seq<char> },
    ChangePower {
        action: PowerAction,
        host: Seq<char>,
        port: u16,
        ticket: Seq<char>,
        csrf: Seq<char>,
        node: Seq<char>,
        vmid: u32,
    },
    OpenDisplay {
        host: Seq<char>,
        port: u16,
        ticket: Seq<char>,
        csrf: Seq<char>,
        node: Seq<char>,
        vmid: u32,
    },
    Input(MainMsgView),
    Output(MainOutput),
}

impl View for MainEffect {
    type V = MainEffectView;

    open spec fn view(&self) -> MainEffectView {
        match self {
            MainEffect::ListVms { host, port, ticket, csrf } => MainEffectView::ListVms {
                host: host@,
                port: *port,
                ticket: ticket@,
                csrf: csrf@,
            },
            MainEffect::ChangePower {
                action,
                host,
                port,
                ticket,
                csrf,
                node,
                vmid,
            } => MainEffectView::ChangePower {
                action: *action,
                host: host@,
                port: *port,
                ticket: ticket@,
                csrf: csrf@,
                node: node@,
                vmid: *vmid,
            },
            MainEffect::OpenDisplay {
                host,
                port,
                ticket,
                csrf,
                node,
                vmid,
            } => MainEffectView::OpenDisplay {
                host: host@,
                port: *port,
                ticket: ticket@,
                csrf: csrf@,
                node: node@,
                vmid: *vmid,
            },
            MainEffect::Input(msg) => MainEffectView::Input(msg@),
            MainEffect::Output(output) => MainEffectView::Output(*output),
        }
    }
}

impl DeepView for MainEffect {
    type V = MainEffectView;

    open spec fn deep_view(&self) -> MainEffectView {
        self@
    }
}

/// The state of the page. `operating_vms` holds the machines with a power
/// operation under way: no second operation is begun on one of them.
#[derive(Debug, PartialEq, Eq)]
pub struct MainPage {
    pub session: Session,
    pub vms: Vec<VMItem>,
    pub is_loading: bool,
    pub error: Option<String>,
    pub operating_vms: HashSet<u32>,
    pub toast_message: Option<String>,
}

pub ghost struct MainPageView {
    pub session: SessionView,
    pub vms: Seq<VMItemView>,
    pub is_loading: bool,
    pub error: Option<Seq<char>>,
    pub operating_vms: Set<u32>,
    pub toast_message: Option<Seq<char>>,
}

impl View for MainPage {
    type V = MainPageView;

    open spec fn view(&self) -> MainPageView {
        MainPageView {
            session: self.session@,
            vms: self.vms.deep_view(),
            is_loading: self.is_loading,
            error: self.error.deep_view(),
            operating_vms: self.operating_vms@,
            toast_message: self.toast_message.deep_view(),
        }
    }
}

impl DeepView for MainPage {
    type V = MainPageView;

    open spec fn deep_view(&self) -> MainPageView {
        self@
    }
}

/// The place of the first row that shows machine `vmid`.
pub open spec fn row_of(vms: Seq<VMItemView>, vmid: u32) -> Option<int>
    decreases vms.len(),
{
    if vms.len() == 0 {
        None
    } else if vms[0].vm.vmid == vmid {
        Some(0)
    } else {
        match row_of(vms.drop_first(), vmid) {
            Some(i) => Some(i + 1),
            None => None,
        }
    }
}

/// `row_of` gives the first row of the machine, and none exactly when no row
/// shows it.
pub proof fn lemma_row_of(vms: Seq<VMItemView>, vmid: u32)
    ensures
        match row_of(vms, vmid) {
            Some(i) => 0 <= i < vms.len() && vms[i].vm.vmid == vmid && forall|j: int|
                0 <= j < i ==> (#[trigger] vms[j]).vm.vmid != vmid,
            None => forall|j: int| 0 <= j < vms.len() ==> (#[trigger] vms[j]).vm.vmid != vmid,
        },
    decreases vms.len(),
{
    if vms.len() > 0 && vms[0].vm.vmid != vmid {
        let rest = vms.drop_first();
        lemma_row_of(rest, vmid);
        match row_of(rest, vmid) {
            Some(i) => {
                assert(vms[i + 1] == rest[i]);
                assert forall|j: int| 0 <= j < i + 1 implies (#[trigger] vms[j]).vm.vmid
                    != vmid by {
                    if j > 0 {
                        assert(vms[j] == rest[j - 1]);
                    }
                }
            },
            None => {
                assert forall|j: int| 0 <= j < vms.len() implies (#[trigger] vms[j]).vm.vmid
                    != vmid by {
                    if j > 0 {
                        assert(vms[j] == rest[j - 1]);
                    }
                }
            },
        }
    }
}

/// The rows after the first row of machine `vmid` was told whether an
/// operation is under way.
pub open spec fn mark_operating(vms: Seq<VMItemView>, vmid: u32, operating: bool) -> Seq<
    VMItemView,
> {
    match row_of(vms, vmid) {
        Some(i) => vms.update(i, VMItemView { is_operating: operating, ..vms[i] }),
        None => vms,
    }
}

/// The fresh rows for a list of machines.
pub open spec fn rows_for(vms: Seq<VmView>) -> Seq<VMItemView> {
    Seq::new(vms.len(), |i: int| VMItemView { vm: vms[i], is_operating: false })
}

impl MainPageView {
    /// The page with machine `vmid` marked as operating.
    pub open spec fn begin_operation(self, vmid: u32) -> MainPageView {
        MainPageView {
            operating_vms: self.operating_vms.insert(vmid),
            vms: mark_operating(self.vms, vmid, true),
            ..self
        }
    }

    /// The page with machine `vmid` no longer marked as operating.
    pub open spec fn end_operation(self, vmid: u32) -> MainPageView {
        MainPageView {
            operating_vms: self.operating_vms.remove(vmid),
            vms: mark_operating(self.vms, vmid, false),
            ..self
        }
    }

    /// The page after a message. Every message first takes the toast away. A
    /// loaded list replaces the rows altogether; a failed load leaves them.
    /// An order to start or stop a machine that is marked as operating changes
    /// nothing.
    pub open spec fn after(self, msg: MainMsgView) -> MainPageView {
        let cleared = MainPageView { toast_message: None, ..self };
        match msg {
            MainMsgView::LoadVMs => MainPageView { is_loading: true, error: None, ..cleared },
            MainMsgView::VMsLoaded(vms) => MainPageView {
                is_loading: false,
                error: None,
                vms: rows_for(vms),
                ..cleared
            },
            MainMsgView::LoadError(error) => MainPageView {
                is_loading: false,
                error: Some(error),
                ..cleared
            },
            MainMsgView::StartVM(vmid, _) => if self.operating_vms.contains(vmid) {
                cleared
            } else {
                cleared.begin_operation(vmid)
            },
            MainMsgView::StopVM(vmid, _) => if self.operating_vms.contains(vmid) {
                cleared
            } else {
                cleared.begin_operation(vmid)
            },
            MainMsgView::ConnectVM(_, _) => cleared,
            MainMsgView::VMOperationStarted(vmid) => cleared.begin_operation(vmid),
            MainMsgView::VMOperationComplete(vmid, _) => cleared.end_operation(vmid),
            MainMsgView::VMOperationError(vmid, _) => cleared.end_operation(vmid),
            MainMsgView::ShowToast(message) => MainPageView {
                toast_message: Some(message),
                ..cleared
            },
            MainMsgView::Logout => cleared,
        }
    }

    /// The request for the machine list, with the session's tokens.
    pub open spec fn list_effect(self) -> MainEffectView {
        MainEffectView::ListVms {
            host: self.session.server.host,
            port: self.session.server.port,
            ticket: self.session.tokens.ticket,
            csrf: self.session.tokens.csrf_token,
        }
    }

    /// The request for a change of power state, with the session's tokens.
    pub open spec fn power_effect(self, action: PowerAction, vmid: u32, node: Seq<char>)
        -> MainEffectView {
        MainEffectView::ChangePower {
            action,
            host: self.session.server.host,
            port: self.session.server.port,
            ticket: self.session.tokens.ticket,
            csrf: self.session.tokens.csrf_token,
            node,
            vmid,
        }
    }

    /// The request to open a machine's display, with the session's tokens.
    pub open spec fn display_effect(self, vmid: u32, node: Seq<char>) -> MainEffectView {
        MainEffectView::OpenDisplay {
            host: self.session.server.host,
            port: self.session.server.port,
            ticket: self.session.tokens.ticket,
            csrf: self.session.tokens.csrf_token,
            node,
            vmid,
        }
    }

    /// What is to be done outside after a message. An order to start or stop
    /// a machine that is marked as operating asks for nothing: no request is
    /// made for it. A finished operation shows a toast and loads the list
    /// anew; a failed one shows its error.
    pub open spec fn effects(self, msg: MainMsgView) -> Seq<MainEffectView> {
        match msg {
            MainMsgView::LoadVMs => seq![self.list_effect()],
            MainMsgView::StartVM(vmid, node) => if self.operating_vms.contains(vmid) {
                Seq::empty()
            } else {
                seq![self.power_effect(PowerAction::Start, vmid, node)]
            },
            MainMsgView::StopVM(vmid, node) => if self.operating_vms.contains(vmid) {
                Seq::empty()
            } else {
                seq![self.power_effect(PowerAction::Stop, vmid, node)]
            },
            MainMsgView::ConnectVM(vmid, node) => seq![self.display_effect(vmid, node)],
            MainMsgView::VMOperationComplete(vmid, action) => seq![
                MainEffectView::Input(
                    MainMsgView::ShowToast("VM "@ + decimal(vmid as nat) + " "@ + action),
                ),
                MainEffectView::Input(MainMsgView::LoadVMs),
            ],
            MainMsgView::VMOperationError(_, error) => seq![
                MainEffectView::Input(MainMsgView::ShowToast("Error: "@ + error)),
            ],
            MainMsgView::Logout => seq![MainEffectView::Output(MainOutput::Logout)],
            _ => Seq::empty(),
        }
    }

    /// The wheel that says that the list is loading is shown while nothing is
    /// listed yet.
    pub open spec fn shows_loading(self) -> bool {
        self.is_loading && self.vms.len() == 0
    }

    /// The error pane is shown while nothing is listed.
    pub open spec fn shows_error(self) -> bool {
        self.error is Some && self.vms.len() == 0
    }

    /// The pane that says that there are no machines.
    pub open spec fn shows_empty(self) -> bool {
        !self.is_loading && self.error is None && self.vms.len() == 0
    }
}

fn make_rows(vms: Vec<VMInfo>) -> (rows: Vec<VMItem>)
    ensures
        rows.deep_view() == rows_for(vms.deep_view()),
{
    let ghost all = vms.deep_view();
    let mut rows: Vec<VMItem> = Vec::new();
    let mut i: usize = 0;
    while i < vms.len()
        invariant
            i <= vms.len(),
            all == vms.deep_view(),
            rows.len() == i,
            forall|j: int|
                0 <= j < i ==> (#[trigger] rows[j])@ == (VMItemView {
                    vm: all[j],
                    is_operating: false,
                }),
        decreases vms.len() - i,
    {
        rows.push(VMItem::init_model(vms[i].clone()));
        i += 1;
    }
    proof {
        assert(rows.deep_view() =~= rows_for(all));
    }
    rows
}

impl MainPage {
    /// The page for a fresh session: nothing is listed yet, and the first
    /// thing to do is to load the list.
    pub fn init(session: Session) -> (start: (Self, Vec<MainEffect>))
        ensures
            start.0@ == (MainPageView {
                session: session@,
                vms: Seq::empty(),
                is_loading: true,
                error: None,
                operating_vms: Set::empty(),
                toast_message: None,
            }),
            start.1.deep_view() == seq![MainEffectView::Input(MainMsgView::LoadVMs)],
    {
        let page = MainPage {
            session,
            vms: Vec::new(),
            is_loading: true,
            error: None,
            operating_vms: HashSet::new(),
            toast_message: None,
        };
        let mut effects: Vec<MainEffect> = Vec::new();
        effects.push(MainEffect::Input(MainMsg::LoadVMs));
        proof {
            assert(page.vms.deep_view() =~= Seq::empty());
            assert(effects.deep_view() =~= seq![MainEffectView::Input(MainMsgView::LoadVMs)]);
        }
        (page, effects)
    }

    /// Tells the first row of machine `vmid` whether an operation is under way.
    pub fn set_vm_operating(&mut self, vmid: u32, operating: bool)
        ensures
            final(self)@ == (MainPageView {
                vms: mark_operating(old(self)@.vms, vmid, operating),
                ..old(self)@
            }),
    {
        let ghost all = self.vms.deep_view();
        let mut i: usize = 0;
        proof {
            lemma_row_of(all, vmid);
        }
        while i < self.vms.len()
            invariant
                i <= self.vms.len(),
                *self == *old(self),
                all == self.vms.deep_view(),
                forall|j: int| 0 <= j < i ==> (#[trigger] all[j]).vm.vmid != vmid,
            decreases self.vms.len() - i,
        {
            if self.vms[i].vm.vmid == vmid {
                proof {
                    lemma_row_of(all, vmid);
                    let found = row_of(all, vmid);
                    assert(all[i as int].vm.vmid == vmid);
                    if found is Some && found->0 != i {
                        if found->0 < i {
                            assert(all[found->0].vm.vmid != vmid);
                        }
                    }
                }
                self.vms[i].update(VMItemInput::SetOperating(operating));
                proof {
                    assert(self.vms.deep_view() =~= mark_operating(all, vmid, operating));
                }
                return ;
            }
            i += 1;
        }
        proof {
            lemma_row_of(all, vmid);
            let found = row_of(all, vmid);
            if found is Some {
                assert(all[found->0].vm.vmid != vmid);
            }
        }
    }

    fn list_effect(&self) -> (effect: MainEffect)
        ensures
            effect@ == self@.list_effect(),
    {
        MainEffect::ListVms {
            host: self.session.server.host.clone(),
            port: self.session.server.port,
            ticket: self.session.tokens.ticket.clone(),
            csrf: self.session.tokens.csrf_token.clone(),
        }
    }

    fn power_effect(&self, action: PowerAction, vmid: u32, node: String) -> (effect: MainEffect)
        ensures
            effect@ == self@.power_effect(action, vmid, node@),
    {
        MainEffect::ChangePower {
            action,
            host: self.session.server.host.clone(),
            port: self.session.server.port,
            ticket: self.session.tokens.ticket.clone(),
            csrf: self.session.tokens.csrf_token.clone(),
            node,
            vmid,
        }
    }

    fn begin(&mut self, action: PowerAction, vmid: u32, node: String) -> (effects: Vec<MainEffect>)
        requires
            old(self).toast_message is None,
        ensures
            final(self)@ == (if old(self)@.operating_vms.contains(vmid) {
                old(self)@
            } else {
                old(self)@.begin_operation(vmid)
            }),
            effects.deep_view() == (if old(self)@.operating_vms.contains(vmid) {
                Seq::empty()
            } else {
                seq![old(self)@.power_effect(action, vmid, node@)]
            }),
    {
        let mut effects: Vec<MainEffect> = Vec::new();
        if self.operating_vms.contains(&vmid) {
            proof {
                assert(effects.deep_view() =~= Seq::empty());
            }
            return effects;
        }
        self.operating_vms.insert(vmid);
        self.set_vm_operating(vmid, true);
        effects.push(self.power_effect(action, vmid, node));
        proof {
            assert(effects.deep_view() =~= seq![old(self)@.power_effect(action, vmid, node@)]);
        }
        effects
    }

    /// Takes a message, changes the page, and says what is to be done outside.
    pub fn update(&mut self, msg: MainMsg) -> (effects: Vec<MainEffect>)
        ensures
            final(self)@ == old(self)@.after(msg@),
            effects.deep_view() == old(self)@.effects(msg@),
    {
        self.toast_message = None;
        let mut effects: Vec<MainEffect> = Vec::new();
        proof {
            assert(effects.deep_view() =~= Seq::empty());
        }
        match msg {
            MainMsg::LoadVMs => {
                self.is_loading = true;
                self.error = None;
                effects.push(self.list_effect());
                proof {
                    assert(effects.deep_view() =~= seq![old(self)@.list_effect()]);
                }
            },
            MainMsg::VMsLoaded(vms) => {
                self.is_loading = false;
                self.error = None;
                self.vms = make_rows(vms);
            },
            MainMsg::LoadError(error) => {
                self.is_loading = false;
                self.error = Some(error);
            },
            MainMsg::StartVM(vmid, node) => {
                effects = self.begin(PowerAction::Start, vmid, node);
            },
            MainMsg::StopVM(vmid, node) => {
                effects = self.begin(PowerAction::Stop, vmid, node);
            },
            MainMsg::ConnectVM(vmid, node) => {
                effects.push(
                    MainEffect::OpenDisplay {
                        host: self.session.server.host.clone(),
                        port: self.session.server.port,
                        ticket: self.session.tokens.ticket.clone(),
                        csrf: self.session.tokens.csrf_token.clone(),
                        node,
                        vmid,
                    },
                );
                proof {
                    assert(effects.deep_view() =~= seq![old(self)@.display_effect(vmid, node@)]);
                }
            },
            MainMsg::VMOperationStarted(vmid) => {
                self.operating_vms.insert(vmid);
                self.set_vm_operating(vmid, true);
            },
            MainMsg::VMOperationComplete(vmid, action) => {
                self.operating_vms.remove(&vmid);
                self.set_vm_operating(vmid, false);
                let mut toast = String::from_str("VM ");
                push_decimal(&mut toast, vmid as u64);
                toast.append(" ");
                toast.append(action.as_str());
                effects.push(MainEffect::Input(MainMsg::ShowToast(toast)));
                effects.push(MainEffect::Input(MainMsg::LoadVMs));
                proof {
                    assert(effects.deep_view() =~= old(self)@.effects(msg@));
                }
            },
            MainMsg::VMOperationError(vmid, error) => {
                self.operating_vms.remove(&vmid);
                self.set_vm_operating(vmid, false);
                let mut toast = String::from_str("Error: ");
                toast.append(error.as_str());
                effects.push(MainEffect::Input(MainMsg::ShowToast(toast)));
                proof {
                    assert(effects.deep_view() =~= old(self)@.effects(msg@));
                }
            },
            MainMsg::ShowToast(message) => {
                self.toast_message = Some(message);
            },
            MainMsg::Logout => {
                effects.push(MainEffect::Output(MainOutput::Logout));
                proof {
                    assert(effects.deep_view() =~= seq![
                        MainEffectView::Output(MainOutput::Logout),
                    ]);
                }
            },
        }
        effects
    }

    /// Whether the wheel that says that the list is loading is shown.
    pub fn shows_loading(&self) -> (yes: bool)
        ensures
            yes == self@.shows_loading(),
    {
        self.is_loading && self.vms.len() == 0
    }

    /// Whether the error pane is shown.
    pub fn shows_error(&self) -> (yes: bool)
        ensures
            yes == self@.shows_error(),
    {
        self.error.is_some() && self.vms.len() == 0
    }

    /// Whether the pane that says that there are no machines is shown.
    pub fn shows_empty(&self) -> (yes: bool)
        ensures
            yes == self@.shows_empty(),
    {
        !self.is_loading && self.error.is_none() && self.vms.len() == 0
    }
}

/// While a machine is marked as operating, an order to start or to stop it is
/// turned down on the spot: nothing is asked of the outside, so no request is
/// made, and nothing of the page changes but the toast, which every message
/// takes away.
pub proof fn lemma_second_operation_is_rejected(page: MainPageView, vmid: u32, node: Seq<char>)
    requires
        page.operating_vms.contains(vmid),
    ensures
        page.effects(MainMsgView::StartVM(vmid, node)) == Seq::<MainEffectView>::empty(),
        page.effects(MainMsgView::StopVM(vmid, node)) == Seq::<MainEffectView>::empty(),
        page.after(MainMsgView::StartVM(vmid, node)) == (MainPageView {
            toast_message: None,
            ..page
        }),
        page.after(MainMsgView::StopVM(vmid, node)) == (MainPageView {
            toast_message: None,
            ..page
        }),
{
}

/// An order that is taken marks its machine as operating, so that the next
/// order for the machine is turned down; the mark stays until the operation
/// is reported as complete or as failed, and goes then.
pub proof fn lemma_operation_marks(page: MainPageView, vmid: u32, node: Seq<char>, other: MainMsgView)
    ensures
        page.after(MainMsgView::StartVM(vmid, node)).operating_vms.contains(vmid),
        page.after(MainMsgView::StopVM(vmid, node)).operating_vms.contains(vmid),
        !page.operating_vms.contains(vmid) ==> page.effects(MainMsgView::StartVM(vmid, node)).len()
            == 1,
        page.operating_vms.contains(vmid) && !(other matches MainMsgView::VMOperationComplete(
            done,
            _,
        ) && done == vmid) && !(other matches MainMsgView::VMOperationError(failed, _) && failed
            == vmid) ==> page.after(other).operating_vms.contains(vmid),
        !page.after(MainMsgView::VMOperationComplete(vmid, node)).operating_vms.contains(vmid),
        !page.after(MainMsgView::VMOperationError(vmid, node)).operating_vms.contains(vmid),
{
}

} // verus!
