//! The engine: what to do when a USB device arrives, and what to write to
//! which interface of those the HID subsystem has listed.
//!
//! The engine opens no device and waits for nothing. A driver tells it what
//! happened and carries out what it answers:
//!
//! 1. a device arrived: [`BoardConnection::device_arrived`] says whether it is
//!    a monitored keyboard and how long to let the host settle;
//! 2. the driver waits, has the handle enumerate again and calls
//!    [`BoardConnection::probe`], which says what to write where, or that the
//!    keyboard is not connected;
//! 3. the driver writes and hands the result to
//!    [`BoardConnection::after_write`], which says whether to go on.
//!
//! A run that visits every configured keyboard once takes its plan from
//! [`BoardConnection::sweep`] instead.
//!
//! The decisions themselves are functions of the configuration and a list of
//! interfaces ([`plan_probe`], [`plan_sweep`]); the methods of
//! [`BoardConnection`] apply them to the list its handle holds.
//!
//! The report carries the code of the host's operating system. A failed write
//! ends the process or not as the [`FailurePolicy`] given at construction
//! says.

use crate::config::{first_match, lemma_first_match, Config, KeyboardView};
use crate::hid::{device_list, hid_device_list};
use crate::interface::{
    find_interface_index, first_target, interface_views, lemma_first_target, target_interface,
    HidInterfaceDescriptor, HidInterfaceView,
};
use crate::report::{build_report, report_bytes, HostOs};
use vstd::prelude::*;

verus! {

/// Milliseconds between a keyboard's arrival on the bus and the listing of
/// HID interfaces. The host shows a device before it shows the device's
/// interfaces; the pause lets it catch up. It is tuned by experience and
/// promises nothing: a keyboard whose interface is still missing afterwards
/// is skipped until it arrives again.
pub const SETTLE_DELAY_MS: u64 = 50;

/// The two ways the engine is run.
#[derive(Clone, Copy, Debug, PartialEq, Eq, Structural)]
pub enum Mode {
    /// React to each arrival for as long as the process lives.
    EventDriven,
    /// Visit every configured keyboard once, then leave.
    OneShot,
}

/// What a failed write does to the process.
#[derive(Clone, Copy, Debug, PartialEq, Eq, Structural)]
pub enum FailurePolicy {
    /// The failure ends the process.
    Abort,
    /// The failure is reported and the process goes on.
    Continue,
}

impl FailurePolicy {
    /// The policy recommended for a mode.
    pub open spec fn spec_default_for(mode: Mode) -> FailurePolicy {
        match mode {
            Mode::EventDriven => FailurePolicy::Abort,
            Mode::OneShot => FailurePolicy::Continue,
        }
    }

    /// The policy recommended for a mode: a failed write against a keyboard
    /// that was just matched is a fault worth dying for while reacting to
    /// single arrivals, but must not keep a one-shot run from the keyboards
    /// still to visit.
    #[verifier::when_used_as_spec(spec_default_for)]
    pub fn default_for(mode: Mode) -> (policy: FailurePolicy)
        ensures
            policy == FailurePolicy::spec_default_for(mode),
    {
        match mode {
            Mode::EventDriven => FailurePolicy::Abort,
            Mode::OneShot => FailurePolicy::Continue,
        }
    }
}

/// The answer to a hotplug event.
#[derive(Clone, Copy, Debug, PartialEq, Eq, Structural)]
pub enum Reaction {
    /// Not a monitored keyboard, or a removal: nothing to do.
    Ignore,
    /// The keyboard at position `keyboard` of the configuration arrived:
    /// wait `settle_ms` milliseconds, list the HID interfaces, probe.
    Probe { keyboard: usize, settle_ms: u64 },
}

/// The answer to a write's result.
#[derive(Clone, Copy, Debug, PartialEq, Eq, Structural)]
pub enum Verdict {
    /// Go on with the next event or keyboard.
    Continue,
    /// End the process with a failure.
    Abort,
}

/// What a probe does, as contracts see it.
pub enum ProbePlan {
    NotConfigured,
    NotConnected { keyboard: int },
    Send { keyboard: int, interface: int, path: Seq<u8>, report: Seq<u8> },
}

/// What a probe does.
#[derive(Clone, Debug, PartialEq, Eq)]
pub enum ProbeOutcome {
    /// No configured keyboard carries the identifiers.
    NotConfigured,
    /// The keyboard at position `keyboard` of the configuration shows no
    /// control interface: it is unplugged, or the host has not listed its
    /// interfaces yet. Worth a notice, not an error.
    NotConnected { keyboard: usize },
    /// Write `report`, once, to the interface that opens by `path`. It
    /// stands at position `interface` of the list that was probed and
    /// belongs to the keyboard at position `keyboard` of the configuration.
    Send { keyboard: usize, interface: usize, path: Vec<u8>, report: [u8; 3] },
}

impl View for ProbeOutcome {
    type V = ProbePlan;

    open spec fn view(&self) -> ProbePlan {
        match *self {
            ProbeOutcome::NotConfigured => ProbePlan::NotConfigured,
            ProbeOutcome::NotConnected { keyboard } => ProbePlan::NotConnected {
                keyboard: keyboard as int,
            },
            ProbeOutcome::Send { keyboard, interface, path, report } => ProbePlan::Send {
                keyboard: keyboard as int,
                interface: interface as int,
                path: path@,
                report: report@,
            },
        }
    }
}

impl ProbePlan {
    /// The reports this plan has written, in order: one or none.
    pub open spec fn writes(self) -> Seq<Seq<u8>> {
        match self {
            ProbePlan::Send { report, .. } => seq![report],
            _ => Seq::empty(),
        }
    }
}

/// What to do for the keyboard at position `keyboard`, given the interfaces
/// listed: write the report to its first control interface, or note that it
/// is not connected.
pub open spec fn keyboard_plan(
    keyboards: Seq<KeyboardView>,
    host_os: HostOs,
    keyboard: int,
    interfaces: Seq<HidInterfaceView>,
) -> ProbePlan {
    let ids = keyboards[keyboard].keyboard;
    match first_target(interfaces, ids.vendor_id, ids.product_id) {
        Some(i) => ProbePlan::Send {
            keyboard,
            interface: i,
            path: interfaces[i].path,
            report: report_bytes(host_os),
        },
        None => ProbePlan::NotConnected { keyboard },
    }
}

/// What to do for a device with these identifiers, given the interfaces
/// listed: nothing where no keyboard is configured with them, else the plan
/// of the first keyboard that is.
pub open spec fn probe_plan(
    keyboards: Seq<KeyboardView>,
    host_os: HostOs,
    vendor_id: u16,
    product_id: u16,
    interfaces: Seq<HidInterfaceView>,
) -> ProbePlan {
    match first_match(keyboards, vendor_id, product_id) {
        Some(k) => keyboard_plan(keyboards, host_os, k, interfaces),
        None => ProbePlan::NotConfigured,
    }
}

/// What a run over all configured keyboards does: the plan of each, in the
/// order of the configuration.
pub open spec fn sweep_plan(
    keyboards: Seq<KeyboardView>,
    host_os: HostOs,
    interfaces: Seq<HidInterfaceView>,
) -> Seq<ProbePlan> {
    Seq::new(keyboards.len(), |k: int| keyboard_plan(keyboards, host_os, k, interfaces))
}

/// The answer to a write's result under a policy.
pub open spec fn write_verdict(policy: FailurePolicy, written: bool) -> Verdict {
    if written || policy == FailurePolicy::Continue {
        Verdict::Continue
    } else {
        Verdict::Abort
    }
}

/// The plans of a list of outcomes.
pub open spec fn outcome_views(outcomes: Seq<ProbeOutcome>) -> Seq<ProbePlan> {
    outcomes.map_values(|o: ProbeOutcome| o@)
}

/// What to do for the configured keyboard at position `keyboard`, given a
/// list of HID interfaces.
pub fn plan_keyboard(
    config: &Config,
    host_os: HostOs,
    keyboard: usize,
    interfaces: &[HidInterfaceDescriptor],
) -> (outcome: ProbeOutcome)
    requires
        keyboard < config@.len(),
    ensures
        outcome@ == keyboard_plan(config@, host_os, keyboard as int, interface_views(interfaces@)),
{
    let ids = config.entry(keyboard).keyboard;
    match find_interface_index(interfaces, ids.vendor_id, ids.product_id) {
        Some(interface) => {
            let path = interfaces[interface].path.clone();
            assert(path@ =~= interfaces@[interface as int].path@);
            assert(interface_views(interfaces@)[interface as int] == interfaces@[interface as int]@);
            ProbeOutcome::Send { keyboard, interface, path, report: build_report(host_os) }
        },
        None => ProbeOutcome::NotConnected { keyboard },
    }
}

/// What to do for a device with these identifiers, given a list of HID
/// interfaces: for a device nobody monitors, nothing; for a monitored
/// keyboard, one write of the report to its first control interface, or the
/// finding that it is not connected.
pub fn plan_probe(
    config: &Config,
    host_os: HostOs,
    vendor_id: u16,
    product_id: u16,
    interfaces: &[HidInterfaceDescriptor],
) -> (outcome: ProbeOutcome)
    ensures
        outcome@ == probe_plan(
            config@,
            host_os,
            vendor_id,
            product_id,
            interface_views(interfaces@),
        ),
{
    match config.match_index(vendor_id, product_id) {
        Some(keyboard) => plan_keyboard(config, host_os, keyboard, interfaces),
        None => ProbeOutcome::NotConfigured,
    }
}

/// What a run over all configured keyboards does, given a list of HID
/// interfaces: for each keyboard, in the order of the configuration, one
/// write or the finding that it is not connected. A keyboard that is not
/// connected does not keep the run from the next.
pub fn plan_sweep(config: &Config, host_os: HostOs, interfaces: &[HidInterfaceDescriptor]) -> (outcomes:
    Vec<ProbeOutcome>)
    ensures
        outcome_views(outcomes@) == sweep_plan(config@, host_os, interface_views(interfaces@)),
{
    let n = config.len();
    let mut outcomes: Vec<ProbeOutcome> = Vec::new();
    let mut k: usize = 0;
    while k < n
        invariant
            k <= n,
            n == config@.len(),
            outcomes@.len() == k,
            forall|j: int|
                0 <= j < k ==> (#[trigger] outcomes@[j])@ == keyboard_plan(
                    config@,
                    host_os,
                    j,
                    interface_views(interfaces@),
                ),
        decreases n - k,
    {
        let outcome = plan_keyboard(config, host_os, k, interfaces);
        outcomes.push(outcome);
        k += 1;
    }
    assert(outcome_views(outcomes@) =~= sweep_plan(
        config@,
        host_os,
        interface_views(interfaces@),
    ));
    outcomes
}

/// The engine: the handle to the HID subsystem, the configuration, the
/// operating system to announce, and the policy on failed writes. No method
/// changes it, so no probe leaves a trace for the next.
pub struct BoardConnection {
    pub hid_api: hidapi::HidApi,
    pub config: Config,
    pub host_os: HostOs,
    pub policy: FailurePolicy,
}

impl BoardConnection {
    /// An engine over `config` that reads the interfaces `hid_api` lists,
    /// announces `host_os` and treats failed writes as `policy` says.
    pub fn new(
        hid_api: hidapi::HidApi,
        config: Config,
        host_os: HostOs,
        policy: FailurePolicy,
    ) -> (connection: BoardConnection)
        ensures
            connection.hid_api == hid_api,
            connection.config == config,
            connection.host_os == host_os,
            connection.policy == policy,
    {
        BoardConnection { hid_api, config, host_os, policy }
    }

    /// The report this engine writes to every keyboard it finds.
    pub fn report(&self) -> (report: [u8; 3])
        ensures
            report@ == report_bytes(self.host_os),
    {
        build_report(self.host_os)
    }

    /// The first interface the handle has listed that is the control
    /// interface of a keyboard with these identifiers; `None` where it has
    /// listed none. A keyboard that arrived on the bus may not show its
    /// interfaces yet: that is `None` too, and no error.
    pub fn find_interface(&self, vendor_id: u16, product_id: u16) -> (found: Option<
        HidInterfaceDescriptor,
    >)
        ensures
            match found {
                Some(d) => target_interface(hid_device_list(self.hid_api), vendor_id, product_id)
                    == Some(d@),
                None => target_interface(hid_device_list(self.hid_api), vendor_id, product_id)
                    is None,
            },
    {
        let mut interfaces = device_list(&self.hid_api);
        let ghost listed = interface_views(interfaces@);
        match find_interface_index(interfaces.as_slice(), vendor_id, product_id) {
            Some(i) => {
                assert(listed[i as int] == interfaces@[i as int]@);
                Some(interfaces.remove(i))
            },
            None => None,
        }
    }

    /// A device with these identifiers arrived on the bus. Most arrivals are
    /// of devices nobody monitors and are ignored; for a monitored keyboard
    /// the answer names the first configured keyboard with these identifiers
    /// and the pause to keep before its interfaces are listed.
    pub fn device_arrived(&self, vendor_id: u16, product_id: u16) -> (reaction: Reaction)
        ensures
            match first_match(self.config@, vendor_id, product_id) {
                Some(k) => reaction == (Reaction::Probe {
                    keyboard: k as usize,
                    settle_ms: SETTLE_DELAY_MS,
                }) && k < self.config@.len(),
                None => reaction == Reaction::Ignore,
            },
    {
        match self.config.match_index(vendor_id, product_id) {
            Some(keyboard) => Reaction::Probe { keyboard, settle_ms: SETTLE_DELAY_MS },
            None => Reaction::Ignore,
        }
    }

    /// A device with these identifiers left the bus. Removals are seen and
    /// ignored.
    pub fn device_left(&self, vendor_id: u16, product_id: u16) -> (reaction: Reaction)
        ensures
            reaction == Reaction::Ignore,
    {
        Reaction::Ignore
    }

    /// What to do for a device with these identifiers, given the interfaces
    /// the handle has listed: for a device nobody monitors, nothing; for a
    /// monitored keyboard, one write of the report to its first control
    /// interface, or the finding that it is not connected.
    pub fn probe(&self, vendor_id: u16, product_id: u16) -> (outcome: ProbeOutcome)
        ensures
            outcome@ == probe_plan(
                self.config@,
                self.host_os,
                vendor_id,
                product_id,
                hid_device_list(self.hid_api),
            ),
    {
        let interfaces = device_list(&self.hid_api);
        plan_probe(&self.config, self.host_os, vendor_id, product_id, interfaces.as_slice())
    }

    /// What a run over all configured keyboards does, given the interfaces
    /// the handle has listed.
    pub fn sweep(&self) -> (outcomes: Vec<ProbeOutcome>)
        ensures
            outcome_views(outcomes@) == sweep_plan(
                self.config@,
                self.host_os,
                hid_device_list(self.hid_api),
            ),
    {
        let interfaces = device_list(&self.hid_api);
        plan_sweep(&self.config, self.host_os, interfaces.as_slice())
    }

    /// What to do after a write: go on after a success; after a failure, as
    /// the policy says.
    pub fn after_write(&self, written: bool) -> (verdict: Verdict)
        ensures
            verdict == write_verdict(self.policy, written),
    {
        if written {
            Verdict::Continue
        } else {
            match self.policy {
                FailurePolicy::Continue => Verdict::Continue,
                FailurePolicy::Abort => Verdict::Abort,
            }
        }
    }
}

/// The line that tells the user that a configured keyboard is not connected.
pub fn not_connected_notice(name: &str) -> (notice: String)
    ensures
        notice@ == "Keeb '"@ + name@ + "' not connected"@,
{
    let mut notice = String::from_str("Keeb '");
    notice.append(name);
    notice.append("' not connected");
    notice
}

/// A device none of whose interfaces is listed gets no write: the probe of
/// its identifiers writes nothing, and in a run over all keyboards each
/// keyboard with these identifiers is found not connected.
pub proof fn lemma_absent_device_gets_no_write(
    keyboards: Seq<KeyboardView>,
    host_os: HostOs,
    vendor_id: u16,
    product_id: u16,
    interfaces: Seq<HidInterfaceView>,
)
    requires
        forall|j: int|
            0 <= j < interfaces.len() ==> !((#[trigger] interfaces[j]).vendor_id == vendor_id
                && interfaces[j].product_id == product_id),
    ensures
        probe_plan(keyboards, host_os, vendor_id, product_id, interfaces).writes().len() == 0,
        forall|k: int|
            0 <= k < keyboards.len() && keyboards[k].keyboard.spec_has_ids(vendor_id, product_id)
                ==> #[trigger] sweep_plan(keyboards, host_os, interfaces)[k]
                == (ProbePlan::NotConnected { keyboard: k }),
{
    lemma_first_target(interfaces, vendor_id, product_id);
    lemma_first_match(keyboards, vendor_id, product_id);
}

/// A probe writes only to an interface that agrees with the keyboard in
/// vendor, product, usage and usage page, and only for a keyboard that is
/// configured with the identifiers probed.
pub proof fn lemma_write_goes_to_control_interface(
    keyboards: Seq<KeyboardView>,
    host_os: HostOs,
    vendor_id: u16,
    product_id: u16,
    interfaces: Seq<HidInterfaceView>,
)
    ensures
        probe_plan(keyboards, host_os, vendor_id, product_id, interfaces) matches ProbePlan::Send {
            keyboard,
            interface,
            path,
            report,
        } ==> {
            &&& 0 <= keyboard < keyboards.len()
            &&& keyboards[keyboard].keyboard.spec_has_ids(vendor_id, product_id)
            &&& 0 <= interface < interfaces.len()
            &&& interfaces[interface].is_target(vendor_id, product_id)
            &&& path == interfaces[interface].path
            &&& report == report_bytes(host_os)
        },
{
    lemma_first_match(keyboards, vendor_id, product_id);
    match first_match(keyboards, vendor_id, product_id) {
        Some(k) => {
            lemma_first_target(interfaces, vendor_id, product_id);
        },
        None => {},
    }
}

/// A probe writes at most once, and exactly once where the keyboard is
/// configured and shows a control interface. Of two such interfaces in one
/// list, equal or not, the earlier is written to and the later is not.
pub proof fn lemma_one_write_per_probe(
    keyboards: Seq<KeyboardView>,
    host_os: HostOs,
    vendor_id: u16,
    product_id: u16,
    interfaces: Seq<HidInterfaceView>,
    i: int,
    j: int,
)
    requires
        first_match(keyboards, vendor_id, product_id) is Some,
        0 <= i <= j < interfaces.len(),
        interfaces[i].is_target(vendor_id, product_id),
        interfaces[j].is_target(vendor_id, product_id),
    ensures
        probe_plan(keyboards, host_os, vendor_id, product_id, interfaces).writes().len() == 1,
        probe_plan(keyboards, host_os, vendor_id, product_id, interfaces) matches ProbePlan::Send {
            interface,
            ..
        } && interface <= i && (i < j ==> interface != j),
{
    lemma_first_target(interfaces, vendor_id, product_id);
}

/// Probing a connected keyboard again writes the same three bytes again:
/// what is written depends on the operating system announced alone, not on
/// the interfaces listed, the moment, or any earlier probe.
pub proof fn lemma_probe_repeats(
    keyboards: Seq<KeyboardView>,
    host_os: HostOs,
    vendor_id: u16,
    product_id: u16,
    first: Seq<HidInterfaceView>,
    second: Seq<HidInterfaceView>,
)
    requires
        first_match(keyboards, vendor_id, product_id) is Some,
        first_target(first, vendor_id, product_id) is Some,
        first_target(second, vendor_id, product_id) is Some,
    ensures
        probe_plan(keyboards, host_os, vendor_id, product_id, first).writes() == seq![
            report_bytes(host_os),
        ],
        probe_plan(keyboards, host_os, vendor_id, product_id, second).writes() == probe_plan(
            keyboards,
            host_os,
            vendor_id,
            product_id,
            first,
        ).writes(),
        report_bytes(host_os).len() == 3,
{
}

} // verus!
