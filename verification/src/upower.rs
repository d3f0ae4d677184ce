//! The power-device registry and its reconciliation state machine.
//!
//! The registry holds the current snapshot of discovered devices and the
//! state of the background reconciliation loop. The loop listens on two
//! hotplug streams (device added, device removed); every item from a live
//! stream triggers a full re-enumeration whose result replaces the
//! snapshot wholesale, and a change notification fires once per completed
//! pass. When one stream ends, monitoring continues on the other; when
//! both have ended the loop halts for good and the snapshot is frozen at
//! its last value. A registry whose initial setup failed is inert: it
//! answers reads with an empty list forever.
//!
//! The bus itself is driven by the caller: stream items and the outcomes
//! of re-enumeration passes are handed in as plain values, and every
//! decision — state transitions, snapshot replacement, notification — is
//! made, and verified, here.

use vstd::prelude::*;

use crate::device::Device;

verus! {

/// One observation made on the hotplug streams: an item from a stream, or
/// a stream reaching its end.
#[derive(Clone, Copy, Debug, PartialEq, Eq, Structural)]
pub enum HotplugEvent {
    /// The device-added stream yielded an item.
    Added,
    /// The device-removed stream yielded an item.
    Removed,
    /// The device-added stream ended.
    AddedEnded,
    /// The device-removed stream ended.
    RemovedEnded,
}

/// The reconciliation loop's state: which hotplug streams are still live.
#[derive(Clone, Copy, Debug, PartialEq, Eq, Structural)]
pub enum LoopState {
    /// Both streams are live.
    Watching,
    /// Only the device-added stream is live; the removed stream ended.
    AddedOnly,
    /// Only the device-removed stream is live; the added stream ended.
    RemovedOnly,
    /// Both streams have ended (or the loop never started); terminal.
    Halted,
}

/// The outcome of one re-enumeration pass, as performed by the caller on
/// the bus: either the device-path query itself failed, or it returned a
/// list of paths, each of which the caller tried to build a descriptor
/// for (`None` where that one device's build failed).
#[derive(Debug)]
pub enum EnumerationOutcome {
    /// The device-path query failed.
    QueryFailed,
    /// Per-path descriptor build outcomes, in enumeration order.
    Built(Vec<Option<Device>>),
}

impl EnumerationOutcome {
    /// The outcome as a ghost value: `None` for a failed path query,
    /// otherwise the per-path build outcomes.
    pub open spec fn model(self) -> Option<Seq<Option<Device>>> {
        match self {
            EnumerationOutcome::QueryFailed => None,
            EnumerationOutcome::Built(list) => Some(list@),
        }
    }
}

/// The descriptors a pass contributes to the snapshot: the successfully
/// built ones, in enumeration order, failures skipped.
pub open spec fn spec_collect(outcomes: Seq<Option<Device>>) -> Seq<Device>
    decreases outcomes.len(),
{
    if outcomes.len() == 0 {
        Seq::empty()
    } else {
        let rest = spec_collect(outcomes.drop_last());
        match outcomes.last() {
            Some(d) => rest.push(d),
            None => rest,
        }
    }
}

/// How many of a pass's per-path builds succeeded.
pub open spec fn spec_built_count(outcomes: Seq<Option<Device>>) -> nat
    decreases outcomes.len(),
{
    if outcomes.len() == 0 {
        0
    } else {
        spec_built_count(outcomes.drop_last()) + match outcomes.last() {
            Some(_) => 1nat,
            None => 0nat,
        }
    }
}

/// Law: the snapshot a pass yields has exactly one descriptor per path
/// whose build succeeded — failed single-device builds are skipped, never
/// kept as placeholder entries.
pub proof fn lemma_snapshot_length_counts_built(outcomes: Seq<Option<Device>>)
    ensures
        spec_collect(outcomes).len() == spec_built_count(outcomes),
    decreases outcomes.len(),
{
    if outcomes.len() > 0 {
        lemma_snapshot_length_counts_built(outcomes.drop_last());
    }
}

/// The loop state after one stream observation.
pub open spec fn spec_next_state(s: LoopState, e: HotplugEvent) -> LoopState {
    match (s, e) {
        (LoopState::Watching, HotplugEvent::AddedEnded) => LoopState::RemovedOnly,
        (LoopState::Watching, HotplugEvent::RemovedEnded) => LoopState::AddedOnly,
        (LoopState::AddedOnly, HotplugEvent::AddedEnded) => LoopState::Halted,
        (LoopState::RemovedOnly, HotplugEvent::RemovedEnded) => LoopState::Halted,
        _ => s,
    }
}

/// Whether a stream observation triggers a re-enumeration pass: exactly
/// the items that arrive on a stream that is still live.
pub open spec fn spec_triggers_pass(s: LoopState, e: HotplugEvent) -> bool {
    match (s, e) {
        (LoopState::Watching, HotplugEvent::Added) => true,
        (LoopState::Watching, HotplugEvent::Removed) => true,
        (LoopState::AddedOnly, HotplugEvent::Added) => true,
        (LoopState::RemovedOnly, HotplugEvent::Removed) => true,
        _ => false,
    }
}

/// The registry's observable state as a ghost value.
#[verifier::ext_equal]
pub ghost struct RegistryModel {
    /// Whether initial setup (bus connect, proxy, first enumeration)
    /// succeeded.
    pub init_success: bool,
    /// The reconciliation loop's state.
    pub loop_state: LoopState,
    /// The current snapshot.
    pub devices: Seq<Device>,
    /// How many change notifications have fired.
    pub notifications: nat,
}

/// The state of a registry whose initial setup failed: inert, with an
/// empty snapshot and the loop never started.
pub open spec fn degraded_model() -> RegistryModel {
    RegistryModel {
        init_success: false,
        loop_state: LoopState::Halted,
        devices: Seq::empty(),
        notifications: 0,
    }
}

/// A stream observation applied to the registry: only the loop state
/// moves; the snapshot is untouched and nothing is notified.
pub open spec fn step_stream_event(m: RegistryModel, e: HotplugEvent) -> RegistryModel {
    RegistryModel {
        init_success: m.init_success,
        loop_state: spec_next_state(m.loop_state, e),
        devices: m.devices,
        notifications: m.notifications,
    }
}

/// A re-enumeration pass applied to the registry. While the loop is live
/// the pass's result replaces the snapshot wholesale — the successfully
/// built descriptors on success, the empty list when the path query
/// failed — and one notification fires. After the loop has halted a pass
/// changes nothing (the loop never requests one).
pub open spec fn step_pass(m: RegistryModel, outcome: Option<Seq<Option<Device>>>) -> RegistryModel {
    if m.loop_state == LoopState::Halted {
        m
    } else {
        RegistryModel {
            init_success: m.init_success,
            loop_state: m.loop_state,
            devices: match outcome {
                None => Seq::empty(),
                Some(list) => spec_collect(list),
            },
            notifications: m.notifications + 1,
        }
    }
}

/// One step of the reconciliation loop's life, as a ghost value: a stream
/// observation, or a pass with its outcome.
pub ghost enum ReconcileStep {
    StreamEvent(HotplugEvent),
    Pass(Option<Seq<Option<Device>>>),
}

/// One reconciliation step applied to the registry.
pub open spec fn step(m: RegistryModel, s: ReconcileStep) -> RegistryModel {
    match s {
        ReconcileStep::StreamEvent(e) => step_stream_event(m, e),
        ReconcileStep::Pass(o) => step_pass(m, o),
    }
}

/// A whole run of the reconciliation loop applied to the registry.
pub open spec fn run(m: RegistryModel, trace: Seq<ReconcileStep>) -> RegistryModel
    decreases trace.len(),
{
    if trace.len() == 0 {
        m
    } else {
        step(run(m, trace.drop_last()), trace.last())
    }
}

/// Law: once the loop has halted, the registry is frozen — under any
/// further observations and passes the state stays halted, the snapshot
/// returned to readers never changes again, and no notification fires.
pub proof fn lemma_halted_registry_frozen(m: RegistryModel, trace: Seq<ReconcileStep>)
    requires
        m.loop_state == LoopState::Halted,
    ensures
        run(m, trace) == m,
    decreases trace.len(),
{
    if trace.len() > 0 {
        lemma_halted_registry_frozen(m, trace.drop_last());
        assert(run(m, trace) =~= m);
    }
}

/// Law: no reconciliation step changes the setup flag: a registry that
/// started degraded reports `initialized() == false` forever, and one
/// that started live reports `true` forever.
pub proof fn lemma_init_flag_constant(m: RegistryModel, trace: Seq<ReconcileStep>)
    ensures
        run(m, trace).init_success == m.init_success,
    decreases trace.len(),
{
    if trace.len() > 0 {
        lemma_init_flag_constant(m, trace.drop_last());
    }
}

/// Law: a registry whose initial bus setup failed is permanently inert:
/// for any sequence of reconciliation steps it still reports
/// `initialized() == false`, an empty device list, and no notification
/// ever fires.
pub proof fn lemma_degraded_registry_inert(trace: Seq<ReconcileStep>)
    ensures
        !run(degraded_model(), trace).init_success,
        run(degraded_model(), trace).devices.len() == 0,
        run(degraded_model(), trace).notifications == 0,
{
    lemma_halted_registry_frozen(degraded_model(), trace);
}

/// Law: a pass never mixes enumeration generations. The snapshot after a
/// pass is either exactly the snapshot from before it (the loop had
/// halted, nothing ran) or exactly the list built from that single pass's
/// outcomes — empty when the path query failed. Descriptors of the
/// previous generation never survive into, or mingle with, the new one.
pub proof fn lemma_pass_yields_single_generation(
    m: RegistryModel,
    outcome: Option<Seq<Option<Device>>>,
)
    ensures
        m.loop_state == LoopState::Halted ==> step_pass(m, outcome).devices == m.devices,
        m.loop_state != LoopState::Halted ==> step_pass(m, outcome).devices == match outcome {
            None => Seq::<Device>::empty(),
            Some(list) => spec_collect(list),
        },
{
}

/// The top-level registry: owns the device snapshot and the
/// reconciliation loop's state, and answers the read interface.
pub struct UPower {
    init_success: bool,
    loop_state: LoopState,
    devices: Vec<Device>,
    notifications: Ghost<nat>,
}

impl View for UPower {
    type V = RegistryModel;

    closed spec fn view(&self) -> RegistryModel {
        RegistryModel {
            init_success: self.init_success,
            loop_state: self.loop_state,
            devices: self.devices@,
            notifications: self.notifications@,
        }
    }
}

impl UPower {
    /// A registry whose initial setup failed — bus connect, proxy
    /// creation or the first enumeration — before monitoring could start:
    /// inert, empty, and permanently uninitialized.
    pub fn new() -> (r: UPower)
        ensures
            r@ == degraded_model(),
    {
        let r = UPower {
            init_success: false,
            loop_state: LoopState::Halted,
            devices: Vec::new(),
            notifications: Ghost(0nat),
        };
        proof {
            assert(r@ =~= degraded_model());
        }
        r
    }

    /// A registry whose initial setup succeeded, seeded with the first
    /// enumeration's per-path build outcomes: the snapshot holds the
    /// successfully built descriptors in order, and the reconciliation
    /// loop starts with both hotplug streams live.
    pub fn with_initial_devices(outcomes: Vec<Option<Device>>) -> (r: UPower)
        ensures
            r@.init_success,
            r@.loop_state == LoopState::Watching,
            r@.devices == spec_collect(outcomes@),
            r@.notifications == 0,
    {
        let devices = Self::parse_devices(outcomes);
        UPower {
            init_success: true,
            loop_state: LoopState::Watching,
            devices,
            notifications: Ghost(0nat),
        }
    }

    /// Whether initial setup succeeded and monitoring went live.
    pub fn initialized(&self) -> (r: bool)
        ensures
            r == self@.init_success,
    {
        self.init_success
    }

    /// Keeps the successfully built descriptors of one enumeration pass,
    /// in enumeration order, skipping the paths whose build failed.
    pub fn parse_devices(outcomes: Vec<Option<Device>>) -> (r: Vec<Device>)
        ensures
            r@ == spec_collect(outcomes@),
    {
        let mut devices: Vec<Device> = Vec::new();
        let n = outcomes.len();
        let mut i: usize = 0;
        while i < n
            invariant
                n == outcomes@.len(),
                i <= n,
                devices@ == spec_collect(outcomes@.subrange(0, i as int)),
            decreases n - i,
        {
            match &outcomes[i] {
                Some(d) => devices.push(d.clone()),
                None => (),
            }
            proof {
                let k = i as int;
                assert(outcomes@.subrange(0, k + 1).drop_last() =~= outcomes@.subrange(0, k));
                assert(outcomes@.subrange(0, k + 1).last() == outcomes@[k]);
            }
            i += 1;
        }
        proof {
            assert(outcomes@.subrange(0, n as int) =~= outcomes@);
        }
        devices
    }

    /// A point-in-time clone of the current snapshot. Always succeeds;
    /// the empty list is a well-defined answer, not an error.
    pub fn get_devices(&self) -> (r: Vec<Device>)
        ensures
            r@ == self@.devices,
    {
        let mut r: Vec<Device> = Vec::new();
        let n = self.devices.len();
        let mut i: usize = 0;
        while i < n
            invariant
                n == self.devices@.len(),
                i <= n,
                r@ == self.devices@.subrange(0, i as int),
            decreases n - i,
        {
            r.push(self.devices[i].clone());
            proof {
                let k = i as int;
                assert(self.devices@.subrange(0, k).push(self.devices@[k]) =~= self.devices@
                    .subrange(0, k + 1));
            }
            i += 1;
        }
        proof {
            assert(self.devices@.subrange(0, n as int) =~= self.devices@);
        }
        r
    }

    /// Feeds one hotplug-stream observation to the reconciliation loop.
    /// Only the loop state moves; the snapshot is untouched. Returns
    /// whether the caller has to run a re-enumeration pass — exactly when
    /// the observation is an item from a still-live stream.
    pub fn on_stream_event(&mut self, event: HotplugEvent) -> (reenumerate: bool)
        ensures
            final(self)@ == step_stream_event(old(self)@, event),
            reenumerate == spec_triggers_pass(old(self)@.loop_state, event),
    {
        let next = match (self.loop_state, event) {
            (LoopState::Watching, HotplugEvent::AddedEnded) => LoopState::RemovedOnly,
            (LoopState::Watching, HotplugEvent::RemovedEnded) => LoopState::AddedOnly,
            (LoopState::AddedOnly, HotplugEvent::AddedEnded) => LoopState::Halted,
            (LoopState::RemovedOnly, HotplugEvent::RemovedEnded) => LoopState::Halted,
            (s, _) => s,
        };
        let reenumerate = match (self.loop_state, event) {
            (LoopState::Watching, HotplugEvent::Added) => true,
            (LoopState::Watching, HotplugEvent::Removed) => true,
            (LoopState::AddedOnly, HotplugEvent::Added) => true,
            (LoopState::RemovedOnly, HotplugEvent::Removed) => true,
            _ => false,
        };
        self.loop_state = next;
        proof {
            assert(self@ =~= step_stream_event(old(self)@, event));
        }
        reenumerate
    }

    /// Applies the outcome of one re-enumeration pass: replaces the
    /// snapshot wholesale — with the pass's successfully built
    /// descriptors, or with the empty list when the device-path query
    /// failed — and reports that one change notification fires. A pass
    /// applied after the loop has halted is ignored; the loop never
    /// requests one then.
    pub fn apply_reenumeration(&mut self, outcome: EnumerationOutcome) -> (notified: bool)
        ensures
            final(self)@ == step_pass(old(self)@, outcome.model()),
            notified == (old(self)@.loop_state != LoopState::Halted),
            notified ==> final(self)@.notifications == old(self)@.notifications + 1,
    {
        match self.loop_state {
            LoopState::Halted => false,
            _ => {
                let devices = match outcome {
                    EnumerationOutcome::QueryFailed => Vec::new(),
                    EnumerationOutcome::Built(list) => Self::parse_devices(list),
                };
                self.devices = devices;
                self.notifications = Ghost(self.notifications@ + 1);
                proof {
                    assert(self@ =~= step_pass(old(self)@, outcome.model()));
                }
                true
            },
        }
    }
}

} // verus!
