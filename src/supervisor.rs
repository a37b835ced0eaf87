use vstd::prelude::*;
use crate::process::{build_invocation, invocation_of, Invocation, Platform, ProcessSpec};

verus! {

/// Where a supervisor is in its life: `Idle` before `start`, `Launching`
/// while workers are spawned one by one, `Running` once every worker was
/// spawned, `Failed` after a spawn failed (the batch is abandoned), and
/// `Stopped` after `shutdown`.
#[derive(Clone, Copy, PartialEq, Eq, Structural, Debug)]
pub enum Phase {
    Idle,
    Launching,
    Running,
    Failed,
    Stopped,
}

/// Why the host could not launch a worker, with the system's message.
pub enum LaunchCause {
    /// The directory of the running executable could not be determined.
    PathResolution(String),
    /// The worker's error log could not be created.
    LogFile(String),
    /// The system refused to create the process.
    Spawn(String),
}

/// The launch of the worker at `index` (whose binary is `binary`) failed.
pub struct LaunchError {
    pub index: usize,
    pub binary: String,
    pub cause: LaunchCause,
}

/// What the host reports after it tried to spawn the requested worker.
pub enum LaunchEvent<H> {
    Spawned(H),
    Failed(LaunchCause),
}

/// What the host must do next during startup.
pub enum LaunchAction {
    /// Spawn the worker `index` as `invocation` describes, and report back.
    Spawn { index: usize, invocation: Invocation },
    /// Every worker runs; startup is complete.
    Finished,
    /// Startup is abandoned; the workers already spawned stay registered so
    /// that `shutdown` still reaches them.
    Abort(LaunchError),
}

/// The supervisor as a mathematical value: the specs and runtime parameters
/// it launches with, its registry of slots (one per launched spec, in launch
/// order), and its phase.
pub struct SupervisorView<H> {
    pub specs: Seq<ProcessSpec>,
    pub data_dir: Option<String>,
    pub debug: bool,
    pub platform: Platform,
    pub slots: Seq<Option<H>>,
    pub phase: Phase,
}

/// Launches a fixed list of workers in order and owns the registry of their
/// handles until shutdown. `H` is the host's process handle.
pub struct Supervisor<H> {
    specs: Vec<ProcessSpec>,
    data_dir: Option<String>,
    debug: bool,
    platform: Platform,
    slots: Vec<Option<H>>,
    phase: Phase,
}

impl<H> View for Supervisor<H> {
    type V = SupervisorView<H>;

    closed spec fn view(&self) -> SupervisorView<H> {
        SupervisorView {
            specs: self.specs@,
            data_dir: self.data_dir,
            debug: self.debug,
            platform: self.platform,
            slots: self.slots@,
            phase: self.phase,
        }
    }
}

/// The handles held by the occupied slots, in slot order.
pub open spec fn live_handles<H>(slots: Seq<Option<H>>) -> Seq<H>
    decreases slots.len(),
{
    if slots.len() == 0 {
        Seq::empty()
    } else {
        let rest = live_handles(slots.drop_last());
        match slots.last() {
            Some(h) => rest.push(h),
            None => rest,
        }
    }
}

/// One event per handle: every spawn succeeded, in this order.
pub open spec fn spawned_events<H>(handles: Seq<H>) -> Seq<LaunchEvent<H>> {
    handles.map_values(|h: H| LaunchEvent::Spawned(h))
}

/// `a` asks the host to spawn worker `i` of `s`, with its exact invocation.
pub open spec fn requests_spawn<H>(s: SupervisorView<H>, a: LaunchAction, i: int) -> bool {
    match a {
        LaunchAction::Spawn { index, invocation } => {
            &&& index == i
            &&& 0 <= i < s.specs.len()
            &&& invocation_of(invocation, s.specs[i], s.data_dir, s.debug, s.platform)
        },
        _ => false,
    }
}

impl<H> SupervisorView<H> {
    /// The registry never has more slots than there are specs; before shutdown
    /// every slot holds a handle, after it none does; `Running` means one slot
    /// per spec, and `Launching` or `Failed` means some spec was not spawned.
    pub open spec fn wf(self) -> bool {
        &&& self.slots.len() <= self.specs.len()
        &&& self.phase != Phase::Stopped ==> forall|i: int|
            0 <= i < self.slots.len() ==> (#[trigger] self.slots[i]) is Some
        &&& self.phase == Phase::Stopped ==> forall|i: int|
            0 <= i < self.slots.len() ==> (#[trigger] self.slots[i]) is None
        &&& self.phase == Phase::Idle ==> self.slots.len() == 0
        &&& (self.phase == Phase::Launching || self.phase == Phase::Failed) ==> self.slots.len()
            < self.specs.len()
        &&& self.phase == Phase::Running ==> self.slots.len() == self.specs.len()
    }

    /// The state after `start`: launching, or already running when there is
    /// nothing to launch.
    pub open spec fn started(self) -> SupervisorView<H> {
        SupervisorView {
            phase: if self.specs.len() == 0 { Phase::Running } else { Phase::Launching },
            ..self
        }
    }

    /// The state after the host reports on the pending spawn. A report that
    /// comes outside launching changes nothing.
    pub open spec fn after_event(self, e: LaunchEvent<H>) -> SupervisorView<H> {
        if self.phase != Phase::Launching {
            self
        } else {
            match e {
                LaunchEvent::Spawned(h) => SupervisorView {
                    slots: self.slots.push(Some(h)),
                    phase: if self.slots.len() + 1 == self.specs.len() {
                        Phase::Running
                    } else {
                        Phase::Launching
                    },
                    ..self
                },
                LaunchEvent::Failed(_) => SupervisorView { phase: Phase::Failed, ..self },
            }
        }
    }

    /// The state after a sequence of reports.
    pub open spec fn after_events(self, es: Seq<LaunchEvent<H>>) -> SupervisorView<H>
        decreases es.len(),
    {
        if es.len() == 0 {
            self
        } else {
            self.after_event(es[0]).after_events(es.drop_first())
        }
    }

    /// The state after `shutdown`: every slot empty, the count of slots kept.
    pub open spec fn after_shutdown(self) -> SupervisorView<H> {
        SupervisorView {
            slots: Seq::new(self.slots.len(), |i: int| None),
            phase: Phase::Stopped,
            ..self
        }
    }
}

impl<H> Supervisor<H> {
    /// A supervisor for `specs`, not started, with an empty registry.
    pub fn new(
        specs: Vec<ProcessSpec>,
        data_dir: Option<String>,
        debug: bool,
        platform: Platform,
    ) -> (r: Supervisor<H>)
        ensures
            r@ == (SupervisorView::<H> {
                specs: specs@,
                data_dir,
                debug,
                platform,
                slots: Seq::empty(),
                phase: Phase::Idle,
            }),
            r@.wf(),
    {
        Supervisor { specs, data_dir, debug, platform, slots: Vec::new(), phase: Phase::Idle }
    }

    pub fn phase(&self) -> (r: Phase)
        ensures
            r == self@.phase,
    {
        self.phase
    }

    /// The number of slots in the registry.
    pub fn slot_count(&self) -> (r: usize)
        ensures
            r == self@.slots.len(),
    {
        self.slots.len()
    }

    /// Whether slot `i` exists and holds a handle.
    pub fn is_occupied(&self, i: usize) -> (r: bool)
        ensures
            r == (i < self@.slots.len() && self@.slots[i as int] is Some),
    {
        i < self.slots.len() && self.slots[i].is_some()
    }

    /// The handle in slot `i`, if that slot exists and is occupied.
    pub fn handle(&self, i: usize) -> (r: Option<&H>)
        ensures
            i < self@.slots.len() ==> r == (match self@.slots[i as int] {
                Some(h) => Some(&h),
                None => None,
            }),
            i >= self@.slots.len() ==> r is None,
    {
        if i < self.slots.len() {
            self.slots[i].as_ref()
        } else {
            None
        }
    }

    /// Begins startup: asks for the first worker, or finishes at once when
    /// there are no specs.
    pub fn start(&mut self) -> (r: LaunchAction)
        requires
            old(self)@.wf(),
            old(self)@.phase == Phase::Idle,
        ensures
            final(self)@ == old(self)@.started(),
            final(self)@.wf(),
            old(self)@.specs.len() > 0 ==> requests_spawn(final(self)@, r, 0),
            old(self)@.specs.len() == 0 ==> r is Finished,
    {
        if self.specs.len() == 0 {
            self.phase = Phase::Running;
            LaunchAction::Finished
        } else {
            self.phase = Phase::Launching;
            let invocation = build_invocation(
                &self.specs[0],
                &self.data_dir,
                self.debug,
                self.platform,
            );
            LaunchAction::Spawn { index: 0, invocation }
        }
    }

    /// Records the host's report on the pending spawn of worker `i` (the
    /// number of slots so far). A handle takes the next slot, then the next
    /// worker is requested or startup finishes. A failure abandons the batch
    /// and names worker `i`; the registry is kept as it is.
    pub fn on_launch(&mut self, event: LaunchEvent<H>) -> (r: LaunchAction)
        requires
            old(self)@.wf(),
            old(self)@.phase == Phase::Launching,
        ensures
            final(self)@ == old(self)@.after_event(event),
            final(self)@.wf(),
            ({
                let i = old(self)@.slots.len() as int;
                match event {
                    LaunchEvent::Spawned(_) => if i + 1 < old(self)@.specs.len() {
                        requests_spawn(final(self)@, r, i + 1)
                    } else {
                        r is Finished
                    },
                    LaunchEvent::Failed(c) => r == LaunchAction::Abort(
                        LaunchError { index: i as usize, binary: old(self)@.specs[i].binary, cause: c },
                    ),
                }
            }),
    {
        let i = self.slots.len();
        let n = self.specs.len();
        assert(i < n);
        match event {
            LaunchEvent::Spawned(h) => {
                self.slots.push(Some(h));
                if i + 1 < n {
                    let invocation = build_invocation(
                        &self.specs[i + 1],
                        &self.data_dir,
                        self.debug,
                        self.platform,
                    );
                    LaunchAction::Spawn { index: i + 1, invocation }
                } else {
                    self.phase = Phase::Running;
                    LaunchAction::Finished
                }
            },
            LaunchEvent::Failed(cause) => {
                self.phase = Phase::Failed;
                let binary = self.specs[i].binary.clone();
                LaunchAction::Abort(LaunchError { index: i, binary, cause })
            },
        }
    }

    /// Empties every slot and hands back the handles they held, in slot
    /// order, for the host to terminate. Safe to call in any phase and any
    /// number of times: a second call finds every slot empty.
    pub fn shutdown(&mut self) -> (r: Vec<H>)
        requires
            old(self)@.wf(),
        ensures
            final(self)@ == old(self)@.after_shutdown(),
            final(self)@.wf(),
            r@ == live_handles(old(self)@.slots),
    {
        let mut slots: Vec<Option<H>> = Vec::new();
        std::mem::swap(&mut slots, &mut self.slots);
        let ghost before = slots@;
        let n = slots.len();
        let mut out: Vec<H> = Vec::new();
        let mut i: usize = 0;
        while i < n
            invariant
                n == slots@.len(),
                n == before.len(),
                i <= n,
                forall|k: int| i <= k < n ==> slots@[k] == before[k],
                out@ == live_handles(before.subrange(0, i as int)),
            decreases n - i,
        {
            let slot = slots[i].take();
            match slot {
                Some(h) => out.push(h),
                None => {},
            }
            proof {
                assert(before.subrange(0, i + 1).drop_last() =~= before.subrange(0, i as int));
            }
            i = i + 1;
        }
        let mut cleared: Vec<Option<H>> = Vec::new();
        let mut j: usize = 0;
        while j < n
            invariant
                j <= n,
                cleared@ == Seq::new(j as nat, |k: int| None::<H>),
            decreases n - j,
        {
            cleared.push(None);
            j = j + 1;
            assert(cleared@ =~= Seq::new(j as nat, |k: int| None::<H>));
        }
        self.slots = cleared;
        self.phase = Phase::Stopped;
        assert(before.subrange(0, n as int) =~= before);
        assert(self@ =~= old(self)@.after_shutdown());
        out
    }
}

/// Once every worker is spawned, the registry holds one occupied slot per
/// spec, in spec order: starting a supervisor over N specs and reporting N
/// successful spawns leaves it running with slot i holding the i-th handle.
pub proof fn lemma_launch_fills_registry<H>(s: SupervisorView<H>, handles: Seq<H>)
    requires
        s.wf(),
        s.phase == Phase::Idle,
        handles.len() == s.specs.len(),
    ensures
        ({
            let t = s.started().after_events(spawned_events(handles));
            &&& t.wf()
            &&& t.phase == Phase::Running
            &&& t.slots.len() == s.specs.len()
            &&& t.slots == handles.map_values(|h: H| Some(h))
        }),
{
    let s0 = s.started();
    if handles.len() == 0 {
        assert(spawned_events(handles) =~= Seq::<LaunchEvent<H>>::empty());
        assert(s0.slots =~= handles.map_values(|h: H| Some(h)));
    } else {
        assert(handles.subrange(0, 0).map_values(|h: H| Some(h)) =~= s0.slots);
        assert(handles.subrange(0, handles.len() as int) =~= handles);
        lemma_spawn_rest(s0, handles);
    }
}

proof fn lemma_spawn_rest<H>(s: SupervisorView<H>, handles: Seq<H>)
    requires
        s.wf(),
        s.phase == Phase::Launching,
        handles.len() == s.specs.len(),
        s.slots == handles.subrange(0, s.slots.len() as int).map_values(|h: H| Some(h)),
    ensures
        ({
            let t = s.after_events(
                spawned_events(handles.subrange(s.slots.len() as int, handles.len() as int)),
            );
            &&& t.wf()
            &&& t.phase == Phase::Running
            &&& t.slots == handles.map_values(|h: H| Some(h))
        }),
    decreases handles.len() - s.slots.len(),
{
    let k = s.slots.len() as int;
    let n = handles.len() as int;
    let es = spawned_events(handles.subrange(k, n));
    let s1 = s.after_event(es[0]);
    assert(es[0] == LaunchEvent::Spawned(handles[k]));
    assert(s1.slots =~= handles.subrange(0, k + 1).map_values(|h: H| Some(h)));
    assert(es.drop_first() =~= spawned_events(handles.subrange(k + 1, n)));
    if k + 1 == n {
        assert(es.drop_first() =~= Seq::<LaunchEvent<H>>::empty());
        assert(handles.subrange(0, k + 1) =~= handles);
    } else {
        lemma_spawn_rest(s1, handles);
    }
}

proof fn lemma_no_live_handles<H>(slots: Seq<Option<H>>)
    requires
        forall|i: int| 0 <= i < slots.len() ==> (#[trigger] slots[i]) is None,
    ensures
        live_handles(slots) == Seq::<H>::empty(),
    decreases slots.len(),
{
    if slots.len() > 0 {
        lemma_no_live_handles(slots.drop_last());
    }
}

proof fn lemma_live_handles_all<H>(slots: Seq<Option<H>>)
    requires
        forall|i: int| 0 <= i < slots.len() ==> (#[trigger] slots[i]) is Some,
    ensures
        live_handles(slots).len() == slots.len(),
        forall|i: int| 0 <= i < slots.len() ==> slots[i] == Some(#[trigger] live_handles(slots)[i]),
    decreases slots.len(),
{
    if slots.len() > 0 {
        lemma_live_handles_all(slots.drop_last());
    }
}

/// Shutdown of a running registry hands back every handle, slot i's handle at
/// position i, whatever has become of the processes behind them, and leaves
/// all N slots empty.
pub proof fn lemma_shutdown_takes_every_handle<H>(s: SupervisorView<H>)
    requires
        s.wf(),
        s.phase == Phase::Running,
    ensures
        live_handles(s.slots).len() == s.specs.len(),
        forall|i: int|
            0 <= i < s.slots.len() ==> s.slots[i] == Some(#[trigger] live_handles(s.slots)[i]),
        s.after_shutdown().slots.len() == s.specs.len(),
        forall|i: int|
            0 <= i < s.specs.len() ==> (#[trigger] s.after_shutdown().slots[i]) is None,
        s.after_shutdown().wf(),
{
    lemma_live_handles_all(s.slots);
}

/// Shutdown is idempotent: a second shutdown hands back nothing and leaves
/// the supervisor as the first one left it.
pub proof fn lemma_shutdown_idempotent<H>(s: SupervisorView<H>)
    requires
        s.wf(),
    ensures
        s.after_shutdown().after_shutdown() == s.after_shutdown(),
        live_handles(s.after_shutdown().slots) == Seq::<H>::empty(),
{
    let t = s.after_shutdown();
    assert(t.after_shutdown().slots =~= t.slots);
    assert(t.after_shutdown() =~= t);
    lemma_no_live_handles(t.slots);
}

} // verus!
