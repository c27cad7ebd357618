use vstd::prelude::*;

use crate::events::{batch, key_batch, key_event, DeviceEvent, KeyCode, KEY_NUMERIC_0, PRESS, RELEASE};

verus! {

/// Pause after the device is created before a hold mode writes its first key event.
pub const SIMULATION_HOLD_DELAY_MS: u64 = 500;

/// Pause after each confirmation press in click mode.
pub const CLICK_PAUSE_MS: u64 = 1000;

/// Extra pause at the end of each click cycle.
pub const CLICK_REST_MS: u64 = 5000;

/// The top-level behaviour chosen by the user.
#[derive(Clone, Copy, Debug, PartialEq, Eq, Structural)]
pub enum KeyBehaviorMode {
    Click,
    Hold,
}

/// How hold mode holds its keys.
#[derive(Clone, Copy, Debug, PartialEq, Eq, Structural)]
pub enum HoldBehaviorMode {
    Continuous,
    Cycle,
}

/// Carried through the configuration; the simulation does not read it.
#[derive(Clone, Copy, Debug, PartialEq, Eq, Structural)]
pub enum ModifierBehaviorMode {
    Click,
    Hold,
}

/// The three behaviours that a run can have.
#[derive(Clone, Copy, Debug, PartialEq, Eq, Structural)]
pub enum SimulationMode {
    Click,
    HoldContinuous,
    HoldCycle,
}

/// Where a run stands.
#[derive(Clone, Copy, Debug, PartialEq, Eq, Structural)]
pub enum Phase {
    /// Before the initial synchronization event.
    Start,
    /// Before the settle delay of the hold modes.
    Settle,
    /// Click mode, at one of the seven steps of its cycle; step 0 polls the running flag.
    Click { step: u8 },
    /// Continuous hold, before every key is pressed.
    PressAll,
    /// Continuous hold, with every key pressed.
    Holding,
    /// Cycle hold, at the top of a pass.
    CycleTop,
    /// Cycle hold, before pressing the key at `index`.
    CycleKey { index: usize },
    /// Cycle hold, with the key at `index` pressed and the interval still to wait.
    CycleHeld { index: usize },
    /// Cycle hold, before releasing the key at `index`.
    CycleRelease { index: usize },
    /// The run is over.
    Finished,
}

/// What the driver of a run does next.
#[derive(Debug)]
pub enum Action {
    /// Write these events to the device, in order.
    Write(Vec<DeviceEvent>),
    /// Sleep this many milliseconds.
    Sleep(u64),
    /// Nothing to do: read the running flag and the interval again and take the next step.
    Recheck,
    /// The run is over.
    Finish,
}

/// An `Action` with its events as a sequence.
pub enum ActionView {
    Write(Seq<DeviceEvent>),
    Sleep(u64),
    Recheck,
    Finish,
}

impl View for Action {
    type V = ActionView;

    open spec fn view(&self) -> ActionView {
        match self {
            Action::Write(v) => ActionView::Write(v@),
            Action::Sleep(ms) => ActionView::Sleep(*ms),
            Action::Recheck => ActionView::Recheck,
            Action::Finish => ActionView::Finish,
        }
    }
}

/// The events that an action writes to the device.
pub open spec fn written_by(a: ActionView) -> Seq<DeviceEvent> {
    match a {
        ActionView::Write(w) => w,
        _ => Seq::empty(),
    }
}

/// The result of one step: the next phase, the interval held for the current pass, and
/// the action.
pub struct Next {
    pub phase: Phase,
    pub interval_ms: u64,
    pub action: ActionView,
}

pub open spec fn mode_of(key: KeyBehaviorMode, hold: HoldBehaviorMode) -> SimulationMode {
    match key {
        KeyBehaviorMode::Click => SimulationMode::Click,
        KeyBehaviorMode::Hold => match hold {
            HoldBehaviorMode::Continuous => SimulationMode::HoldContinuous,
            HoldBehaviorMode::Cycle => SimulationMode::HoldCycle,
        },
    }
}

pub open spec fn confirm_key() -> KeyCode {
    KeyCode { code: KEY_NUMERIC_0 }
}

/// One step of a run, given the running flag and the interval as they read now.
pub open spec fn next_step(
    keys: Seq<KeyCode>,
    mode: SimulationMode,
    phase: Phase,
    held_interval: u64,
    running: bool,
    interval_ms: u64,
) -> Next {
    let stay = |p: Phase, a: ActionView| Next { phase: p, interval_ms: held_interval, action: a };
    match phase {
        Phase::Start => stay(
            if mode == SimulationMode::Click {
                Phase::Click { step: 0 }
            } else {
                Phase::Settle
            },
            ActionView::Write(batch(Seq::empty(), RELEASE)),
        ),
        Phase::Settle => stay(
            if mode == SimulationMode::HoldContinuous {
                Phase::PressAll
            } else {
                Phase::CycleTop
            },
            ActionView::Sleep(SIMULATION_HOLD_DELAY_MS),
        ),
        Phase::Click { step } => if step == 0 {
            if running {
                stay(Phase::Click { step: 1 }, ActionView::Write(batch(seq![confirm_key()], PRESS)))
            } else {
                stay(Phase::Finished, ActionView::Finish)
            }
        } else if step == 1 || step == 4 {
            stay(Phase::Click { step: (step + 1) as u8 }, ActionView::Write(batch(keys, RELEASE)))
        } else if step == 2 || step == 5 {
            stay(Phase::Click { step: (step + 1) as u8 }, ActionView::Sleep(CLICK_PAUSE_MS))
        } else if step == 3 {
            stay(Phase::Click { step: 4 }, ActionView::Write(batch(seq![confirm_key()], PRESS)))
        } else {
            stay(Phase::Click { step: 0 }, ActionView::Sleep(CLICK_REST_MS))
        },
        Phase::PressAll => stay(Phase::Holding, ActionView::Write(batch(keys, PRESS))),
        Phase::Holding => if running {
            stay(Phase::Holding, ActionView::Write(batch(Seq::empty(), RELEASE)))
        } else {
            stay(Phase::Finished, ActionView::Write(batch(keys, RELEASE)))
        },
        Phase::CycleTop => if !running {
            stay(Phase::Finished, ActionView::Finish)
        } else if keys.len() == 0 {
            Next { phase: Phase::CycleTop, interval_ms, action: ActionView::Sleep(interval_ms) }
        } else {
            Next { phase: Phase::CycleKey { index: 0 }, interval_ms, action: ActionView::Recheck }
        },
        Phase::CycleKey { index } => if running {
            stay(
                Phase::CycleHeld { index },
                ActionView::Write(batch(seq![keys[index as int]], PRESS)),
            )
        } else {
            stay(Phase::CycleTop, ActionView::Recheck)
        },
        Phase::CycleHeld { index } => stay(
            Phase::CycleRelease { index },
            ActionView::Sleep(held_interval),
        ),
        Phase::CycleRelease { index } => stay(
            if index + 1 < keys.len() {
                Phase::CycleKey { index: (index + 1) as usize }
            } else {
                Phase::CycleTop
            },
            ActionView::Write(batch(seq![keys[index as int]], RELEASE)),
        ),
        Phase::Finished => stay(Phase::Finished, ActionView::Finish),
    }
}

/// Whether a phase belongs to a mode, with its index in range.
pub open spec fn phase_fits(keys: Seq<KeyCode>, mode: SimulationMode, phase: Phase) -> bool {
    &&& match phase {
        Phase::Start | Phase::Settle | Phase::Finished => true,
        Phase::Click { step } => mode == SimulationMode::Click && step < 7,
        Phase::PressAll | Phase::Holding => mode == SimulationMode::HoldContinuous,
        Phase::CycleTop => mode == SimulationMode::HoldCycle,
        Phase::CycleKey { index } | Phase::CycleHeld { index } | Phase::CycleRelease { index } =>
            mode == SimulationMode::HoldCycle && index < keys.len(),
    }
    &&& (phase is Settle ==> mode != SimulationMode::Click)
}

/// `n` heartbeat synchronization events.
pub open spec fn heartbeats(n: nat) -> Seq<DeviceEvent> {
    Seq::new(n, |i: int| DeviceEvent::Sync)
}

/// What a continuous-hold run has written by the time it reaches `phase`, after `n`
/// heartbeats.
pub open spec fn continuous_trace(keys: Seq<KeyCode>, phase: Phase, n: nat) -> Seq<DeviceEvent> {
    match phase {
        Phase::Start => Seq::empty(),
        Phase::Settle | Phase::PressAll => seq![DeviceEvent::Sync],
        Phase::Holding => seq![DeviceEvent::Sync] + batch(keys, PRESS) + heartbeats(n),
        _ => seq![DeviceEvent::Sync] + batch(keys, PRESS) + heartbeats(n) + batch(keys, RELEASE),
    }
}

/// A run of the simulation loop over a snapshot of the selected keys.
pub struct Simulation {
    pub keys: Vec<KeyCode>,
    pub mode: SimulationMode,
    pub phase: Phase,
    /// The interval read at the top of the current cycle pass.
    pub interval_ms: u64,
    /// Every event written to the device so far.
    pub written: Ghost<Seq<DeviceEvent>>,
    /// The heartbeats written so far in continuous hold.
    pub beats: Ghost<nat>,
}

impl Simulation {
    pub open spec fn wf(&self) -> bool {
        &&& phase_fits(self.keys@, self.mode, self.phase)
        &&& self.mode == SimulationMode::HoldContinuous ==> self.written@ == continuous_trace(
            self.keys@,
            self.phase,
            self.beats@,
        )
        &&& (self.phase is Start || self.phase is Settle || self.phase is PressAll) ==> self.beats@
            == 0
    }

    /// A run in `mode` over `keys`, before anything is written.
    pub fn new(keys: Vec<KeyCode>, mode: SimulationMode) -> (r: Simulation)
        ensures
            r.wf(),
            r.keys@ == keys@,
            r.mode == mode,
            r.phase == Phase::Start,
            r.written@ == Seq::<DeviceEvent>::empty(),
    {
        Simulation {
            keys,
            mode,
            phase: Phase::Start,
            interval_ms: 0,
            written: Ghost(Seq::empty()),
            beats: Ghost(0),
        }
    }

    /// Takes one step, given the running flag and the interval as they read now.
    pub fn step(&mut self, running: bool, interval_ms: u64) -> (a: Action)
        requires
            old(self).wf(),
        ensures
            final(self).wf(),
            final(self).keys@ == old(self).keys@,
            final(self).mode == old(self).mode,
            final(self).phase == next_step(
                old(self).keys@,
                old(self).mode,
                old(self).phase,
                old(self).interval_ms,
                running,
                interval_ms,
            ).phase,
            final(self).interval_ms == next_step(
                old(self).keys@,
                old(self).mode,
                old(self).phase,
                old(self).interval_ms,
                running,
                interval_ms,
            ).interval_ms,
            a@ == next_step(
                old(self).keys@,
                old(self).mode,
                old(self).phase,
                old(self).interval_ms,
                running,
                interval_ms,
            ).action,
            final(self).written@ == old(self).written@ + written_by(a@),
    {
        let ghost keys = self.keys@;
        let ghost w0 = self.written@;
        let ghost p0 = self.phase;
        let a = match self.phase {
            Phase::Start => {
                self.phase = if self.mode == SimulationMode::Click {
                    Phase::Click { step: 0 }
                } else {
                    Phase::Settle
                };
                let empty: Vec<KeyCode> = Vec::new();
                    assert(empty@ =~= Seq::<KeyCode>::empty());
                Action::Write(key_batch(empty.as_slice(), RELEASE))
            },
            Phase::Settle => {
                self.phase = if self.mode == SimulationMode::HoldContinuous {
                    Phase::PressAll
                } else {
                    Phase::CycleTop
                };
                Action::Sleep(SIMULATION_HOLD_DELAY_MS)
            },
            Phase::Click { step } => {
                if step == 0 {
                    if running {
                        self.phase = Phase::Click { step: 1 };
                        let confirm = vec![KeyCode { code: KEY_NUMERIC_0 }];
                        assert(confirm@ =~= seq![confirm_key()]);
                        Action::Write(key_batch(confirm.as_slice(), PRESS))
                    } else {
                        self.phase = Phase::Finished;
                        Action::Finish
                    }
                } else if step == 1 || step == 4 {
                    self.phase = Phase::Click { step: step + 1 };
                    Action::Write(key_batch(self.keys.as_slice(), RELEASE))
                } else if step == 2 || step == 5 {
                    self.phase = Phase::Click { step: step + 1 };
                    Action::Sleep(CLICK_PAUSE_MS)
                } else if step == 3 {
                    self.phase = Phase::Click { step: 4 };
                    let confirm = vec![KeyCode { code: KEY_NUMERIC_0 }];
                        assert(confirm@ =~= seq![confirm_key()]);
                    Action::Write(key_batch(confirm.as_slice(), PRESS))
                } else {
                    self.phase = Phase::Click { step: 0 };
                    Action::Sleep(CLICK_REST_MS)
                }
            },
            Phase::PressAll => {
                self.phase = Phase::Holding;
                Action::Write(key_batch(self.keys.as_slice(), PRESS))
            },
            Phase::Holding => {
                if running {
                    let empty: Vec<KeyCode> = Vec::new();
                    assert(empty@ =~= Seq::<KeyCode>::empty());
                    Action::Write(key_batch(empty.as_slice(), RELEASE))
                } else {
                    self.phase = Phase::Finished;
                    Action::Write(key_batch(self.keys.as_slice(), RELEASE))
                }
            },
            Phase::CycleTop => {
                if !running {
                    self.phase = Phase::Finished;
                    Action::Finish
                } else if self.keys.len() == 0 {
                    self.interval_ms = interval_ms;
                    Action::Sleep(interval_ms)
                } else {
                    self.interval_ms = interval_ms;
                    self.phase = Phase::CycleKey { index: 0 };
                    Action::Recheck
                }
            },
            Phase::CycleKey { index } => {
                if running {
                    self.phase = Phase::CycleHeld { index };
                    let one = vec![self.keys[index]];
                    assert(one@ =~= seq![keys[index as int]]);
                    Action::Write(key_batch(one.as_slice(), PRESS))
                } else {
                    self.phase = Phase::CycleTop;
                    Action::Recheck
                }
            },
            Phase::CycleHeld { index } => {
                self.phase = Phase::CycleRelease { index };
                Action::Sleep(self.interval_ms)
            },
            Phase::CycleRelease { index } => {
                self.phase = if index < self.keys.len() - 1 {
                    Phase::CycleKey { index: index + 1 }
                } else {
                    Phase::CycleTop
                };
                let one = vec![self.keys[index]];
                    assert(one@ =~= seq![keys[index as int]]);
                Action::Write(key_batch(one.as_slice(), RELEASE))
            },
            Phase::Finished => Action::Finish,
        };
        proof {
            assert(seq![KeyCode { code: KEY_NUMERIC_0 }] =~= seq![confirm_key()]);
            if self.mode == SimulationMode::HoldContinuous && p0 == Phase::Holding && running {
                let n = self.beats@;
                assert(batch(Seq::<KeyCode>::empty(), RELEASE) =~= seq![DeviceEvent::Sync]);
                assert(heartbeats(n) + seq![DeviceEvent::Sync] =~= heartbeats(n + 1));
                assert(w0 + written_by(a@) =~= seq![DeviceEvent::Sync] + batch(keys, PRESS)
                    + heartbeats(n + 1));
                self.beats@ = n + 1;
            }
            self.written@ = w0 + written_by(a@);
            if self.mode == SimulationMode::HoldContinuous {
                assert(batch(Seq::<KeyCode>::empty(), RELEASE) =~= seq![DeviceEvent::Sync]);
                assert(heartbeats(0) =~= Seq::<DeviceEvent>::empty());
                assert(self.written@ =~= continuous_trace(keys, self.phase, self.beats@));
            }
        }
        a
    }
}

/// The behaviour that a pair of user choices selects.
pub fn simulation_mode(key: KeyBehaviorMode, hold: HoldBehaviorMode) -> (m: SimulationMode)
    ensures
        m == mode_of(key, hold),
{
    match key {
        KeyBehaviorMode::Click => SimulationMode::Click,
        KeyBehaviorMode::Hold => match hold {
            HoldBehaviorMode::Continuous => SimulationMode::HoldContinuous,
            HoldBehaviorMode::Cycle => SimulationMode::HoldCycle,
        },
    }
}

/// A continuous-hold run that has ended wrote: one synchronization event, every key pressed
/// in order, heartbeats, then every key released in order. So each press of a key is answered
/// by exactly one release of that key, and no press comes after a release.
pub proof fn lemma_continuous_hold_releases_each_press(sim: Simulation)
    requires
        sim.wf(),
        sim.mode == SimulationMode::HoldContinuous,
        sim.phase == Phase::Finished,
    ensures
        ({
            let w = sim.written@;
            let keys = sim.keys@;
            let q = keys.len() + 2 + sim.beats@;
            &&& w.len() == q + keys.len() + 1
            &&& forall|i: int|
                0 <= i < keys.len() ==> w[1 + i] == key_event(#[trigger] keys[i], PRESS) && w[q + i]
                    == key_event(keys[i], RELEASE)
            &&& forall|j: int|
                0 <= j < w.len() && #[trigger] w[j] is Key && w[j]->value == PRESS ==> 1 <= j < 1
                    + keys.len()
            &&& forall|j: int|
                0 <= j < w.len() && #[trigger] w[j] is Key && w[j]->value == RELEASE ==> q <= j < q
                    + keys.len()
        }),
{
    let w = sim.written@;
    let keys = sim.keys@;
    let l = keys.len();
    let n = sim.beats@;
    let q = l + 2 + n;
    let pre = seq![DeviceEvent::Sync] + batch(keys, PRESS);
    assert(w == pre + heartbeats(n) + batch(keys, RELEASE));
    assert forall|i: int| 0 <= i < l implies w[1 + i] == key_event(#[trigger] keys[i], PRESS)
        && w[q + i] == key_event(keys[i], RELEASE) by {
        assert(w[1 + i] == pre[1 + i]);
        assert(w[q + i] == batch(keys, RELEASE)[i]);
    }
    assert forall|j: int| 0 <= j < w.len() && #[trigger] w[j] is Key implies (w[j]->value == PRESS
        ==> 1 <= j < 1 + l) && (w[j]->value == RELEASE ==> q <= j < q + l) by {
        if j == 0 {
            assert(w[j] == DeviceEvent::Sync);
        } else if j < 1 + l {
            assert(w[j] == key_event(keys[j - 1], PRESS));
        } else if j < q {
            assert(w[j] == DeviceEvent::Sync);
        } else if j < q + l {
            assert(w[j] == key_event(keys[j - q], RELEASE));
        } else {
            assert(w[j] == DeviceEvent::Sync);
        }
    }
}

/// In cycle hold, a key is pressed only when the running flag read true, and the next two
/// steps wait the interval and release that same key, whatever the flag reads then.
pub proof fn lemma_cycle_press_then_release(
    keys: Seq<KeyCode>,
    phase: Phase,
    held_interval: u64,
    k: KeyCode,
    running1: bool,
    interval1: u64,
    running2: bool,
    interval2: u64,
    running3: bool,
    interval3: u64,
)
    requires
        phase_fits(keys, SimulationMode::HoldCycle, phase),
        next_step(keys, SimulationMode::HoldCycle, phase, held_interval, running1, interval1).action
            == ActionView::Write(batch(seq![k], PRESS)),
    ensures
        running1,
        ({
            let n1 = next_step(keys, SimulationMode::HoldCycle, phase, held_interval, running1, interval1);
            let n2 = next_step(keys, SimulationMode::HoldCycle, n1.phase, n1.interval_ms, running2, interval2);
            let n3 = next_step(keys, SimulationMode::HoldCycle, n2.phase, n2.interval_ms, running3, interval3);
            &&& n2.action == ActionView::Sleep(n1.interval_ms)
            &&& n3.action == ActionView::Write(batch(seq![k], RELEASE))
            &&& phase_fits(keys, SimulationMode::HoldCycle, n3.phase)
        }),
{
    let pressed = batch(seq![k], PRESS);
    assert(pressed.len() == 2);
    assert(pressed[0] == key_event(k, PRESS));
    match phase {
        Phase::Start => {
            assert(batch(Seq::<KeyCode>::empty(), RELEASE).len() == 1);
        },
        Phase::CycleRelease { index } => {
            assert(batch(seq![keys[index as int]], RELEASE)[0] == key_event(keys[index as int], RELEASE));
        },
        Phase::CycleKey { index } => {
            assert(batch(seq![keys[index as int]], PRESS)[0] == key_event(keys[index as int], PRESS));
            assert(keys[index as int] == k);
        },
        _ => {},
    }
}

/// The keys that mapped, in the order given; entries that did not map are skipped.
pub open spec fn mapped_keys(mapped: Seq<Option<KeyCode>>) -> Seq<KeyCode>
    decreases mapped.len(),
{
    if mapped.len() == 0 {
        Seq::empty()
    } else {
        let rest = mapped_keys(mapped.drop_last());
        match mapped.last() {
            Some(k) => rest.push(k),
            None => rest,
        }
    }
}

/// Replaces the selected keys with those of `mapped` that mapped to a key code, in order,
/// and records the chosen key behaviour. An entry that did not map is skipped; an empty
/// result is allowed.
pub fn initialize_simulation_keys(
    mapped: &[Option<KeyCode>],
    key_behavior: KeyBehaviorMode,
    selected_keys: &mut Vec<KeyCode>,
    out_behavior: &mut KeyBehaviorMode,
)
    ensures
        final(selected_keys)@ == mapped_keys(mapped@),
        *final(out_behavior) == key_behavior,
{
    selected_keys.clear();
    *out_behavior = key_behavior;
    let mut i: usize = 0;
    while i < mapped.len()
        invariant
            i <= mapped@.len(),
            selected_keys@ == mapped_keys(mapped@.subrange(0, i as int)),
        decreases mapped@.len() - i,
    {
        proof {
            assert(mapped@.subrange(0, i + 1).drop_last() =~= mapped@.subrange(0, i as int));
        }
        if let Some(k) = mapped[i] {
            selected_keys.push(k);
        }
        i = i + 1;
    }
    proof {
        assert(mapped@.subrange(0, i as int) =~= mapped@);
    }
}

} // verus!
