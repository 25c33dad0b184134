//! The device's control flow as a state machine.
//!
//! The controller names the next hardware step; the caller performs it and
//! reports whether it succeeded. Bring-up runs its steps in a fixed order,
//! then the transmit loop repeats {indicator low, send, indicator high, send}
//! for ever. Every failure is fatal except a failed register dump: once
//! halted, the controller asks for nothing but the halt.
use vstd::prelude::*;

verus! {

/// A level of the status indicator.
#[derive(Clone, Copy, Debug, PartialEq, Eq, Structural)]
pub enum Level {
    Low,
    High,
}

/// A hardware step that the controller asks the caller to perform.
#[derive(Clone, Copy, Debug, PartialEq, Eq, Structural)]
pub enum Step {
    AcquireCore,
    AcquireDevice,
    ConfigureClocks,
    ConfigurePins,
    InitBus,
    BuildDelay,
    BuildRadio,
    DumpRegisters,
    SetIndicator(Level),
    Send,
}

/// What the caller must do next.
#[derive(Clone, Copy, Debug, PartialEq, Eq, Structural)]
pub enum Action {
    /// Perform the step and report its outcome.
    Perform(Step),
    /// Log the step that failed and halt; nothing follows.
    Halt(Step),
}

/// The class of a failure, as the fault reporter logs it.
#[derive(Clone, Copy, Debug, PartialEq, Eq, Structural)]
pub enum FaultKind {
    /// A hardware handle was already taken.
    Acquisition,
    /// The clock tree, a pin, the bus, the delay or the radio session could
    /// not be set up.
    Configuration,
    /// The register dump failed; it is replaced by the sentinel.
    RecoveredDump,
    /// The radio failed to send.
    RadioSend,
}

/// The class of a failure of `step`.
pub open spec fn fault_kind_of(step: Step) -> FaultKind {
    match step {
        Step::AcquireCore | Step::AcquireDevice => FaultKind::Acquisition,
        Step::DumpRegisters => FaultKind::RecoveredDump,
        Step::Send => FaultKind::RadioSend,
        _ => FaultKind::Configuration,
    }
}

/// Whether a failure of this class halts the device.
pub open spec fn is_fatal(kind: FaultKind) -> bool {
    kind != FaultKind::RecoveredDump
}

/// The class of a failure of `step`.
pub fn fault_kind(step: Step) -> (r: FaultKind)
    ensures
        r == fault_kind_of(step),
{
    match step {
        Step::AcquireCore | Step::AcquireDevice => FaultKind::Acquisition,
        Step::DumpRegisters => FaultKind::RecoveredDump,
        Step::Send => FaultKind::RadioSend,
        _ => FaultKind::Configuration,
    }
}

/// Whether a failure of this class halts the device.
pub fn fault_is_fatal(kind: FaultKind) -> (r: bool)
    ensures
        r == is_fatal(kind),
{
    !matches!(kind, FaultKind::RecoveredDump)
}

/// Number of positions: eight bring-up steps and four steps of the loop.
pub const STAGE_COUNT: u8 = 12;

/// Position at which the transmit loop starts.
pub const LOOP_START: u8 = 8;

/// Position of the register dump, the one step whose failure is not fatal.
pub const DUMP_STAGE: u8 = 7;

/// The controller's state: its position in the sequence, and whether it halted
/// at the step of that position.
pub struct ControllerView {
    pub stage: nat,
    pub halted: bool,
}

/// The step performed at position `stage`.
pub open spec fn step_at(stage: nat) -> Step {
    if stage == 0 {
        Step::AcquireCore
    } else if stage == 1 {
        Step::AcquireDevice
    } else if stage == 2 {
        Step::ConfigureClocks
    } else if stage == 3 {
        Step::ConfigurePins
    } else if stage == 4 {
        Step::InitBus
    } else if stage == 5 {
        Step::BuildDelay
    } else if stage == 6 {
        Step::BuildRadio
    } else if stage == 7 {
        Step::DumpRegisters
    } else if stage == 8 {
        Step::SetIndicator(Level::Low)
    } else if stage == 10 {
        Step::SetIndicator(Level::High)
    } else {
        Step::Send
    }
}

/// The action asked for in state `v`.
pub open spec fn action_of(v: ControllerView) -> Action {
    if v.halted {
        Action::Halt(step_at(v.stage))
    } else {
        Action::Perform(step_at(v.stage))
    }
}

/// The state after the action of `v` was reported as succeeded (`ok`) or not.
pub open spec fn next_view(v: ControllerView, ok: bool) -> ControllerView {
    if v.halted {
        v
    } else if ok || v.stage == DUMP_STAGE as nat {
        ControllerView {
            stage: if v.stage + 1 == STAGE_COUNT as nat { LOOP_START as nat } else { v.stage + 1 },
            halted: false,
        }
    } else {
        ControllerView { stage: v.stage, halted: true }
    }
}

/// The state at power-on.
pub open spec fn initial_view() -> ControllerView {
    ControllerView { stage: 0, halted: false }
}

/// The state after the outcomes `oks` were reported in order, from `v`.
pub open spec fn view_after(v: ControllerView, oks: Seq<bool>) -> ControllerView
    decreases oks.len(),
{
    if oks.len() == 0 {
        v
    } else {
        next_view(view_after(v, oks.drop_last()), oks.last())
    }
}

/// The `i`-th action asked for from power-on, when the outcomes `oks` are
/// reported (only the first `i` of them matter).
pub open spec fn action_at(oks: Seq<bool>, i: int) -> Action {
    action_of(view_after(initial_view(), oks.take(i)))
}

/// Whether every outcome before `n` was a success, apart from the register dump.
pub open spec fn no_fatal_failure(oks: Seq<bool>, n: int) -> bool {
    forall|k: int| 0 <= k < n && k != DUMP_STAGE as int ==> #[trigger] oks[k]
}

/// Position reached after `i` steps without a fatal failure.
pub open spec fn stage_after(i: nat) -> nat {
    if i < LOOP_START as nat {
        i
    } else {
        LOOP_START as nat + ((i - LOOP_START as nat) as nat % 4)
    }
}

/// The other level of the indicator.
pub open spec fn flip(l: Level) -> Level {
    match l {
        Level::Low => Level::High,
        Level::High => Level::Low,
    }
}

/// The device's controller: its position in the fixed sequence of steps, and
/// whether it has halted there.
pub struct Controller {
    stage: u8,
    halted: bool,
}

impl View for Controller {
    type V = ControllerView;

    closed spec fn view(&self) -> ControllerView {
        ControllerView { stage: self.stage as nat, halted: self.halted }
    }
}

impl Controller {
    #[verifier::type_invariant]
    spec fn inv(&self) -> bool {
        self.stage < STAGE_COUNT
    }

    /// A controller at power-on: nothing acquired, nothing configured.
    pub fn new() -> (r: Controller)
        ensures
            r@ == initial_view(),
    {
        Controller { stage: 0, halted: false }
    }

    /// Whether the controller has halted; a halted controller stays halted.
    pub fn is_halted(&self) -> (r: bool)
        ensures
            r == self@.halted,
    {
        self.halted
    }

    /// The action that the caller must take next.
    pub fn next_action(&self) -> (r: Action)
        ensures
            r == action_of(self@),
    {
        proof {
            use_type_invariant(self);
        }
        let step = if self.stage == 0 {
            Step::AcquireCore
        } else if self.stage == 1 {
            Step::AcquireDevice
        } else if self.stage == 2 {
            Step::ConfigureClocks
        } else if self.stage == 3 {
            Step::ConfigurePins
        } else if self.stage == 4 {
            Step::InitBus
        } else if self.stage == 5 {
            Step::BuildDelay
        } else if self.stage == 6 {
            Step::BuildRadio
        } else if self.stage == DUMP_STAGE {
            Step::DumpRegisters
        } else if self.stage == LOOP_START {
            Step::SetIndicator(Level::Low)
        } else if self.stage == 10 {
            Step::SetIndicator(Level::High)
        } else {
            Step::Send
        };
        if self.halted {
            Action::Halt(step)
        } else {
            Action::Perform(step)
        }
    }

    /// Records the outcome of the action last asked for: a failure halts the
    /// controller, except for the register dump; a success moves on.
    pub fn record(&mut self, ok: bool)
        ensures
            final(self)@ == next_view(old(self)@, ok),
    {
        proof {
            use_type_invariant(&*self);
        }
        if self.halted {
        } else if ok || self.stage == DUMP_STAGE {
            self.stage = if self.stage + 1 == STAGE_COUNT {
                LOOP_START
            } else {
                self.stage + 1
            };
        } else {
            self.halted = true;
        }
    }
}

proof fn lemma_take_step(v: ControllerView, oks: Seq<bool>, i: int)
    requires
        0 <= i < oks.len(),
    ensures
        view_after(v, oks.take(i + 1)) == next_view(view_after(v, oks.take(i)), oks[i]),
{
    assert(oks.take(i + 1).drop_last() =~= oks.take(i));
}

proof fn lemma_stage_step(i: nat)
    ensures
        stage_after(i + 1) == (if stage_after(i) + 1 == STAGE_COUNT as nat {
            LOOP_START as nat
        } else {
            stage_after(i) + 1
        }),
        stage_after(i) < STAGE_COUNT as nat,
{
}

/// Without a fatal failure so far, the controller runs at the position that
/// the number of steps gives.
proof fn lemma_running(oks: Seq<bool>, i: int)
    requires
        0 <= i <= oks.len(),
        no_fatal_failure(oks, i),
    ensures
        view_after(initial_view(), oks.take(i)) == (ControllerView {
            stage: stage_after(i as nat),
            halted: false,
        }),
    decreases i,
{
    if i == 0 {
        assert(oks.take(0) =~= Seq::<bool>::empty());
    } else {
        lemma_running(oks, i - 1);
        lemma_take_step(initial_view(), oks, i - 1);
        lemma_stage_step((i - 1) as nat);
        if i - 1 != DUMP_STAGE as int {
            assert(oks[i - 1]);
        }
    }
}

/// After a fatal failure at step `k`, the controller stays halted at it.
proof fn lemma_halted_after(oks: Seq<bool>, k: int, j: int)
    requires
        0 <= k < j <= oks.len(),
        no_fatal_failure(oks, k),
        k != DUMP_STAGE as int,
        !oks[k],
    ensures
        view_after(initial_view(), oks.take(j)) == (ControllerView {
            stage: stage_after(k as nat),
            halted: true,
        }),
    decreases j,
{
    lemma_take_step(initial_view(), oks, j - 1);
    if j == k + 1 {
        lemma_running(oks, k);
    } else {
        lemma_halted_after(oks, k, j - 1);
    }
}

/// The state after `i` steps: running at `stage_after(i)` when nothing fatal
/// failed, or halted at the first fatal failure, whose index is returned.
proof fn lemma_classify(oks: Seq<bool>, i: int) -> (k: int)
    requires
        0 <= i <= oks.len(),
    ensures
        no_fatal_failure(oks, i) ==> k == i && view_after(initial_view(), oks.take(i)) == (
        ControllerView { stage: stage_after(i as nat), halted: false }),
        !no_fatal_failure(oks, i) ==> 0 <= k < i && k != DUMP_STAGE as int && !oks[k]
            && no_fatal_failure(oks, k) && view_after(initial_view(), oks.take(i)) == (
        ControllerView { stage: stage_after(k as nat), halted: true }),
    decreases i,
{
    if no_fatal_failure(oks, i) {
        lemma_running(oks, i);
        i
    } else {
        let k = if no_fatal_failure(oks, i - 1) {
            i - 1
        } else {
            lemma_classify(oks, i - 1)
        };
        lemma_halted_after(oks, k, i);
        k
    }
}

/// The halt is terminal: from a halted state, no outcome moves the controller,
/// which keeps asking for the halt only.
pub proof fn lemma_halt_is_terminal(v: ControllerView, oks: Seq<bool>)
    requires
        v.halted,
    ensures
        view_after(v, oks) == v,
        action_of(view_after(v, oks)) == Action::Halt(step_at(v.stage)),
    decreases oks.len(),
{
    if oks.len() > 0 {
        lemma_halt_is_terminal(v, oks.drop_last());
    }
}

/// While no step but the register dump has failed, the `i`-th action is the
/// step of the fixed sequence: the eight bring-up steps in order, then
/// {indicator low, send, indicator high, send} repeated.
pub proof fn lemma_normal_run(oks: Seq<bool>, i: int)
    requires
        0 <= i <= oks.len(),
        no_fatal_failure(oks, i),
    ensures
        action_at(oks, i) == Action::Perform(step_at(stage_after(i as nat))),
{
    lemma_running(oks, i);
}

/// Bring-up order: the bus is initialised only after the pins were configured
/// successfully, and the radio session is built only after the bus was
/// initialised successfully, whatever the outcomes reported.
pub proof fn lemma_bringup_order(oks: Seq<bool>, j: int)
    requires
        0 <= j <= oks.len(),
    ensures
        action_at(oks, j) == Action::Perform(Step::InitBus) ==> exists|i: int|
            0 <= i < j && action_at(oks, i) == Action::Perform(Step::ConfigurePins) && oks[i],
        action_at(oks, j) == Action::Perform(Step::BuildRadio) ==> exists|i: int|
            0 <= i < j && action_at(oks, i) == Action::Perform(Step::InitBus) && oks[i],
{
    lemma_classify(oks, j);
    if no_fatal_failure(oks, j) {
        if j == 4 {
            lemma_running(oks, 3);
            assert(oks[3]);
        }
        if j == 6 {
            lemma_running(oks, 4);
            assert(oks[4]);
        }
    }
}

/// Fail-fast: after a failed send the controller halts, and every later action
/// is the halt; no further send is asked for.
pub proof fn lemma_fail_fast(oks: Seq<bool>, i: int, j: int)
    requires
        0 <= i < j <= oks.len(),
        action_at(oks, i) == Action::Perform(Step::Send),
        !oks[i],
    ensures
        action_at(oks, j) == Action::Halt(Step::Send),
        view_after(initial_view(), oks.take(j)).halted,
{
    lemma_classify(oks, i);
    lemma_halted_after(oks, i, j);
}

/// Indicator and send pairing: every send is preceded by setting the indicator
/// to a level, and followed either by setting it to the other level (the send
/// succeeded) or by the halt (it failed).
pub proof fn lemma_send_framed(oks: Seq<bool>, i: int)
    requires
        0 <= i < oks.len(),
        action_at(oks, i) == Action::Perform(Step::Send),
    ensures
        i >= 1,
        exists|l: Level|
            action_at(oks, i - 1) == Action::Perform(Step::SetIndicator(l)) && action_at(oks, i + 1)
                == (if oks[i] {
                Action::Perform(Step::SetIndicator(flip(l)))
            } else {
                Action::Halt(Step::Send)
            }),
{
    lemma_classify(oks, i);
    assert(i >= LOOP_START as int);
    lemma_running(oks, i - 1);
    lemma_stage_step((i - 1) as nat);
    lemma_stage_step(i as nat);
    let l = if stage_after(i as nat) == 9 {
        Level::Low
    } else {
        Level::High
    };
    if oks[i] {
        lemma_running(oks, i + 1);
    } else {
        lemma_halted_after(oks, i, i + 1);
    }
    assert(action_at(oks, i - 1) == Action::Perform(Step::SetIndicator(l)));
    if oks[i] {
        assert(action_at(oks, i + 1) == Action::Perform(Step::SetIndicator(flip(l))));
    }
}

} // verus!
