//! Build orchestrator: the control state machine that turns change
//! signals into builds, one at a time, and publishes what they produce.

use crate::manifest::{after_build, AssetManifest, ManifestStore};
use vstd::prelude::*;

verus! {

/// Length of the quiet period after the first change signal, in
/// milliseconds.
pub const DEBOUNCE_MILLIS: u64 = 100;

/// Where the control loop stands.
#[derive(Debug, Clone, Copy, PartialEq, Eq, Structural)]
pub enum Phase {
    /// Waiting for the next change signal.
    Idle,
    /// In the quiet period: further signals are absorbed.
    DebounceWindow,
    /// A build is running.
    Building,
}

/// What the control loop is told.
#[derive(Debug, Clone, Copy, PartialEq, Eq, Structural)]
pub enum Signal {
    /// A change event came through the watcher's filter.
    Change,
    /// The quiet period is over and the queue of change events is drained.
    WindowClosed,
    /// The running build produced a manifest.
    BuildSucceeded,
    /// The running build failed.
    BuildFailed,
}

/// What the control loop has to do in answer to a signal.
#[derive(Debug, Clone, Copy, PartialEq, Eq, Structural)]
pub enum Action {
    /// Nothing: the signal was absorbed, or it has no meaning in this
    /// phase.
    Absorb,
    /// Start the quiet period.
    OpenWindow,
    /// Invoke the builder, once.
    Build,
    /// Make the new manifest the current one, and emit a reload signal if
    /// `reload` is set.
    Publish { reload: bool },
    /// Report the build error; the current manifest stays.
    Report,
}

/// The state of the control loop as a value.
pub struct Machine {
    /// Where the loop stands.
    pub phase: Phase,
    /// Whether a reload broadcaster was asked for.
    pub live_reload: bool,
    /// Whether the build that runs at startup has ended.
    pub started: bool,
    /// Whether a change was signalled while a build was running.
    pub backlog: bool,
}

impl Machine {
    /// The phase after the running build has ended: a change that came
    /// during the build opens a new quiet period at once.
    pub open spec fn settled(self) -> Machine {
        Machine {
            phase: if self.backlog {
                Phase::DebounceWindow
            } else {
                Phase::Idle
            },
            live_reload: self.live_reload,
            started: true,
            backlog: false,
        }
    }

    /// The state that follows `self` on `signal`.
    pub open spec fn next(self, signal: Signal) -> Machine {
        match (self.phase, signal) {
            (Phase::Idle, Signal::Change) => Machine { phase: Phase::DebounceWindow, ..self },
            (Phase::DebounceWindow, Signal::WindowClosed) => Machine {
                phase: Phase::Building,
                ..self
            },
            (Phase::Building, Signal::Change) => Machine { backlog: true, ..self },
            (Phase::Building, Signal::BuildSucceeded) => self.settled(),
            (Phase::Building, Signal::BuildFailed) => self.settled(),
            _ => self,
        }
    }

    /// What is to be done when `signal` reaches `self`.
    pub open spec fn action(self, signal: Signal) -> Action {
        match (self.phase, signal) {
            (Phase::Idle, Signal::Change) => Action::OpenWindow,
            (Phase::DebounceWindow, Signal::WindowClosed) => Action::Build,
            (Phase::Building, Signal::BuildSucceeded) => Action::Publish {
                reload: self.live_reload && self.started,
            },
            (Phase::Building, Signal::BuildFailed) => Action::Report,
            _ => Action::Absorb,
        }
    }

    /// The state after the signals of `signals`, in that order.
    pub open spec fn after(self, signals: Seq<Signal>) -> Machine
        decreases signals.len(),
    {
        if signals.len() == 0 {
            self
        } else {
            self.after(signals.drop_last()).next(signals.last())
        }
    }

    /// How often the builder is invoked while the signals of `signals`
    /// are taken in.
    pub open spec fn builds(self, signals: Seq<Signal>) -> nat
        decreases signals.len(),
    {
        if signals.len() == 0 {
            0
        } else {
            let before = self.builds(signals.drop_last());
            if self.after(signals.drop_last()).action(signals.last()) is Build {
                before + 1
            } else {
                before
            }
        }
    }
}

/// `n` change signals in a row.
pub open spec fn burst(n: nat) -> Seq<Signal> {
    Seq::new(n, |i: int| Signal::Change)
}

/// The control loop of the daemon.
pub struct Orchestrator {
    phase: Phase,
    live_reload: bool,
    started: bool,
    backlog: bool,
}

/// How a build ended, as the control loop saw it.
#[derive(Debug, Clone, PartialEq, Eq)]
pub enum BuildReport {
    /// The store holds the new manifest; a reload signal is due if
    /// `reload` is set.
    Published { reload: bool },
    /// The build failed for the reason given; the store is as it was.
    Failed { message: String },
    /// No build was running: the outcome was dropped and the store is as
    /// it was.
    Dropped,
}

impl View for Orchestrator {
    type V = Machine;

    closed spec fn view(&self) -> Machine {
        Machine {
            phase: self.phase,
            live_reload: self.live_reload,
            started: self.started,
            backlog: self.backlog,
        }
    }
}

/// The outcome of a build as the store's model takes it.
pub open spec fn outcome_view(outcome: Result<AssetManifest, String>) -> Result<
    Map<Seq<char>, Seq<char>>,
    Seq<char>,
> {
    match outcome {
        Ok(manifest) => Ok(manifest@),
        Err(message) => Err(message@),
    }
}

impl Orchestrator {
    /// A control loop at startup: the first build is running, and its
    /// manifest will be published without a reload signal, as no
    /// broadcaster runs yet.
    pub fn new(live_reload: bool) -> (orchestrator: Self)
        ensures
            orchestrator@ == (Machine {
                phase: Phase::Building,
                live_reload,
                started: false,
                backlog: false,
            }),
    {
        Orchestrator { phase: Phase::Building, live_reload, started: false, backlog: false }
    }

    /// Where the loop stands.
    pub fn phase(&self) -> (phase: Phase)
        ensures
            phase == self@.phase,
    {
        self.phase
    }

    fn settle(&mut self)
        ensures
            final(self)@ == old(self)@.settled(),
    {
        self.phase = if self.backlog {
            Phase::DebounceWindow
        } else {
            Phase::Idle
        };
        self.started = true;
        self.backlog = false;
    }

    /// Takes one signal in and says what is to be done.
    pub fn step(&mut self, signal: Signal) -> (action: Action)
        ensures
            final(self)@ == old(self)@.next(signal),
            action == old(self)@.action(signal),
            action is Build <==> old(self)@.phase is DebounceWindow && signal is WindowClosed,
            final(self)@.phase is Building <==> action is Build || (old(self)@.phase is Building
                && (signal is Change || signal is WindowClosed)),
    {
        match (self.phase, signal) {
            (Phase::Idle, Signal::Change) => {
                self.phase = Phase::DebounceWindow;
                Action::OpenWindow
            },
            (Phase::DebounceWindow, Signal::WindowClosed) => {
                self.phase = Phase::Building;
                Action::Build
            },
            (Phase::Building, Signal::Change) => {
                self.backlog = true;
                Action::Absorb
            },
            (Phase::Building, Signal::BuildSucceeded) => {
                let reload = self.live_reload && self.started;
                self.settle();
                Action::Publish { reload }
            },
            (Phase::Building, Signal::BuildFailed) => {
                self.settle();
                Action::Report
            },
            _ => Action::Absorb,
        }
    }

    /// Ends the running build with `outcome`: a manifest is published in
    /// `store`, an error leaves `store` as it was. Where no build is
    /// running, nothing changes.
    pub fn finish_build(
        &mut self,
        store: &mut ManifestStore,
        outcome: Result<AssetManifest, String>,
    ) -> (report: BuildReport)
        ensures
            old(self)@.phase is Building ==> {
                &&& final(self)@ == old(self)@.settled()
                &&& final(store)@ == after_build(old(store)@, outcome_view(outcome))
                &&& match outcome {
                    Ok(_) => report == (BuildReport::Published {
                        reload: old(self)@.live_reload && old(self)@.started,
                    }),
                    Err(message) => report == (BuildReport::Failed { message }),
                }
            },
            !(old(self)@.phase is Building) ==> {
                &&& final(self)@ == old(self)@
                &&& final(store)@ == old(store)@
                &&& report is Dropped
            },
    {
        match outcome {
            Ok(manifest) => {
                match self.step(Signal::BuildSucceeded) {
                    Action::Publish { reload } => {
                        store.set(manifest);
                        BuildReport::Published { reload }
                    },
                    _ => BuildReport::Dropped,
                }
            },
            Err(message) => {
                match self.step(Signal::BuildFailed) {
                    Action::Report => BuildReport::Failed { message },
                    _ => BuildReport::Dropped,
                }
            },
        }
    }
}

/// While the quiet period lasts, change signals neither start a build nor
/// end the period.
pub proof fn lemma_window_absorbs_changes(machine: Machine, n: nat)
    requires
        machine.phase is DebounceWindow,
    ensures
        machine.after(burst(n)) == machine,
        machine.builds(burst(n)) == 0,
    decreases n,
{
    if n > 0 {
        assert(burst(n).drop_last() =~= burst((n - 1) as nat));
        assert(burst(n).last() == Signal::Change);
        lemma_window_absorbs_changes(machine, (n - 1) as nat);
    }
}

/// However many change signals arrive within one quiet period, the
/// builder is invoked exactly once when the period ends.
pub proof fn lemma_one_build_per_window(machine: Machine, n: nat)
    requires
        machine.phase is Idle,
        n >= 1,
    ensures
        machine.builds(burst(n).push(Signal::WindowClosed)) == 1,
        machine.after(burst(n).push(Signal::WindowClosed)).phase is Building,
    decreases n,
{
    let signals = burst(n).push(Signal::WindowClosed);
    assert(signals.drop_last() =~= burst(n));
    lemma_burst_opens_window(machine, n);
}

/// A run of change signals that reaches an idle loop opens the quiet
/// period and starts no build.
pub proof fn lemma_burst_opens_window(machine: Machine, n: nat)
    requires
        machine.phase is Idle,
        n >= 1,
    ensures
        machine.after(burst(n)) == machine.next(Signal::Change),
        machine.after(burst(n)).phase is DebounceWindow,
        machine.builds(burst(n)) == 0,
    decreases n,
{
    assert(burst(n).drop_last() =~= burst((n - 1) as nat));
    assert(burst(n).last() == Signal::Change);
    if n == 1 {
        assert(burst(0).len() == 0);
        assert(machine.after(burst(0)) == machine);
        assert(machine.builds(burst(0)) == 0);
    } else {
        lemma_burst_opens_window(machine, (n - 1) as nat);
    }
}

/// While a build runs, no signal but its own end starts another one: the
/// builder is never invoked twice at a time.
pub proof fn lemma_no_build_during_build(machine: Machine, signals: Seq<Signal>)
    requires
        machine.phase is Building,
        forall|i: int|
            0 <= i < signals.len() ==> signals[i] is Change || signals[i] is WindowClosed,
    ensures
        machine.after(signals).phase is Building,
        machine.builds(signals) == 0,
    decreases signals.len(),
{
    if signals.len() > 0 {
        let front = signals.drop_last();
        assert forall|i: int| 0 <= i < front.len() implies front[i] is Change || front[i]
            is WindowClosed by {
            assert(front[i] == signals[i]);
        }
        lemma_no_build_during_build(machine, front);
        assert(signals[signals.len() - 1] is Change || signals[signals.len() - 1]
            is WindowClosed);
    }
}

} // verus!
