//! The session: what is tracked between commands, and what each command
//! asks of the host.
//!
//! A session tracks at most one shell, the one that runs the playback
//! pipeline. It never touches a process itself. Each command returns the
//! [`Step`]s that the host carries out in order. The one step whose result
//! matters is the launch of a new pipeline: a start and a retune return a
//! [`PendingLaunch`], which the host hands back with what became of the
//! launch.

use vstd::prelude::*;
use crate::invocation::{
    Invocation, InvocationView, playback, signal_children, spec_playback,
    spec_signal_children, spec_sweep_demodulators, spec_sweep_players, spec_volume_control,
    sweep_demodulators, sweep_players, volume_control,
};

verus! {

/// The encoding of 100 MHz, the frequency of a fresh session: the value
/// 100000000 in hertz as an IEEE 754 double.
pub const DEFAULT_HERTZ_BITS: u64 = 0x4197_D784_0000_0000;

/// The volume of a fresh session, in percent.
pub const DEFAULT_VOLUME: u32 = 75;

/// How long a retune waits between stopping and starting, in milliseconds.
pub const RETUNE_PAUSE_MILLIS: u64 = 200;

/// A carrier frequency as the front end hands it over.
///
/// The library does no floating-point arithmetic: it stores the one form
/// and writes the other into the command line.
#[derive(Debug, PartialEq, Eq)]
pub struct Frequency {
    /// The frequency in hertz: the bits of an IEEE 754 double.
    pub hertz_bits: u64,
    /// The frequency in megahertz, in decimal notation.
    pub megahertz: String,
}

/// A [`Frequency`] as mathematics.
pub struct FrequencyView {
    pub hertz_bits: u64,
    pub megahertz: Seq<char>,
}

impl View for Frequency {
    type V = FrequencyView;

    open spec fn view(&self) -> FrequencyView {
        FrequencyView { hertz_bits: self.hertz_bits, megahertz: self.megahertz@ }
    }
}

/// One thing for the host to do. Except for a launch, the host ignores
/// whether the step succeeded.
#[derive(Debug, PartialEq, Eq)]
pub enum Step {
    /// Run the utility to completion and drop what it printed.
    Run(Invocation),
    /// Kill the shell with this process id, which the session tracked.
    Kill { pid: u32 },
    /// Wait until the shell with this process id has exited.
    Reap { pid: u32 },
    /// Start the shell without waiting for it, keep its handle, and report
    /// its process id or the reason why it did not start.
    Launch(Invocation),
    /// Sleep for this many milliseconds.
    Pause { millis: u64 },
}

/// A [`Step`] as mathematics.
pub enum StepView {
    Run(InvocationView),
    Kill { pid: u32 },
    Reap { pid: u32 },
    Launch(InvocationView),
    Pause { millis: u64 },
}

impl View for Step {
    type V = StepView;

    open spec fn view(&self) -> StepView {
        match self {
            Step::Run(call) => StepView::Run(call@),
            Step::Kill { pid } => StepView::Kill { pid: *pid },
            Step::Reap { pid } => StepView::Reap { pid: *pid },
            Step::Launch(call) => StepView::Launch(call@),
            Step::Pause { millis } => StepView::Pause { millis: *millis },
        }
    }
}

impl DeepView for Step {
    type V = StepView;

    open spec fn deep_view(&self) -> StepView {
        self@
    }
}

/// The steps of a command that needs no report from the host, and the
/// answer to give once they are done.
#[derive(Debug, PartialEq, Eq)]
pub struct Plan {
    pub steps: Vec<Step>,
    pub reply: bool,
}

/// A start or a retune under way: its steps, which end in a launch, and a
/// note of the frequency that was asked for. The host hands it back to
/// [`Session::launch_reported`] with the outcome of the launch.
#[derive(Debug, PartialEq, Eq)]
pub struct PendingLaunch {
    steps: Vec<Step>,
    hertz_bits: u64,
}

/// A [`PendingLaunch`] as mathematics.
pub struct PendingLaunchView {
    pub steps: Seq<StepView>,
    pub hertz_bits: u64,
}

impl View for PendingLaunch {
    type V = PendingLaunchView;

    closed spec fn view(&self) -> PendingLaunchView {
        PendingLaunchView { steps: self.steps.deep_view(), hertz_bits: self.hertz_bits }
    }
}

impl PendingLaunch {
    /// The steps for the host, in order.
    pub fn steps(&self) -> (steps: &Vec<Step>)
        ensures
            steps.deep_view() == self@.steps,
    {
        &self.steps
    }

    /// The frequency that was asked for, as in [`Frequency::hertz_bits`].
    pub fn hertz_bits(&self) -> (bits: u64)
        ensures
            bits == self@.hertz_bits,
    {
        self.hertz_bits
    }
}

/// The state between commands.
#[derive(Debug, PartialEq, Eq)]
pub struct Session {
    active: Option<u32>,
    frequency_bits: u64,
    volume: u32,
}

/// A [`Session`] as mathematics.
pub struct SessionView {
    /// The process id of the shell that runs the pipeline, if one does.
    pub active: Option<u32>,
    /// The frequency of the last successful start, encoded as in
    /// [`Frequency::hertz_bits`].
    pub frequency_bits: u64,
    /// The volume last asked for.
    pub volume: u32,
}

/// The message of a failed launch.
pub open spec fn spec_launch_failure(reason: Seq<char>) -> Seq<char> {
    "Failed to start radio: "@ + reason
}

impl SessionView {
    /// A fresh session: idle, at 100 MHz, volume 75.
    pub open spec fn initial() -> SessionView {
        SessionView { active: None, frequency_bits: DEFAULT_HERTZ_BITS, volume: DEFAULT_VOLUME }
    }

    /// The shells that the session tracks: one or none.
    pub open spec fn shells(self) -> Set<u32> {
        match self.active {
            Some(pid) => set![pid],
            None => Set::empty(),
        }
    }

    /// The same session with no shell tracked.
    pub open spec fn released(self) -> SessionView {
        SessionView { active: None, ..self }
    }

    /// What ends the tracked shell on a start: kill it, then wait for it.
    pub open spec fn takeover_steps(self) -> Seq<StepView> {
        match self.active {
            Some(pid) => seq![StepView::Kill { pid }, StepView::Reap { pid }],
            None => seq![],
        }
    }

    /// A start ends the tracked shell, if there is one, and only then
    /// launches the pipeline.
    pub open spec fn start_steps(self, megahertz: Seq<char>) -> Seq<StepView> {
        self.takeover_steps() + seq![StepView::Launch(spec_playback(megahertz))]
    }

    /// What ends the tracked shell on a stop: signal its children, kill it,
    /// then wait for it.
    pub open spec fn shutdown_steps(self) -> Seq<StepView> {
        match self.active {
            Some(pid) => seq![
                StepView::Run(spec_signal_children(pid)),
                StepView::Kill { pid },
                StepView::Reap { pid },
            ],
            None => seq![],
        }
    }

    /// The sweep for demodulators and players that no session tracks.
    pub open spec fn sweep_steps() -> Seq<StepView> {
        seq![
            StepView::Run(spec_sweep_demodulators()),
            StepView::Run(spec_sweep_players()),
        ]
    }

    /// A stop ends the tracked shell, if there is one, and sweeps in any
    /// case.
    pub open spec fn stop_steps(self) -> Seq<StepView> {
        self.shutdown_steps() + Self::sweep_steps()
    }

    /// A retune stops, pauses, and launches the pipeline anew.
    pub open spec fn tune_steps(self, megahertz: Seq<char>) -> Seq<StepView> {
        self.stop_steps() + seq![
            StepView::Pause { millis: RETUNE_PAUSE_MILLIS },
            StepView::Launch(spec_playback(megahertz)),
        ]
    }

    /// Setting the volume asks the system once.
    pub open spec fn volume_steps(volume: u32) -> Seq<StepView> {
        seq![StepView::Run(spec_volume_control(volume))]
    }

    /// The session after the host has reported on a launch at the frequency
    /// `hertz_bits`: a shell that started is tracked and its frequency
    /// stored; a failure changes nothing.
    pub open spec fn launched(self, hertz_bits: u64, outcome: Result<u32, Seq<char>>) -> SessionView {
        match outcome {
            Ok(pid) => SessionView { active: Some(pid), frequency_bits: hertz_bits, ..self },
            Err(_) => self,
        }
    }

    /// The same session at another volume.
    pub open spec fn with_volume(self, volume: u32) -> SessionView {
        SessionView { volume, ..self }
    }
}

impl View for Session {
    type V = SessionView;

    closed spec fn view(&self) -> SessionView {
        SessionView { active: self.active, frequency_bits: self.frequency_bits, volume: self.volume }
    }
}

impl Default for Session {
    fn default() -> (session: Session)
        ensures
            session@ == SessionView::initial(),
    {
        Session { active: None, frequency_bits: DEFAULT_HERTZ_BITS, volume: DEFAULT_VOLUME }
    }
}

impl Session {
    /// The process id of the shell that runs the pipeline, if one does.
    pub fn active(&self) -> (pid: Option<u32>)
        ensures
            pid == self@.active,
    {
        self.active
    }

    /// Whether a pipeline runs.
    pub fn is_playing(&self) -> (playing: bool)
        ensures
            playing == self@.active is Some,
    {
        self.active.is_some()
    }

    /// The frequency of the last successful start, as in
    /// [`Frequency::hertz_bits`].
    pub fn frequency_bits(&self) -> (bits: u64)
        ensures
            bits == self@.frequency_bits,
    {
        self.frequency_bits
    }

    /// The volume last asked for.
    pub fn volume(&self) -> (volume: u32)
        ensures
            volume == self@.volume,
    {
        self.volume
    }

    /// Starts playback at `frequency`.
    ///
    /// The session lets go of the shell it tracked; the steps end that
    /// shell and launch the new pipeline. The host reports the launch
    /// through [`Session::launch_reported`].
    pub fn start_radio(&mut self, frequency: &Frequency) -> (pending: PendingLaunch)
        ensures
            pending@.steps == old(self)@.start_steps(frequency@.megahertz),
            pending@.hertz_bits == frequency@.hertz_bits,
            final(self)@ == old(self)@.released(),
    {
        let mut steps: Vec<Step> = Vec::new();
        if let Some(pid) = self.active.take() {
            steps.push(Step::Kill { pid });
            steps.push(Step::Reap { pid });
        }
        steps.push(Step::Launch(playback(frequency.megahertz.as_str())));
        assert(steps.deep_view() =~= old(self)@.start_steps(frequency@.megahertz));
        PendingLaunch { steps, hertz_bits: frequency.hertz_bits }
    }

    /// Takes the host's report on the launch that a start or a retune asked
    /// for, and gives the command's answer.
    ///
    /// A process id means that the shell runs: it is tracked from now on,
    /// the frequency that was asked for is stored, and the answer is
    /// `Ok(true)`. A reason means that no shell was started: the session
    /// stays as it is and the answer is the failure message, which ends in
    /// the reason.
    pub fn launch_reported(&mut self, pending: PendingLaunch, outcome: Result<u32, String>) -> (reply:
        Result<bool, String>)
        ensures
            final(self)@ == old(self)@.launched(
                pending@.hertz_bits,
                match outcome {
                    Ok(pid) => Ok(pid),
                    Err(reason) => Err(reason@),
                },
            ),
            outcome is Ok ==> reply == Ok::<bool, String>(true),
            outcome matches Err(reason) ==> reply matches Err(message) && message@
                == spec_launch_failure(reason@),
    {
        match outcome {
            Ok(pid) => {
                self.active = Some(pid);
                self.frequency_bits = pending.hertz_bits;
                Ok(true)
            },
            Err(reason) => Err(String::from_str("Failed to start radio: ").concat(reason.as_str())),
        }
    }

    /// Stops playback and sweeps for strays; always answers `true`.
    ///
    /// When idle, the session does not change and the steps are the sweep
    /// alone.
    pub fn stop_radio(&mut self) -> (plan: Plan)
        ensures
            plan.steps.deep_view() == old(self)@.stop_steps(),
            plan.reply,
            final(self)@ == old(self)@.released(),
            old(self)@.active is None ==> final(self)@ == old(self)@ && plan.steps.deep_view()
                == SessionView::sweep_steps(),
    {
        let mut steps: Vec<Step> = Vec::new();
        if let Some(pid) = self.active.take() {
            steps.push(Step::Run(signal_children(pid)));
            steps.push(Step::Kill { pid });
            steps.push(Step::Reap { pid });
        }
        steps.push(Step::Run(sweep_demodulators()));
        steps.push(Step::Run(sweep_players()));
        assert(steps.deep_view() =~= old(self)@.stop_steps());
        Plan { steps, reply: true }
    }

    /// Retunes to `frequency`: stops, pauses, and starts again.
    ///
    /// The host reports the launch through [`Session::launch_reported`].
    pub fn tune_frequency(&mut self, frequency: &Frequency) -> (pending: PendingLaunch)
        ensures
            pending@.steps == old(self)@.tune_steps(frequency@.megahertz),
            pending@.hertz_bits == frequency@.hertz_bits,
            final(self)@ == old(self)@.released(),
    {
        let Plan { steps: mut steps, reply: _ } = self.stop_radio();
        let ghost stopping = steps.deep_view();
        steps.push(Step::Pause { millis: RETUNE_PAUSE_MILLIS });
        let PendingLaunch { steps: mut restart, hertz_bits } = self.start_radio(frequency);
        let ghost starting = restart.deep_view();
        assert(starting =~= seq![StepView::Launch(spec_playback(frequency@.megahertz))]);
        steps.append(&mut restart);
        assert(steps.deep_view() =~= stopping + seq![
            StepView::Pause { millis: RETUNE_PAUSE_MILLIS },
        ] + starting);
        assert(steps.deep_view() =~= old(self)@.tune_steps(frequency@.megahertz));
        PendingLaunch { steps, hertz_bits }
    }

    /// Stores `volume`, whatever becomes of the request to the system, and
    /// answers `true`.
    pub fn set_volume(&mut self, volume: u32) -> (plan: Plan)
        ensures
            final(self)@ == old(self)@.with_volume(volume),
            plan.steps.deep_view() == SessionView::volume_steps(volume),
            plan.reply,
    {
        self.volume = volume;
        let mut steps: Vec<Step> = Vec::new();
        steps.push(Step::Run(volume_control(volume)));
        assert(steps.deep_view() =~= SessionView::volume_steps(volume));
        Plan { steps, reply: true }
    }
}

} // verus!
