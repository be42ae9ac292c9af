//! What holds across commands.
//!
//! The session never sees a process, only the steps it hands out and the
//! process ids that come back. The laws are therefore stated over a small
//! model of the host: the set of shells that run. A launch that succeeds
//! adds its shell to the set; waiting for a shell removes it.
//!
//! The main law is [`lemma_always_one_shell_at_most`]: whatever commands
//! arrive, in whatever order, and whatever becomes of each launch, the
//! shells that run are exactly the ones that the session tracks, and there
//! is never more than one.

use vstd::prelude::*;
use crate::invocation::spec_playback;
use crate::session::{FrequencyView, SessionView, StepView, RETUNE_PAUSE_MILLIS};

verus! {

/// The shells among `running` that still run once the host has carried out
/// `steps`: those that no step has waited for.
pub open spec fn survivors(running: Set<u32>, steps: Seq<StepView>) -> Set<u32> {
    running.filter(|pid: u32| !steps.contains(StepView::Reap { pid }))
}

/// The shells that run once the host has reported on a launch.
pub open spec fn with_launch(running: Set<u32>, outcome: Result<u32, Seq<char>>) -> Set<u32> {
    match outcome {
        Ok(pid) => running.insert(pid),
        Err(_) => running,
    }
}

/// No step starts a shell.
pub open spec fn launches_nothing(steps: Seq<StepView>) -> bool {
    forall|i: int| 0 <= i < steps.len() ==> !(#[trigger] steps[i] is Launch)
}

/// The last step starts a shell, and no step before it does.
pub open spec fn ends_in_the_only_launch(steps: Seq<StepView>) -> bool {
    &&& steps.len() >= 1
    &&& steps.last() is Launch
    &&& launches_nothing(steps.drop_last())
}

/// Every shell that a step kills or waits for is one of `shells`.
pub open spec fn ends_only(steps: Seq<StepView>, shells: Set<u32>) -> bool {
    forall|i: int|
        0 <= i < steps.len() ==> match #[trigger] steps[i] {
            StepView::Kill { pid } => shells.contains(pid),
            StepView::Reap { pid } => shells.contains(pid),
            _ => true,
        }
}

/// What the host can rely on in the steps it is handed. A start and a
/// retune end in their one launch, so there is exactly one outcome to
/// report; a stop and a change of volume launch nothing. No command ends a
/// shell other than the one that the session tracked.
pub proof fn lemma_plan_shapes(session: SessionView, megahertz: Seq<char>, volume: u32)
    ensures
        ends_in_the_only_launch(session.start_steps(megahertz)),
        ends_in_the_only_launch(session.tune_steps(megahertz)),
        launches_nothing(session.stop_steps()),
        launches_nothing(SessionView::volume_steps(volume)),
        ends_only(session.start_steps(megahertz), session.shells()),
        ends_only(session.tune_steps(megahertz), session.shells()),
        ends_only(session.stop_steps(), session.shells()),
        ends_only(SessionView::volume_steps(volume), session.shells()),
{
}

/// A session tracks at most one shell.
pub proof fn lemma_holds_at_most_one(session: SessionView)
    ensures
        session.shells().finite(),
        session.shells().len() <= 1,
        session.active is None <==> session.shells().len() == 0,
{
    match session.active {
        Some(pid) => {
            assert(session.shells() =~= Set::empty().insert(pid));
        },
        None => {},
    }
}

/// The session is idle or playing. A fresh session is idle. A stop leaves
/// it idle. A start or a retune leaves it playing the shell that was
/// launched, or idle if none was. The volume has no part in it.
pub proof fn lemma_idle_and_playing(
    session: SessionView,
    hertz_bits: u64,
    pid: u32,
    reason: Seq<char>,
    volume: u32,
)
    ensures
        SessionView::initial().active is None,
        session.released().active is None,
        session.released().launched(hertz_bits, Ok(pid)).active == Some(pid),
        session.released().launched(hertz_bits, Err(reason)).active is None,
        session.with_volume(volume).active == session.active,
{
}

/// The frequency is stored on a launch that succeeds and at no other time.
pub proof fn lemma_frequency_follows_success(
    session: SessionView,
    hertz_bits: u64,
    pid: u32,
    reason: Seq<char>,
    volume: u32,
)
    ensures
        session.released().frequency_bits == session.frequency_bits,
        session.released().launched(hertz_bits, Ok(pid)).frequency_bits == hertz_bits,
        session.released().launched(hertz_bits, Err(reason)).frequency_bits
            == session.frequency_bits,
        session.with_volume(volume).frequency_bits == session.frequency_bits,
{
}

/// A start keeps the host and the session in step: if the shells that run
/// are the ones the session tracks, they still are after the start's steps
/// and the report on its launch, whatever that report is.
pub proof fn lemma_start_keeps_track(
    session: SessionView,
    frequency: FrequencyView,
    outcome: Result<u32, Seq<char>>,
)
    ensures
        survivors(session.shells(), session.start_steps(frequency.megahertz)) == Set::<
            u32,
        >::empty(),
        with_launch(
            survivors(session.shells(), session.start_steps(frequency.megahertz)),
            outcome,
        ) == session.released().launched(frequency.hertz_bits, outcome).shells(),
{
    let steps = session.start_steps(frequency.megahertz);
    match session.active {
        Some(pid) => {
            assert(steps[1] == StepView::Reap { pid });
        },
        None => {},
    }
    assert(survivors(session.shells(), steps) =~= Set::<u32>::empty());
    assert(with_launch(Set::<u32>::empty(), outcome) =~= session.released().launched(
        frequency.hertz_bits,
        outcome,
    ).shells());
}

/// A stop leaves no shell running that the session tracked, and the session
/// tracks none afterwards.
pub proof fn lemma_stop_keeps_track(session: SessionView)
    ensures
        survivors(session.shells(), session.stop_steps()) == Set::<u32>::empty(),
        session.released().shells() == Set::<u32>::empty(),
{
    let steps = session.stop_steps();
    match session.active {
        Some(pid) => {
            assert(steps[2] == StepView::Reap { pid });
        },
        None => {},
    }
    assert(survivors(session.shells(), steps) =~= Set::<u32>::empty());
}

/// Two starts in a row never leave two shells running. The second start
/// kills the first shell and waits for it, and only then launches; once
/// both launches have succeeded, the one shell that runs is the second,
/// and it is the one that the session tracks.
pub proof fn lemma_second_start_replaces_first(
    session: SessionView,
    first: FrequencyView,
    first_pid: u32,
    second: FrequencyView,
    second_pid: u32,
)
    ensures
        ({
            let after_first = session.released().launched(first.hertz_bits, Ok(first_pid));
            let running_first = with_launch(
                survivors(session.shells(), session.start_steps(first.megahertz)),
                Ok(first_pid),
            );
            let second_steps = after_first.start_steps(second.megahertz);
            let after_second = after_first.released().launched(second.hertz_bits, Ok(second_pid));
            let running_second = with_launch(survivors(running_first, second_steps), Ok(second_pid));
            &&& second_steps == seq![
                StepView::Kill { pid: first_pid },
                StepView::Reap { pid: first_pid },
                StepView::Launch(spec_playback(second.megahertz)),
            ]
            &&& running_second == set![second_pid]
            &&& after_second.shells() == running_second
            &&& after_second.frequency_bits == second.hertz_bits
        }),
{
    let after_first = session.released().launched(first.hertz_bits, Ok(first_pid));
    lemma_start_keeps_track(session, first, Ok(first_pid));
    lemma_start_keeps_track(after_first, second, Ok(second_pid));
    let second_steps = after_first.start_steps(second.megahertz);
    assert(second_steps =~= seq![
        StepView::Kill { pid: first_pid },
        StepView::Reap { pid: first_pid },
        StepView::Launch(spec_playback(second.megahertz)),
    ]);
}

/// A retune is a stop, then the pause, then a start, in that order: the
/// host is handed the same steps, and the session ends up the same.
pub proof fn lemma_retune_is_stop_pause_start(session: SessionView, frequency: FrequencyView)
    ensures
        session.tune_steps(frequency.megahertz) == session.stop_steps() + seq![
            StepView::Pause { millis: RETUNE_PAUSE_MILLIS },
        ] + session.released().start_steps(frequency.megahertz),
        session.released().released() == session.released(),
{
    assert(session.tune_steps(frequency.megahertz) =~= session.stop_steps() + seq![
        StepView::Pause { millis: RETUNE_PAUSE_MILLIS },
    ] + session.released().start_steps(frequency.megahertz));
}

/// A retune keeps the host and the session in step, as a start does.
pub proof fn lemma_retune_keeps_track(
    session: SessionView,
    frequency: FrequencyView,
    outcome: Result<u32, Seq<char>>,
)
    ensures
        with_launch(
            survivors(session.shells(), session.tune_steps(frequency.megahertz)),
            outcome,
        ) == session.released().launched(frequency.hertz_bits, outcome).shells(),
{
    let steps = session.tune_steps(frequency.megahertz);
    match session.active {
        Some(pid) => {
            assert(steps[2] == StepView::Reap { pid });
        },
        None => {},
    }
    assert(survivors(session.shells(), steps) =~= Set::<u32>::empty());
    assert(with_launch(Set::<u32>::empty(), outcome) =~= session.released().launched(
        frequency.hertz_bits,
        outcome,
    ).shells());
}

/// A command as it played out: what was asked, and for a start and a
/// retune what the host reported of the launch.
pub enum Command {
    Start { frequency: FrequencyView, outcome: Result<u32, Seq<char>> },
    Stop,
    Retune { frequency: FrequencyView, outcome: Result<u32, Seq<char>> },
    SetVolume { volume: u32 },
}

/// The session and the shells that run on its host.
pub struct World {
    pub session: SessionView,
    pub running: Set<u32>,
}

impl World {
    /// A fresh session on a host where none of its shells runs.
    pub open spec fn initial() -> World {
        World { session: SessionView::initial(), running: Set::empty() }
    }

    /// The shells that run are the ones that the session tracks.
    pub open spec fn in_step(self) -> bool {
        self.running == self.session.shells()
    }

    /// The world after one command: the session as the command leaves it,
    /// and the shells that are left once the host has carried out the
    /// command's steps and, where there was a launch, has started the shell
    /// it reported.
    pub open spec fn after(self, command: Command) -> World {
        match command {
            Command::Start { frequency, outcome } => World {
                session: self.session.released().launched(frequency.hertz_bits, outcome),
                running: with_launch(
                    survivors(self.running, self.session.start_steps(frequency.megahertz)),
                    outcome,
                ),
            },
            Command::Stop => World {
                session: self.session.released(),
                running: survivors(self.running, self.session.stop_steps()),
            },
            Command::Retune { frequency, outcome } => World {
                session: self.session.released().launched(frequency.hertz_bits, outcome),
                running: with_launch(
                    survivors(self.running, self.session.tune_steps(frequency.megahertz)),
                    outcome,
                ),
            },
            Command::SetVolume { volume } => World {
                session: self.session.with_volume(volume),
                running: survivors(self.running, SessionView::volume_steps(volume)),
            },
        }
    }

    /// The world after a series of commands, the first one first.
    pub open spec fn after_all(self, commands: Seq<Command>) -> World
        decreases commands.len(),
    {
        if commands.len() == 0 {
            self
        } else {
            self.after_all(commands.drop_last()).after(commands.last())
        }
    }
}

/// No command brings the host and the session out of step.
pub proof fn lemma_command_keeps_track(world: World, command: Command)
    requires
        world.in_step(),
    ensures
        world.after(command).in_step(),
{
    match command {
        Command::Start { frequency, outcome } => {
            lemma_start_keeps_track(world.session, frequency, outcome);
        },
        Command::Stop => {
            lemma_stop_keeps_track(world.session);
        },
        Command::Retune { frequency, outcome } => {
            lemma_retune_keeps_track(world.session, frequency, outcome);
        },
        Command::SetVolume { volume } => {
            let steps = SessionView::volume_steps(volume);
            assert(survivors(world.running, steps) =~= world.running);
        },
    }
}

/// At most one shell runs at any time. From a fresh session, after any
/// series of commands, whatever the host reported of each launch, the
/// shells that run are the ones that the session tracks: one or none.
pub proof fn lemma_always_one_shell_at_most(commands: Seq<Command>)
    ensures
        World::initial().after_all(commands).in_step(),
        World::initial().after_all(commands).running.finite(),
        World::initial().after_all(commands).running.len() <= 1,
    decreases commands.len(),
{
    if commands.len() > 0 {
        lemma_always_one_shell_at_most(commands.drop_last());
        lemma_command_keeps_track(
            World::initial().after_all(commands.drop_last()),
            commands.last(),
        );
    }
    lemma_holds_at_most_one(World::initial().after_all(commands).session);
}

} // verus!
