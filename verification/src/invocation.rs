//! The command lines of the external tools, letter for letter.
//!
//! The tools are a compatibility surface: a flag or a sample rate that
//! differs by one character reaches a program that no longer understands
//! it. Each command line is therefore written down twice, as a `spec`
//! function over sequences of characters and as the function that builds
//! it, and the second is proved equal to the first.

use vstd::prelude::*;
use crate::decimal::{decimal, decimal_text};

verus! {

/// Where the host sends an output stream of a program it starts.
#[derive(Debug, Clone, Copy, PartialEq, Eq)]
pub enum Sink {
    /// Nowhere: the stream is connected to the null device.
    Discard,
    /// Into a pipe that the host reads to the end.
    Collect,
}

/// A program, the arguments it is started with, and where its two output
/// streams go.
#[derive(Debug, PartialEq, Eq)]
pub struct Invocation {
    pub program: String,
    pub args: Vec<String>,
    pub stdout: Sink,
    pub stderr: Sink,
}

/// An [`Invocation`] as mathematics.
pub struct InvocationView {
    pub program: Seq<char>,
    pub args: Seq<Seq<char>>,
    pub stdout: Sink,
    pub stderr: Sink,
}

impl View for Invocation {
    type V = InvocationView;

    open spec fn view(&self) -> InvocationView {
        InvocationView {
            program: self.program@,
            args: self.args.deep_view(),
            stdout: self.stdout,
            stderr: self.stderr,
        }
    }
}

impl DeepView for Invocation {
    type V = InvocationView;

    open spec fn deep_view(&self) -> InvocationView {
        self@
    }
}

/// A utility whose outcome nobody looks at: both streams are collected and
/// dropped.
pub open spec fn spec_utility(program: Seq<char>, args: Seq<Seq<char>>) -> InvocationView {
    InvocationView { program, args, stdout: Sink::Collect, stderr: Sink::Collect }
}

/// The device probe: the receiver's test utility with its short test flag.
/// What it finds it prints on its diagnostic stream, which is collected.
pub open spec fn spec_device_probe() -> InvocationView {
    InvocationView {
        program: "rtl_test"@,
        args: seq!["-t"@],
        stdout: Sink::Discard,
        stderr: Sink::Collect,
    }
}

/// The shell pipeline that plays the station at `megahertz`: the
/// demodulator in wideband FM, sampling at 200000 and resampling to 48000,
/// feeds a player that reads raw signed 16-bit mono at 48000. Both are
/// silenced.
pub open spec fn spec_pipeline(megahertz: Seq<char>) -> Seq<char> {
    "rtl_fm -f "@ + megahertz
        + "M -M wbfm -s 200000 -r 48000 - 2>/dev/null | play -r 48000 -t raw -e s -b 16 -c 1 -V0 - 2>/dev/null"@
}

/// The shell that runs [`spec_pipeline`], with nothing of its output kept.
pub open spec fn spec_playback(megahertz: Seq<char>) -> InvocationView {
    InvocationView {
        program: "sh"@,
        args: seq!["-c"@, spec_pipeline(megahertz)],
        stdout: Sink::Discard,
        stderr: Sink::Discard,
    }
}

/// Signals every child of the process `pid`.
pub open spec fn spec_signal_children(pid: u32) -> InvocationView {
    spec_utility("pkill"@, seq!["-P"@, decimal(pid as nat)])
}

/// Signals every demodulator on the machine, whoever started it.
pub open spec fn spec_sweep_demodulators() -> InvocationView {
    spec_utility("pkill"@, seq!["-f"@, "rtl_fm"@])
}

/// Signals every player of raw audio on the machine, whoever started it.
pub open spec fn spec_sweep_players() -> InvocationView {
    spec_utility("pkill"@, seq!["-f"@, "play.*raw"@])
}

/// The script that sets the system's output volume.
pub open spec fn spec_volume_script(volume: u32) -> Seq<char> {
    "set volume output volume "@ + decimal(volume as nat)
}

/// The system's scripting utility, running [`spec_volume_script`].
pub open spec fn spec_volume_control(volume: u32) -> InvocationView {
    spec_utility("osascript"@, seq!["-e"@, spec_volume_script(volume)])
}

fn invocation(
    program: &str,
    first: &str,
    second: Option<String>,
    stdout: Sink,
    stderr: Sink,
) -> (call: Invocation)
    ensures
        call@ == (InvocationView {
            program: program@,
            args: match second {
                Some(last) => seq![first@, last@],
                None => seq![first@],
            },
            stdout,
            stderr,
        }),
{
    let mut args: Vec<String> = Vec::new();
    args.push(String::from_str(first));
    match second {
        Some(last) => {
            args.push(last);
            assert(args.deep_view() =~= seq![first@, last@]);
        },
        None => {
            assert(args.deep_view() =~= seq![first@]);
        },
    }
    Invocation { program: String::from_str(program), args, stdout, stderr }
}

fn utility(program: &str, flag: &str, operand: String) -> (call: Invocation)
    ensures
        call@ == spec_utility(program@, seq![flag@, operand@]),
{
    invocation(program, flag, Some(operand), Sink::Collect, Sink::Collect)
}

/// Builds the device probe.
pub fn device_probe() -> (call: Invocation)
    ensures
        call@ == spec_device_probe(),
{
    invocation("rtl_test", "-t", None, Sink::Discard, Sink::Collect)
}

/// Builds the pipeline for the station at `megahertz`, a number in decimal
/// notation such as `101.1`.
pub fn pipeline(megahertz: &str) -> (line: String)
    ensures
        line@ == spec_pipeline(megahertz@),
{
    let line = String::from_str("rtl_fm -f ").concat(megahertz).concat(
        "M -M wbfm -s 200000 -r 48000 - 2>/dev/null | play -r 48000 -t raw -e s -b 16 -c 1 -V0 - 2>/dev/null",
    );
    line
}

/// Builds the shell invocation that plays the station at `megahertz`.
pub fn playback(megahertz: &str) -> (call: Invocation)
    ensures
        call@ == spec_playback(megahertz@),
{
    invocation("sh", "-c", Some(pipeline(megahertz)), Sink::Discard, Sink::Discard)
}

/// Builds the call that signals the children of `pid`.
pub fn signal_children(pid: u32) -> (call: Invocation)
    ensures
        call@ == spec_signal_children(pid),
{
    utility("pkill", "-P", decimal_text(pid))
}

/// Builds the call that signals stray demodulators.
pub fn sweep_demodulators() -> (call: Invocation)
    ensures
        call@ == spec_sweep_demodulators(),
{
    utility("pkill", "-f", String::from_str("rtl_fm"))
}

/// Builds the call that signals stray players.
pub fn sweep_players() -> (call: Invocation)
    ensures
        call@ == spec_sweep_players(),
{
    utility("pkill", "-f", String::from_str("play.*raw"))
}

/// Builds the script that sets the output volume to `volume`.
pub fn volume_script(volume: u32) -> (script: String)
    ensures
        script@ == spec_volume_script(volume),
{
    let digits = decimal_text(volume);
    String::from_str("set volume output volume ").concat(digits.as_str())
}

/// Builds the call that sets the output volume to `volume`.
pub fn volume_control(volume: u32) -> (call: Invocation)
    ensures
        call@ == spec_volume_control(volume),
{
    utility("osascript", "-e", volume_script(volume))
}

} // verus!
