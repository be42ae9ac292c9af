use fm_radio::decimal::decimal_text;
use fm_radio::invocation::{
    device_probe, pipeline, playback, signal_children, sweep_demodulators, sweep_players,
    volume_control, volume_script, Invocation, Sink,
};

fn expected(program: &str, args: &[&str]) -> Invocation {
    Invocation {
        program: program.to_string(),
        args: args.iter().map(|arg| arg.to_string()).collect(),
        stdout: Sink::Collect,
        stderr: Sink::Collect,
    }
}

#[test]
fn decimal_text_of_small_numbers() {
    assert_eq!(decimal_text(0), "0");
    assert_eq!(decimal_text(7), "7");
    assert_eq!(decimal_text(9), "9");
    assert_eq!(decimal_text(10), "10");
    assert_eq!(decimal_text(75), "75");
    assert_eq!(decimal_text(100), "100");
    assert_eq!(decimal_text(1234567890), "1234567890");
}

#[test]
fn decimal_text_of_the_largest_number() {
    assert_eq!(decimal_text(u32::MAX), "4294967295");
}

#[test]
fn decimal_text_agrees_with_the_standard_library() {
    let mut n: u32 = 1;
    for _ in 0..40 {
        assert_eq!(decimal_text(n), n.to_string());
        n = n.wrapping_mul(1_664_525).wrapping_add(1_013_904_223);
    }
}

#[test]
fn device_probe_is_the_test_utility_with_its_test_flag() {
    let probe = device_probe();
    assert_eq!(probe.program, "rtl_test");
    assert_eq!(probe.args, vec!["-t".to_string()]);
    assert_eq!(probe.stdout, Sink::Discard);
    assert_eq!(probe.stderr, Sink::Collect);
}

#[test]
fn pipeline_at_100_mhz_letter_for_letter() {
    assert_eq!(
        pipeline("100"),
        "rtl_fm -f 100M -M wbfm -s 200000 -r 48000 - 2>/dev/null | play -r 48000 -t raw -e s -b 16 -c 1 -V0 - 2>/dev/null"
    );
}

#[test]
fn pipeline_takes_the_megahertz_figure_as_given() {
    assert_eq!(
        pipeline("87.5"),
        "rtl_fm -f 87.5M -M wbfm -s 200000 -r 48000 - 2>/dev/null | play -r 48000 -t raw -e s -b 16 -c 1 -V0 - 2>/dev/null"
    );
    assert!(pipeline("").starts_with("rtl_fm -f M -M wbfm"));
    assert!(pipeline("NaN").contains("-f NaNM "));
}

#[test]
fn pipeline_agrees_with_formatted_floats() {
    for hertz in [100.0e6_f64, 101.1e6, 87.5e6, 107.9e6, 99.95e6] {
        let line = pipeline(&format!("{}", hertz / 1e6));
        assert_eq!(
            line,
            format!(
                "rtl_fm -f {}M -M wbfm -s 200000 -r 48000 - 2>/dev/null | play -r 48000 -t raw -e s -b 16 -c 1 -V0 - 2>/dev/null",
                hertz / 1e6
            )
        );
    }
}

#[test]
fn playback_runs_the_pipeline_in_a_shell() {
    let call = playback("101.1");
    assert_eq!(call.program, "sh");
    assert_eq!(call.args, vec!["-c".to_string(), pipeline("101.1")]);
    assert_eq!(call.stdout, Sink::Discard);
    assert_eq!(call.stderr, Sink::Discard);
}

#[test]
fn signal_children_names_the_parent() {
    assert_eq!(signal_children(4711), expected("pkill", &["-P", "4711"]));
    assert_eq!(signal_children(0), expected("pkill", &["-P", "0"]));
}

#[test]
fn sweeps_match_by_command_line() {
    assert_eq!(sweep_demodulators(), expected("pkill", &["-f", "rtl_fm"]));
    assert_eq!(sweep_players(), expected("pkill", &["-f", "play.*raw"]));
}

#[test]
fn volume_script_names_the_volume() {
    assert_eq!(volume_script(75), "set volume output volume 75");
    assert_eq!(volume_script(0), "set volume output volume 0");
    assert_eq!(volume_script(100), "set volume output volume 100");
}

#[test]
fn volume_control_runs_the_script() {
    assert_eq!(
        volume_control(42),
        expected("osascript", &["-e", "set volume output volume 42"])
    );
}
