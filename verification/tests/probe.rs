use fm_radio::probe::{check_device, reports_device, text_mentions};

#[test]
fn check_device_is_false_when_the_probe_could_not_be_run() {
    assert!(!check_device(None));
}

#[test]
fn check_device_finds_a_receiver_in_typical_diagnostics() {
    let diagnostics = b"Found 1 device(s):\n  0:  Realtek, RTL2838UHIDIR, SN: 00000001\n\nUsing device 0: Generic RTL2832U OEM\n";
    assert!(check_device(Some(&diagnostics[..])));
}

#[test]
fn check_device_is_false_when_no_receiver_is_listed() {
    assert!(!check_device(Some(&b"No supported devices found.\n"[..])));
}

#[test]
fn check_device_is_false_on_empty_diagnostics() {
    assert!(!check_device(Some(&b""[..])));
}

#[test]
fn check_device_needs_both_marks() {
    assert!(!check_device(Some(&b"Found nothing"[..])));
    assert!(!check_device(Some(&b"no device"[..])));
    assert!(check_device(Some(&b"device Found"[..])));
}

#[test]
fn check_device_is_case_sensitive() {
    assert!(!check_device(Some(&b"found 1 device(s)"[..])));
    assert!(!check_device(Some(&b"Found 1 Device(s)"[..])));
}

#[test]
fn check_device_reads_past_bytes_that_are_not_text() {
    let mut diagnostics: Vec<u8> = vec![0xff, 0xfe, 0x80];
    diagnostics.extend_from_slice(b"Found");
    diagnostics.extend_from_slice(&[0xc3, 0x28, 0xf0, 0x9f]);
    diagnostics.extend_from_slice(b"device");
    diagnostics.push(0xff);
    assert!(check_device(Some(&diagnostics[..])));
}

#[test]
fn check_device_does_not_join_marks_across_bad_bytes() {
    let mut diagnostics: Vec<u8> = Vec::new();
    diagnostics.extend_from_slice(b"Fou");
    diagnostics.push(0xff);
    diagnostics.extend_from_slice(b"nd device");
    assert!(!check_device(Some(&diagnostics[..])));
}

#[test]
fn check_device_agrees_with_the_standard_library() {
    let samples: [&[u8]; 6] = [
        b"Found 1 device(s)",
        b"Found\xffdevice",
        b"Foun\xe2\x82d device",
        b"\xf0\x9f\x93\xbb Found a device \xf0\x9f\x93\xbb",
        b"devic\xc3\xa9 Found",
        b"",
    ];
    for sample in samples {
        let text = String::from_utf8_lossy(sample);
        let expected = text.contains("Found") && text.contains("device");
        assert_eq!(check_device(Some(sample)), expected);
    }
}

#[test]
fn reports_device_reads_text() {
    assert!(reports_device("Found 1 device(s)"));
    assert!(reports_device("deviceFound"));
    assert!(!reports_device("Found"));
    assert!(!reports_device("device"));
    assert!(!reports_device(""));
    assert!(!reports_device("Found evice"));
}

#[test]
fn reports_device_lets_the_marks_share_a_letter() {
    assert!(reports_device("Foundevice"));
    assert_eq!("Foundevice".contains("Found") && "Foundevice".contains("device"), true);
}

#[test]
fn text_mentions_finds_words_anywhere() {
    assert!(text_mentions("abcabd", "abd"));
    assert!(text_mentions("abcabd", "abc"));
    assert!(text_mentions("abcabd", "cab"));
    assert!(text_mentions("abcabd", "abcabd"));
    assert!(!text_mentions("abcabd", "abdc"));
    assert!(!text_mentions("abcabd", "abcabda"));
    assert!(!text_mentions("aaab", "aaaa"));
    assert!(text_mentions("aaab", "aab"));
}

#[test]
fn text_mentions_the_empty_word_everywhere() {
    assert!(text_mentions("", ""));
    assert!(text_mentions("abc", ""));
    assert!(!text_mentions("", "a"));
}

#[test]
fn text_mentions_counts_characters_not_bytes() {
    assert!(text_mentions("Gerät Found", "Found"));
    assert!(text_mentions("Empfänger gefunden", "änger"));
    assert!(!text_mentions("Empfänger", "anger"));
    assert!(text_mentions("\u{fffd}device\u{fffd}", "device"));
}
