use rusty_herring::report::{compose_report, report_on};
use rusty_herring::text::decimal_string;
use rusty_herring::{App, RunOutput, Screen, Script};

fn one_script() -> Vec<Script> {
    vec![Script {
        path: "/tmp/a.sh".to_string(),
        name: "a.sh".to_string(),
        description: None,
        category: None,
    }]
}

#[test]
fn failed_run_with_stderr_only() {
    let output = RunOutput {
        code: Some(2),
        stdout: Vec::new(),
        stderr: b"boom".to_vec(),
    };
    let report = report_on(&output);
    assert_eq!(
        report,
        "✗ Script failed\nExit code: 2\n\n=== OUTPUT ===\n(no output)\n\n=== ERRORS ===\nboom"
    );
    let mut lines = report.lines();
    assert_eq!(lines.next(), Some("✗ Script failed"));
    assert_eq!(lines.next(), Some("Exit code: 2"));
}

#[test]
fn successful_run_with_output() {
    let output = RunOutput {
        code: Some(0),
        stdout: b"hello\nworld\n".to_vec(),
        stderr: Vec::new(),
    };
    assert_eq!(
        report_on(&output),
        "✓ Script completed successfully\nExit code: 0\n\n=== OUTPUT ===\nhello\nworld\n\n\n=== ERRORS ===\n(none)"
    );
}

#[test]
fn missing_exit_code_is_reported_as_minus_one() {
    let output = RunOutput {
        code: None,
        stdout: b"partial".to_vec(),
        stderr: b"killed".to_vec(),
    };
    assert_eq!(
        report_on(&output),
        "✗ Script failed\nExit code: -1\n\n=== OUTPUT ===\npartial\n\n=== ERRORS ===\nkilled"
    );
}

#[test]
fn invalid_bytes_are_replaced() {
    let output = RunOutput {
        code: Some(0),
        stdout: vec![b'a', 0xff, b'b'],
        stderr: vec![0xc3],
    };
    assert_eq!(
        report_on(&output),
        "✓ Script completed successfully\nExit code: 0\n\n=== OUTPUT ===\na\u{fffd}b\n\n=== ERRORS ===\n\u{fffd}"
    );
}

#[test]
fn valid_utf8_is_decoded_as_it_stands() {
    let output = RunOutput {
        code: Some(1),
        stdout: "Grüße ✓".as_bytes().to_vec(),
        stderr: "日本語".as_bytes().to_vec(),
    };
    assert_eq!(
        report_on(&output),
        "✗ Script failed\nExit code: 1\n\n=== OUTPUT ===\nGrüße ✓\n\n=== ERRORS ===\n日本語"
    );
}

#[test]
fn compose_report_matches_the_layout() {
    for code in [0, 1, 2, -1, 127, 255, -128, i32::MAX, i32::MIN] {
        for out in ["", "out", "two\nlines\n"] {
            for err in ["", "err"] {
                let header = if code == 0 {
                    "✓ Script completed successfully\nExit code: 0".to_string()
                } else {
                    format!("✗ Script failed\nExit code: {}", code)
                };
                let expected = format!(
                    "{}\n\n=== OUTPUT ===\n{}\n\n=== ERRORS ===\n{}",
                    header,
                    if out.is_empty() { "(no output)" } else { out },
                    if err.is_empty() { "(none)" } else { err },
                );
                assert_eq!(compose_report(code, out, err), expected);
            }
        }
    }
}

#[test]
fn decimal_string_writes_like_std() {
    let samples = [
        0,
        1,
        9,
        10,
        11,
        99,
        100,
        101,
        1000,
        12345,
        -1,
        -9,
        -10,
        -100,
        i32::MAX,
        i32::MIN,
        i32::MIN + 1,
    ];
    for n in samples {
        assert_eq!(decimal_string(n), n.to_string());
    }
    for n in -1200..1200 {
        assert_eq!(decimal_string(n), n.to_string());
    }
    assert_eq!(decimal_string(0), "0");
    assert_eq!(decimal_string(-2147483648), "-2147483648");
    assert_eq!(decimal_string(2147483647), "2147483647");
}

#[test]
fn start_run_shows_the_notice() {
    let mut app = App::new(one_script());
    let path = app.start_run();
    assert_eq!(path, "/tmp/a.sh");
    assert!(app.viewing_output);
    assert_eq!(app.output_text, "Running script...\n\nPlease wait...");
    assert_eq!(app.screen(), Screen::Output);
    assert_eq!(app.selected_index, 0);
    assert_eq!(app.output_scroll, 0);
}

#[test]
fn finish_run_shows_the_report() {
    let mut app = App::new(one_script());
    app.start_run();
    app.finish_run(&RunOutput {
        code: Some(3),
        stdout: b"x".to_vec(),
        stderr: Vec::new(),
    });
    assert!(app.viewing_output);
    assert_eq!(
        app.output_text,
        "✗ Script failed\nExit code: 3\n\n=== OUTPUT ===\nx\n\n=== ERRORS ===\n(none)"
    );
}

#[test]
fn fail_run_shows_the_reason() {
    let mut app = App::new(one_script());
    app.fail_run("No such file or directory (os error 2)");
    assert!(app.viewing_output);
    assert_eq!(app.screen(), Screen::Output);
    assert_eq!(
        app.output_text,
        "✗ Error running script:\nNo such file or directory (os error 2)"
    );
    assert!(!app.should_quit);
}
