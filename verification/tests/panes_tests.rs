use rusty_herring::layout::{screen_rows, viewport_height, Area};
use rusty_herring::panes::{list_entry, list_title, output_pane, output_title, output_tone, Tone};
use rusty_herring::text::{count_string, split_lines};
use rusty_herring::Script;

fn area(width: u16, height: u16) -> Area {
    Area {
        x: 0,
        y: 0,
        width,
        height,
    }
}

fn numbered(n: usize) -> String {
    let lines: Vec<String> = (1..=n).map(|i| format!("row {}", i)).collect();
    lines.join("\n")
}

#[test]
fn screen_is_split_into_three_rows() {
    let rows = screen_rows(area(80, 24));
    assert_eq!(
        rows.header,
        Area {
            x: 0,
            y: 0,
            width: 80,
            height: 3
        }
    );
    assert_eq!(
        rows.body,
        Area {
            x: 0,
            y: 3,
            width: 80,
            height: 18
        }
    );
    assert_eq!(
        rows.footer,
        Area {
            x: 0,
            y: 21,
            width: 80,
            height: 3
        }
    );
    assert_eq!(viewport_height(rows.body), 16);
}

#[test]
fn rows_span_the_width_of_any_screen() {
    for (x, y, width, height) in [
        (0u16, 0u16, 0u16, 0u16),
        (0, 0, 1, 1),
        (0, 0, 10, 5),
        (0, 0, 10, 6),
        (0, 0, 10, 7),
        (2, 3, 40, 12),
        (0, 0, 300, 100),
        (u16::MAX, u16::MAX, u16::MAX, u16::MAX),
    ] {
        let whole = Area {
            x,
            y,
            width,
            height,
        };
        let rows = screen_rows(whole);
        for row in [rows.header, rows.body, rows.footer] {
            assert_eq!(row.x, x);
            assert_eq!(row.width, width);
        }
    }
}

#[test]
fn viewport_is_the_body_without_its_border() {
    assert_eq!(viewport_height(area(80, 0)), 0);
    assert_eq!(viewport_height(area(80, 1)), 0);
    assert_eq!(viewport_height(area(80, 2)), 0);
    assert_eq!(viewport_height(area(80, 3)), 1);
    assert_eq!(viewport_height(area(80, 18)), 16);
    assert_eq!(viewport_height(area(80, u16::MAX)), 65533);
}

#[test]
fn tone_follows_the_first_character() {
    assert_eq!(output_tone("✓ Script completed successfully"), Tone::Success);
    assert_eq!(output_tone("✗ Script failed"), Tone::Failure);
    assert_eq!(output_tone("✗ Error running script:\nboom"), Tone::Failure);
    assert_eq!(output_tone("Running script...\n\nPlease wait..."), Tone::Pending);
    assert_eq!(output_tone(""), Tone::Pending);
    assert_eq!(output_tone(" ✓"), Tone::Pending);
}

#[test]
fn pane_shows_the_window_of_lines() {
    let text = numbered(30);
    let pane = output_pane(&text, 0, 16);
    assert_eq!(pane.body, numbered(16));
    assert_eq!(pane.footer, "↑/↓: Scroll | Lines 1-16 of 30 | Other: Back");
    assert_eq!(pane.tone, Tone::Pending);

    let pane = output_pane(&text, 14, 16);
    let expected: Vec<String> = (15..=30).map(|i| format!("row {}", i)).collect();
    assert_eq!(pane.body, expected.join("\n"));
    assert_eq!(pane.footer, "↑/↓: Scroll | Lines 15-30 of 30 | Other: Back");

    let pane = output_pane(&text, 20, 16);
    let expected: Vec<String> = (21..=30).map(|i| format!("row {}", i)).collect();
    assert_eq!(pane.body, expected.join("\n"));
    assert_eq!(pane.footer, "↑/↓: Scroll | Lines 21-30 of 30 | Other: Back");
}

#[test]
fn pane_of_a_report_that_fits() {
    let text = "✓ Script completed successfully\nExit code: 0\n\n=== OUTPUT ===\nhi\n\n\n=== ERRORS ===\n(none)";
    let pane = output_pane(text, 0, 16);
    assert_eq!(pane.tone, Tone::Success);
    assert_eq!(pane.body, text);
    assert_eq!(pane.footer, "Press any key to go back");

    let pane = output_pane(text, 0, 9);
    assert_eq!(pane.body, text);
    assert_eq!(pane.footer, "Press any key to go back");

    let pane = output_pane(text, 0, 8);
    assert_eq!(pane.footer, "↑/↓: Scroll | Lines 1-8 of 9 | Other: Back");
}

#[test]
fn pane_agrees_with_the_lines_of_std() {
    let texts = [
        "",
        "one",
        "one\n",
        "one\ntwo\r\nthree\r\n\r\nfive\r",
        "\n\n\n",
        "✗ Script failed\nExit code: 2\n\n=== OUTPUT ===\n(no output)\n\n=== ERRORS ===\nboom",
    ];
    for text in texts {
        let lines: Vec<&str> = text.lines().collect();
        let total = lines.len();
        for height in 0..8usize {
            for scroll in 0..=total {
                let end = (scroll + height).min(total);
                let pane = output_pane(text, scroll, height);
                assert_eq!(pane.body, lines[scroll..end].join("\n"));
                let footer = if total > height {
                    format!(
                        "↑/↓: Scroll | Lines {}-{} of {} | Other: Back",
                        scroll + 1,
                        end,
                        total
                    )
                } else {
                    "Press any key to go back".to_string()
                };
                assert_eq!(pane.footer, footer);
            }
        }
    }
}

#[test]
fn pane_beyond_the_last_line_is_empty() {
    let pane = output_pane("a\nb\nc", 7, 2);
    assert_eq!(pane.body, "");
    assert_eq!(pane.footer, "↑/↓: Scroll | Lines 4-3 of 3 | Other: Back");
    let pane = output_pane("a\nb\nc", usize::MAX, usize::MAX);
    assert_eq!(pane.body, "");
    assert_eq!(pane.footer, "Press any key to go back");
}

#[test]
fn split_lines_splits_like_std() {
    let texts = [
        "",
        "a",
        "a\n",
        "\n",
        "a\r\nb",
        "a\rb\n",
        "a\r",
        "\r\n\r\n",
        "a\n\nb\n\n",
        "ü\n✓\r\n日本",
    ];
    for text in texts {
        let expected: Vec<String> = text.lines().map(String::from).collect();
        assert_eq!(split_lines(text), expected, "{:?}", text);
    }
    assert_eq!(split_lines("a\r\nb\n"), vec!["a".to_string(), "b".to_string()]);
}

#[test]
fn list_title_counts_the_scripts() {
    assert_eq!(list_title(0), "Script Runner - 0 scripts");
    assert_eq!(list_title(1), "Script Runner - 1 scripts");
    assert_eq!(list_title(42), "Script Runner - 42 scripts");
    assert_eq!(
        list_title(usize::MAX),
        format!("Script Runner - {} scripts", usize::MAX)
    );
    assert_eq!(count_string(0), "0");
    assert_eq!(count_string(1005), "1005");
}

#[test]
fn list_entry_marks_the_selected_script() {
    let plain = Script {
        path: "/s/a.sh".to_string(),
        name: "a.sh".to_string(),
        description: None,
        category: Some("tools".to_string()),
    };
    assert_eq!(list_entry(&plain, true), "▶ a.sh");
    assert_eq!(list_entry(&plain, false), "  a.sh");

    let described = Script {
        path: "/s/b.sh".to_string(),
        name: "b.sh".to_string(),
        description: Some("Build the project".to_string()),
        category: None,
    };
    assert_eq!(list_entry(&described, true), "▶ b.sh\n    Build the project");
    assert_eq!(list_entry(&described, false), "  b.sh\n    Build the project");
}

#[test]
fn output_title_names_the_script() {
    assert_eq!(output_title("deploy.sh"), "Output: deploy.sh");
    assert_eq!(output_title(""), "Output: ");
}
