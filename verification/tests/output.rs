use rephraser::config::OutputMethod;
use rephraser::output::formatter::{
    check_macos_platform, dialog_script, escape_applescript_string, notification_script,
    truncate_notification_text, Stage,
};
use rephraser::output::OutputHandler;
use rephraser::RephraserError;

#[test]
fn test_escape_applescript_string() {
    assert_eq!(escape_applescript_string("simple text"), "simple text");
    assert_eq!(
        escape_applescript_string("text with \"quotes\""),
        "text with \\\"quotes\\\""
    );
    assert_eq!(escape_applescript_string("path\\to\\file"), "path\\\\to\\\\file");
    assert_eq!(
        escape_applescript_string("mixed: \"path\\file\""),
        "mixed: \\\"path\\\\file\\\""
    );
}

#[test]
fn test_truncate_notification_text() {
    assert_eq!(truncate_notification_text("short", 100), "short");

    let long_text = "a".repeat(250);
    let truncated = truncate_notification_text(&long_text, 200);
    assert_eq!(truncated.len(), 200);
    assert!(truncated.ends_with("..."));

    // Test with multi-byte characters (Japanese)
    let japanese = "こんにちは".repeat(50); // ~150 chars (3 bytes each)
    let truncated = truncate_notification_text(&japanese, 200);
    assert!(truncated.len() <= 200);
    assert!(truncated.ends_with("..."));
}

#[test]
fn test_platform_check_fails_on_non_macos() {
    let result = check_macos_platform("linux");
    assert!(result.is_err());
}

#[test]
fn test_platform_check_succeeds_on_macos() {
    let result = check_macos_platform("macos");
    assert!(result.is_ok());
}

#[test]
fn escaping_agrees_with_two_replacements() {
    for text in ["", "\\", "\"", "\\\"", "\"\\", "a\\\\b\"\"c", "日本語 \"引用\" \\ 終"] {
        assert_eq!(
            escape_applescript_string(text),
            text.replace('\\', "\\\\").replace('"', "\\\"")
        );
    }
}

#[test]
fn truncation_cuts_on_a_character_boundary() {
    let japanese = "こんにちは".repeat(50);
    let truncated = truncate_notification_text(&japanese, 200);
    assert_eq!(truncated, format!("{}...", "こんにちは".repeat(13)));
    assert_eq!(truncated.len(), 198);

    assert_eq!(truncate_notification_text("ああああ", 12), "ああああ");
    assert_eq!(truncate_notification_text("ああああ", 11), "ああ...");
    assert_eq!(truncate_notification_text("ああああ", 9), "ああ...");
    assert_eq!(truncate_notification_text("ああああ", 8), "あ...");
    assert_eq!(truncate_notification_text("ああああ", 6), "あ...");
    assert_eq!(truncate_notification_text("ああああ", 5), "...");
}

#[test]
fn truncation_at_the_limits() {
    assert_eq!(truncate_notification_text("", 0), "");
    assert_eq!(truncate_notification_text("abcdef", 6), "abcdef");
    assert_eq!(truncate_notification_text("abcdef", 5), "ab...");
    assert_eq!(truncate_notification_text("abcdef", 3), "...");
    assert_eq!(truncate_notification_text("abcdef", 2), "...");
    assert_eq!(truncate_notification_text("abcdef", 0), "...");
    assert_eq!(truncate_notification_text(&"a".repeat(201), 200).len(), 200);
    assert_eq!(truncate_notification_text(&"a".repeat(200), 200), "a".repeat(200));
}

#[test]
fn platform_check_names_the_reason() {
    match check_macos_platform("windows") {
        Err(RephraserError::Output(detail)) => {
            assert_eq!(detail, "Output methods are only supported on macOS");
        }
        other => panic!("unexpected: {:?}", other),
    }
    assert!(check_macos_platform("macOS").is_err());
    assert!(check_macos_platform("").is_err());
}

#[test]
fn notification_script_is_cut_flattened_and_escaped() {
    assert_eq!(
        notification_script("say \"hi\"\nthen\r\nleave\\"),
        "display notification \"say \\\"hi\\\" then  leave\\\\\" with title \"Rephraser\""
    );
    let long = "b".repeat(500);
    assert_eq!(
        notification_script(&long),
        format!("display notification \"{}...\" with title \"Rephraser\"", "b".repeat(197))
    );
}

#[test]
fn dialog_script_is_escaped_and_keeps_lines() {
    assert_eq!(
        dialog_script("test with \"quotes\" and \\backslash\nand newlines"),
        "display dialog \"test with \\\"quotes\\\" and \\\\backslash\nand newlines\" with title \"Rephraser\" buttons {\"OK\"} default button \"OK\""
    );
    let long = "c".repeat(500);
    assert!(dialog_script(&long).contains(&long));
}

#[test]
fn clipboard_is_fed_the_text_itself() {
    let handler = OutputHandler::new(OutputMethod::Clipboard);
    let delivery = handler.handle("test \"clipboard\" content\n", "macos").unwrap();
    assert_eq!(delivery.program, "pbcopy");
    assert!(delivery.args.is_empty());
    assert_eq!(delivery.input.as_deref(), Some("test \"clipboard\" content\n"));
}

#[test]
fn notification_and_dialog_run_a_script() {
    let handler = OutputHandler::new(OutputMethod::Notification);
    let delivery = handler.handle("test notification", "macos").unwrap();
    assert_eq!(delivery.program, "osascript");
    assert_eq!(
        delivery.args,
        vec![
            "-e".to_string(),
            "display notification \"test notification\" with title \"Rephraser\"".to_string(),
        ]
    );
    assert!(delivery.input.is_none());

    let handler = OutputHandler::new(OutputMethod::Dialog);
    let delivery = handler.handle("test dialog", "macos").unwrap();
    assert_eq!(delivery.program, "osascript");
    assert_eq!(
        delivery.args,
        vec![
            "-e".to_string(),
            "display dialog \"test dialog\" with title \"Rephraser\" buttons {\"OK\"} default button \"OK\""
                .to_string(),
        ]
    );
    assert!(delivery.input.is_none());
}

#[test]
fn nothing_is_delivered_off_macos() {
    for method in [OutputMethod::Clipboard, OutputMethod::Notification, OutputMethod::Dialog] {
        match OutputHandler::new(method).handle("text", "linux") {
            Err(RephraserError::Output(detail)) => {
                assert_eq!(detail, "Output methods are only supported on macOS");
            }
            other => panic!("unexpected: {:?}", other),
        }
    }
}

#[test]
fn delivery_failures_are_worded_by_method_and_stage() {
    let detail = |method: OutputMethod, stage: Stage| match OutputHandler::new(method)
        .failure(stage, "why")
    {
        RephraserError::Output(detail) => detail,
        other => panic!("unexpected: {:?}", other),
    };
    assert_eq!(detail(OutputMethod::Clipboard, Stage::Spawn), "Failed to spawn pbcopy: why");
    assert_eq!(
        detail(OutputMethod::Clipboard, Stage::Write),
        "Failed to write to pbcopy stdin: why"
    );
    assert_eq!(detail(OutputMethod::Clipboard, Stage::Wait), "Failed to wait for pbcopy: why");
    assert_eq!(detail(OutputMethod::Clipboard, Stage::Exit), "pbcopy exited with status: why");
    for stage in [Stage::Spawn, Stage::Write, Stage::Wait] {
        assert_eq!(detail(OutputMethod::Notification, stage), "Failed to execute osascript: why");
        assert_eq!(detail(OutputMethod::Dialog, stage), "Failed to execute osascript: why");
    }
    assert_eq!(detail(OutputMethod::Notification, Stage::Exit), "osascript failed: why");
    assert_eq!(detail(OutputMethod::Dialog, Stage::Exit), "osascript dialog failed: why");
}
