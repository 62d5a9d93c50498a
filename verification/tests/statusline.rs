use statusline::branch::branch_from_output;
use statusline::compose::{build_status_line, usage_percentage};
use statusline::text::{path_leaf, trim_ws, ws_only};
use statusline::tokens::format_token_count;

#[test]
fn test_format_token_count_small() {
    assert_eq!(format_token_count(0), "0");
    assert_eq!(format_token_count(500), "500");
    assert_eq!(format_token_count(999), "999");
}

#[test]
fn test_format_token_count_thousands() {
    assert_eq!(format_token_count(1000), "1.0K");
    assert_eq!(format_token_count(1500), "1.5K");
    assert_eq!(format_token_count(10000), "10.0K");
    assert_eq!(format_token_count(999999), "1000.0K");
}

#[test]
fn test_format_token_count_millions() {
    assert_eq!(format_token_count(1000000), "1.0M");
    assert_eq!(format_token_count(1500000), "1.5M");
    assert_eq!(format_token_count(10000000), "10.0M");
}

#[test]
fn test_build_status_line_basic() {
    let input = r#"{
        "model": {"display_name": "Nova"},
        "cwd": "/tmp",
        "context_window": {
            "context_window_size": 200000,
            "current_usage": {
                "input_tokens": 50000,
                "cache_creation_input_tokens": 10000,
                "cache_read_input_tokens": 5000
            }
        }
    }"#;

    let result = build_status_line(input, None, false);
    assert!(result.contains("🤖 Nova"));
    assert!(result.contains("📁 tmp"));
    assert!(result.contains("🪙 65.0K"));
    assert!(result.contains("40%"));
    assert!(result.contains("\x1b[32m"));
}

#[test]
fn test_build_status_line_unknown_model() {
    let input = r#"{
        "cwd": "/tmp",
        "context_window": {
            "context_window_size": 100000,
            "current_usage": {"input_tokens": 1000}
        }
    }"#;

    let result = build_status_line(input, None, false);
    assert!(result.contains("🤖 Unknown"));
}

#[test]
fn test_build_status_line_workspace_over_cwd() {
    let input = r#"{
        "model": {"display_name": "Sonnet"},
        "workspace": {"current_dir": "/home/user/project"},
        "cwd": "/tmp",
        "context_window": {
            "context_window_size": 100000,
            "current_usage": {"input_tokens": 1000}
        }
    }"#;

    let result = build_status_line(input, None, false);
    assert!(result.contains("📁 project"));
}

#[test]
fn test_build_status_line_percentage_colors() {
    let input_green = r#"{
        "cwd": "/tmp",
        "context_window": {
            "context_window_size": 100000,
            "current_usage": {"input_tokens": 10000}
        }
    }"#;
    let result = build_status_line(input_green, None, false);
    assert!(result.contains("\x1b[32m"));

    let input_yellow = r#"{
        "cwd": "/tmp",
        "context_window": {
            "context_window_size": 100000,
            "current_usage": {"input_tokens": 60000}
        }
    }"#;
    let result = build_status_line(input_yellow, None, false);
    assert!(result.contains("\x1b[33m"));

    let input_red = r#"{
        "cwd": "/tmp",
        "context_window": {
            "context_window_size": 100000,
            "current_usage": {"input_tokens": 75000}
        }
    }"#;
    let result = build_status_line(input_red, None, false);
    assert!(result.contains("\x1b[31m"));
}

#[test]
fn test_build_status_line_invalid_json() {
    let line = build_status_line("not valid json", None, false);
    assert_eq!(line, build_status_line("", None, false));
    assert!(line.contains("🤖 Unknown"));
}

#[test]
fn test_build_status_line_empty_context() {
    let input = r#"{
        "model": {"display_name": "Test"},
        "cwd": "/tmp"
    }"#;

    let result = build_status_line(input, None, false);
    assert!(result.contains("🪙 0"));
    assert!(result.contains("0%"));
}

#[test]
fn test_empty_and_whitespace_input_defaults() {
    for input in ["", "   \n\t  "] {
        let line = build_status_line(input, None, false);
        assert!(line.contains("🤖 Unknown"));
        assert!(line.contains("📁 ."));
        assert!(line.contains("🪙 0"));
        assert!(line.contains("\x1b[32m0%"));
    }
}

#[test]
fn test_wrong_shape_degrades_whole_payload() {
    let line = build_status_line(r#"{"model": 5, "cwd": "/tmp"}"#, None, false);
    assert!(line.contains("🤖 Unknown"));
    assert!(line.contains("📁 ."));
    let line = build_status_line(r#"{"cwd": "/tmp", "context_window": {"context_window_size": -3}}"#, None, false);
    assert!(line.contains("📁 ."));
    let line = build_status_line(r#"[1, 2, 3]"#, None, false);
    assert_eq!(line, build_status_line("", None, false));
}

#[test]
fn test_percentage_color_boundaries() {
    // A window of 125 puts the auto-compact limit at exactly 100 tokens.
    for (tokens, color) in [(69, "\x1b[32m"), (70, "\x1b[33m"), (89, "\x1b[33m"), (90, "\x1b[31m")] {
        let input = format!(
            r#"{{"cwd": "/tmp", "context_window": {{"context_window_size": 125, "current_usage": {{"input_tokens": {}}}}}}}"#,
            tokens
        );
        let line = build_status_line(&input, None, false);
        assert!(line.contains(&format!("{}{}%", color, tokens)));
    }
}

#[test]
fn test_percentage_clamped_and_zero_window() {
    assert_eq!(usage_percentage(1000000, 200000), 100);
    assert_eq!(usage_percentage(65000, 200000), 40);
    assert_eq!(usage_percentage(0, 0), 0);
    assert_eq!(usage_percentage(123456, 0), 0);
    // A window below 5 makes the 80% limit zero as well.
    assert_eq!(usage_percentage(4, 1), 0);
}

#[test]
fn test_model_hidden_toggle() {
    let input = r#"{
        "model": {"display_name": "Nova"},
        "cwd": "/tmp"
    }"#;
    let line = build_status_line(input, None, true);
    assert!(!line.contains('\u{1F916}'));
    assert!(!line.contains("Nova"));
    assert!(line.starts_with("📁 tmp"));
}

#[test]
fn test_branch_segment() {
    let input = r#"{"cwd": "/tmp"}"#;
    let with_branch = build_status_line(input, Some("main".to_string()), false);
    assert!(with_branch.contains(" | 🌿 main"));
    let without = build_status_line(input, None, false);
    assert!(!without.contains('\u{1F33F}'));
}

#[test]
fn test_branch_from_output_trims() {
    assert_eq!(branch_from_output(true, "  main\n"), Some("main".to_string()));
    assert_eq!(branch_from_output(true, "feature/x\n"), Some("feature/x".to_string()));
    assert_eq!(branch_from_output(true, "   \n\t"), None);
    assert_eq!(branch_from_output(true, ""), None);
    assert_eq!(branch_from_output(false, "main\n"), None);
}

#[test]
fn test_path_leaf_edges() {
    assert_eq!(path_leaf("/home/user/project"), "project");
    assert_eq!(path_leaf("/home/user/project/"), "project");
    assert_eq!(path_leaf("project"), "project");
    assert_eq!(path_leaf("/"), ".");
    assert_eq!(path_leaf("///"), ".");
    assert_eq!(path_leaf(""), ".");
}

#[test]
fn test_format_token_count_rounding() {
    // Tenths round half-up.
    assert_eq!(format_token_count(1049), "1.0K");
    assert_eq!(format_token_count(1050), "1.1K");
    assert_eq!(format_token_count(1049999), "1.0M");
    assert_eq!(format_token_count(1050000), "1.1M");
    // The largest count still formats.
    assert_eq!(format_token_count(u64::MAX), "18446744073709.6M");
}

#[test]
fn test_path_leaf_unicode() {
    assert_eq!(path_leaf("/home/ünïcode/проект"), "проект");
    assert_eq!(path_leaf("/a/."), ".");
}

#[test]
fn test_empty_directory_string() {
    let line = build_status_line(r#"{"workspace": {"current_dir": ""}}"#, None, false);
    assert!(line.contains("📁 ."));
}

#[test]
fn test_trim_and_ws_only() {
    assert_eq!(trim_ws("  a b\t\n"), "a b");
    assert_eq!(trim_ws(""), "");
    assert!(ws_only(" \t\r\n"));
    assert!(ws_only(""));
    assert!(!ws_only(" x "));
}
