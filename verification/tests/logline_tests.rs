use storefront::logline::{
    condense_repetition, render_log, stamped_line, u32_string, updated_log_lines,
};

#[test]
fn condense_repeated_message_gets_counter() {
    let (c, line) = condense_repetition("[t1] msg", "[t2] msg");
    assert!(c);
    assert_eq!(line, "[t2] msg (2)");
}

#[test]
fn condense_increments_existing_counter() {
    let (c, line) = condense_repetition("[t1] msg (2)", "[t2] msg");
    assert!(c);
    assert_eq!(line, "[t2] msg (3)");
}

#[test]
fn condense_large_counter() {
    let (c, line) = condense_repetition("[t1] msg (99)", "[t2] msg");
    assert!(c);
    assert_eq!(line, "[t2] msg (100)");
}

#[test]
fn condense_different_messages_append() {
    let (c, line) = condense_repetition("[t1] other", "[t2] msg");
    assert!(!c);
    assert_eq!(line, "[t2] msg");
}

#[test]
fn condense_without_separator_appends() {
    let (c, line) = condense_repetition("plain line", "[t2] msg");
    assert!(!c);
    assert_eq!(line, "[t2] msg");
}

#[test]
fn condense_counter_not_a_number_appends() {
    let (c, line) = condense_repetition("[t1] msg (abc)", "[t2] msg");
    assert!(!c);
    assert_eq!(line, "[t2] msg");
}

#[test]
fn updated_log_appends_to_empty() {
    let lines = updated_log_lines(vec![], "[t] first");
    assert_eq!(lines, vec!["[t] first".to_string()]);
}

#[test]
fn updated_log_condenses_repetition() {
    let lines = updated_log_lines(vec!["[t1] msg".to_string()], "[t2] msg");
    assert_eq!(lines, vec!["[t2] msg (2)".to_string()]);
}

#[test]
fn updated_log_caps_at_five_hundred() {
    let mut lines: Vec<String> = Vec::new();
    for i in 0..501 {
        lines.push(format!("[t] line {}", i));
    }
    let lines = updated_log_lines(lines, "[t] fresh");
    assert_eq!(lines.len(), 500);
    assert_eq!(lines[0], "[t] line 2");
    assert_eq!(lines[499], "[t] fresh");
}

#[test]
fn render_joins_with_trailing_newline() {
    let lines = vec!["a".to_string(), "b".to_string()];
    assert_eq!(render_log(&lines), "a\nb\n");
}

#[test]
fn render_empty_log_is_empty() {
    assert_eq!(render_log(&vec![]), "");
}

#[test]
fn stamp_frames_message() {
    assert_eq!(stamped_line("2024-01-01 10:00:00", "hello"), "[2024-01-01 10:00:00] hello");
}

#[test]
fn stamp_keeps_empty_message_empty() {
    assert_eq!(stamped_line("2024-01-01 10:00:00", ""), "");
}

#[test]
fn decimal_rendering() {
    assert_eq!(u32_string(0), "0");
    assert_eq!(u32_string(7), "7");
    assert_eq!(u32_string(105), "105");
    assert_eq!(u32_string(4294967295), "4294967295");
}
