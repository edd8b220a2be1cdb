use futureterm::actors::backoff::{calculate_retry_delay, jittered_retry_delay};
use futureterm::actors::data_processing::{detect_meaningful_content, trim_shell_artifacts};

#[test]
fn test_backoff_calculation() {
    // Attempt 1: 100ms * 2^0 = 100
    assert_eq!(calculate_retry_delay(1), 100);
    // Attempt 2: 100ms * 2^1 = 200
    assert_eq!(calculate_retry_delay(2), 200);
    // Attempt 3: 100ms * 2^2 = 400
    assert_eq!(calculate_retry_delay(3), 400);
    // Attempt 10: 100ms * 2^9 = 51200
    assert_eq!(calculate_retry_delay(10), 51200);
}

#[test]
fn test_safety_overflow() {
    // Should not panic on high numbers
    let delay = calculate_retry_delay(100);
    assert!(delay > 0);
}

#[test]
fn test_backoff_calculation_increases() {
    let delay1 = calculate_retry_delay(1);
    let delay2 = calculate_retry_delay(2);
    let delay3 = calculate_retry_delay(3);
    assert!(delay2 > delay1);
    assert!(delay3 > delay2);
}

#[test]
fn test_backoff_calculation_caps_at_max() {
    let delay_high = calculate_retry_delay(50);
    let delay_higher = calculate_retry_delay(100);
    assert_eq!(delay_high, delay_higher);
}

#[test]
fn jitter_is_added_without_overflow() {
    assert_eq!(calculate_retry_delay(0), 0);
    assert_eq!(jittered_retry_delay(0, 40), 0);
    assert_eq!(jittered_retry_delay(2, 40), 240);
    assert_eq!(jittered_retry_delay(2, u64::MAX), u64::MAX);
}

#[test]
fn test_trim_empty() {
    assert_eq!(trim_shell_artifacts(&[]), Vec::<u8>::new());
}

#[test]
fn test_trim_whitespace_only() {
    assert_eq!(trim_shell_artifacts(b"\r\n\r\n"), Vec::<u8>::new());
    assert_eq!(trim_shell_artifacts(b"\0\0\0"), Vec::<u8>::new());
}

#[test]
fn test_trim_preserves_content() {
    assert_eq!(trim_shell_artifacts(b"$ "), b"$ ");
    assert_eq!(trim_shell_artifacts(b"root@host:~# "), b"root@host:~# ");
}

#[test]
fn test_trim_removes_leading_whitespace() {
    assert_eq!(trim_shell_artifacts(b"\r\n$ "), b"$ ");
    assert_eq!(trim_shell_artifacts(b"\r\n\r\n$ "), b"$ ");
}

#[test]
fn test_trim_removes_ansi_csi() {
    // ESC[?2004l (bracketed paste mode off)
    assert_eq!(trim_shell_artifacts(b"\x1b[?2004l$ "), b"$ ");
    // ESC[0m (reset)
    assert_eq!(trim_shell_artifacts(b"\x1b[0m$ "), b"$ ");
    // ESC[1;32m (green bold)
    assert_eq!(trim_shell_artifacts(b"\x1b[1;32m$ "), b"$ ");
}

#[test]
fn test_trim_removes_charset_designators() {
    // ESC(B (ASCII charset)
    assert_eq!(trim_shell_artifacts(b"\x1b(B$ "), b"$ ");
    // ESC)0 (Line drawing charset)
    assert_eq!(trim_shell_artifacts(b"\x1b)0$ "), b"$ ");
}

#[test]
fn test_trim_combined_ansi_and_whitespace() {
    assert_eq!(trim_shell_artifacts(b"\x1b[?2004l\r\n$ "), b"$ ");
    assert_eq!(
        trim_shell_artifacts(b"\x1b(B\x1b[0m\r\n\r\nroot@host:~# "),
        b"root@host:~# "
    );
}

#[test]
fn test_trim_incomplete_ansi_at_end() {
    let result = trim_shell_artifacts(b"\x1b[");
    assert!(result.is_empty() || result == b"\x1b[");
}

#[test]
fn trimming_twice_trims_no_more() {
    for data in [
        &b"\x1b[?2004l\r\n$ "[..],
        &b"\x1b["[..],
        &b"\x1bX\r\n"[..],
        &b"\r\x1b(B\0\0ok\r\n"[..],
    ] {
        let once = trim_shell_artifacts(data);
        assert!(data.ends_with(&once));
        assert_eq!(trim_shell_artifacts(&once), once);
    }
}

#[test]
fn test_detect_meaningful_alphanumeric() {
    assert!(detect_meaningful_content(b"$ "));
    assert!(detect_meaningful_content(b"root@host:~# "));
    assert!(detect_meaningful_content(b"C:\\>"));
}

#[test]
fn test_detect_meaningful_prompt_chars() {
    assert!(detect_meaningful_content(b"$ "));
    assert!(detect_meaningful_content(b"# "));
    assert!(detect_meaningful_content(b"> "));
    assert!(detect_meaningful_content(b"% "));
    assert!(detect_meaningful_content(b"~ "));
}

#[test]
fn test_detect_not_meaningful_whitespace() {
    assert!(!detect_meaningful_content(b"\r\n\r\n"));
    assert!(!detect_meaningful_content(b"   "));
    assert!(!detect_meaningful_content(&[]));
}

#[test]
fn test_detect_not_meaningful_control_chars() {
    let trimmed = trim_shell_artifacts(b"\x1b[?2004l");
    assert!(!detect_meaningful_content(&trimmed));
    assert!(!detect_meaningful_content(b"\0\0\0"));
}

#[test]
fn test_real_world_shell_sequence() {
    // Typical sequence from a Linux shell
    let data = b"\x1b[?2004l\r\n\x1b(B\x1b[0muser@host:~$ ";
    let trimmed = trim_shell_artifacts(data);
    assert_eq!(trimmed, b"user@host:~$ ");
    assert!(detect_meaningful_content(&trimmed));
}

#[test]
fn test_real_world_empty_response() {
    // Device sends only ANSI sequences with no actual prompt
    let data = b"\x1b[?2004l\r\n\r\n";
    let trimmed = trim_shell_artifacts(data);
    assert!(trimmed.is_empty());
    assert!(!detect_meaningful_content(&trimmed));
}
