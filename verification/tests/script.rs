use selection_capture::protocol::{failure_message, CaptureError, Event, ProcessOutput};
use selection_capture::script::{
    get_selected_text_by_ax, get_selected_text_by_clipboard_using_applescript,
};
use selection_capture::text::latin1_text;

fn ended(success: bool, stdout: &[u8], stderr: &[u8]) -> Result<ProcessOutput, String> {
    Ok(ProcessOutput { success, stdout: stdout.to_vec(), stderr: stderr.to_vec() })
}

#[test]
fn accessibility_output_is_decoded_and_trimmed() {
    assert_eq!(get_selected_text_by_ax(ended(true, b"  world \n", b"")), Ok("world".to_string()));
    assert_eq!(
        get_selected_text_by_ax(ended(true, "\u{3000}h\u{e9}llo w\u{f6}rld\t".as_bytes(), b"")),
        Ok("h\u{e9}llo w\u{f6}rld".to_string())
    );
    assert_eq!(get_selected_text_by_ax(ended(true, b" \n", b"ignored")), Ok(String::new()));
    assert_eq!(get_selected_text_by_ax(ended(true, b"", b"")), Ok(String::new()));
}

#[test]
fn accessibility_refusal_carries_the_error_stream() {
    assert_eq!(
        get_selected_text_by_ax(ended(false, b"out", b"not allowed")),
        Err(CaptureError::AccessibilityQueryFailure("not allowed".to_string()))
    );
    assert_eq!(
        get_selected_text_by_ax(ended(false, b"", &[0x63, 0x61, 0x66, 0xe9, 0xff])),
        Err(CaptureError::AccessibilityQueryFailure("caf\u{e9}\u{ff}".to_string()))
    );
}

#[test]
fn helper_that_cannot_run_is_an_external_failure() {
    assert_eq!(
        get_selected_text_by_ax(Err("osascript: not found".to_string())),
        Err(CaptureError::ExternalProcessFailure("osascript: not found".to_string()))
    );
    assert_eq!(
        get_selected_text_by_clipboard_using_applescript(Err("gone".to_string())),
        Err(CaptureError::ExternalProcessFailure("gone".to_string()))
    );
}

#[test]
fn undecodable_output_is_an_external_failure() {
    let expected =
        Err(CaptureError::ExternalProcessFailure("helper output is not valid UTF-8".to_string()));
    assert_eq!(get_selected_text_by_ax(ended(true, &[0x68, 0xff, 0x69], b"")), expected);
    assert_eq!(
        get_selected_text_by_clipboard_using_applescript(ended(true, &[0xc3], b"")),
        expected
    );
}

#[test]
fn scripted_capture_reads_like_the_query_but_fails_externally() {
    assert_eq!(
        get_selected_text_by_clipboard_using_applescript(ended(true, b"\tpicked\r\n", b"")),
        Ok("picked".to_string())
    );
    assert_eq!(
        get_selected_text_by_clipboard_using_applescript(ended(false, b"picked", b"exit 1")),
        Err(CaptureError::ExternalProcessFailure("exit 1".to_string()))
    );
}

#[test]
fn bytes_read_as_code_points() {
    assert_eq!(latin1_text(&vec![]), "");
    assert_eq!(
        latin1_text(&vec![0x41, 0x00, 0x7f, 0x80, 0xe9, 0xff]),
        "A\u{0}\u{7f}\u{80}\u{e9}\u{ff}"
    );
}

#[test]
fn only_failures_carry_a_reason() {
    assert_eq!(failure_message(Event::Failed("why".to_string())), "why");
    assert_eq!(failure_message(Event::Done), "");
    assert_eq!(failure_message(Event::Text("text".to_string())), "");
    assert_eq!(failure_message(Event::PrivacyFlag(Some(true))), "");
}
