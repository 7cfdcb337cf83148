use hangul_copilot::commands::{
    answer_response, copilot_analyze_mistake, copilot_ask, copilot_check, copilot_explain, copilot_hint,
    copilot_init, copilot_shutdown, copilot_status, init_response, CommandResponse,
};
use hangul_copilot::copilot::{check_availability, AssistantResponse, CopilotError};

#[test]
fn ok_and_err_envelopes() {
    let r = CommandResponse::ok(4u8);
    assert!(r.success && r.data == Some(4) && r.error.is_none());
    let e: CommandResponse<u8> = CommandResponse::err("bad".to_string());
    assert!(!e.success && e.data.is_none());
    assert_eq!(e.error.as_deref(), Some("bad"));
}

#[test]
fn check_reports_probe_not_running() {
    let r = copilot_check(&check_availability(true, false));
    let s = r.data.unwrap();
    assert!(r.success && !s.available && !s.running && s.cli_installed && !s.cli_authenticated);
    assert_eq!(s.message, "GitHub CLI not authenticated. Run 'gh auth login' to enable AI assistant.");
}

#[test]
fn init_when_unavailable_answers_without_start() {
    let r = copilot_init(&check_availability(false, false)).unwrap();
    let s = r.data.unwrap();
    assert!(!s.available && !s.running);
    assert_eq!(s.message, "GitHub Copilot CLI not found. Install it to enable AI assistant.");
    assert!(copilot_init(&check_availability(true, true)).is_none());
}

#[test]
fn init_response_for_each_start_result() {
    let s = init_response(&Ok(())).data.unwrap();
    assert!(s.available && s.running && s.cli_installed && s.cli_authenticated);
    assert_eq!(s.message, "AI assistant ready");
    let s = init_response(&Err(CopilotError::CliNotFound)).data.unwrap();
    assert!(!s.cli_installed && !s.cli_authenticated && !s.running);
    assert_eq!(s.message, "GitHub Copilot CLI not found. Install it to enable AI assistant.");
    let s = init_response(&Err(CopilotError::NotAuthenticated)).data.unwrap();
    assert!(s.cli_installed && !s.cli_authenticated);
    assert_eq!(s.message, "GitHub CLI not authenticated. Run 'gh auth login' first.");
    let r = init_response(&Err(CopilotError::StartFailed("x".to_string())));
    assert!(r.success);
    let s = r.data.unwrap();
    assert!(s.cli_installed && s.cli_authenticated && !s.available);
    assert_eq!(s.message, "Failed to start: Failed to start Copilot client: x");
}

#[test]
fn status_message_policy() {
    let ready = copilot_status(true, &check_availability(true, true)).data.unwrap();
    assert!(ready.available && ready.running);
    assert_eq!(ready.message, "AI assistant ready");
    let s = copilot_status(false, &check_availability(false, true)).data.unwrap();
    assert_eq!(s.message, "GitHub Copilot CLI not installed");
    let s = copilot_status(false, &check_availability(true, false)).data.unwrap();
    assert_eq!(s.message, "GitHub CLI not authenticated");
    let s = copilot_status(false, &check_availability(true, true)).data.unwrap();
    assert!(!s.available);
    assert_eq!(s.message, "AI assistant not running");
    let s = copilot_status(true, &check_availability(false, false)).data.unwrap();
    assert!(!s.available && s.running);
    assert_eq!(s.message, "AI assistant ready");
}

#[test]
fn operations_refused_when_not_running() {
    let r = copilot_ask(false).unwrap();
    assert!(!r.success);
    assert_eq!(r.error.as_deref(), Some("AI assistant not running. Copilot CLI may not be installed."));
    for r in [copilot_hint(false), copilot_explain(false), copilot_analyze_mistake(false)] {
        let r = r.unwrap();
        assert!(!r.success && r.data.is_none());
        assert_eq!(r.error.as_deref(), Some("AI assistant not available"));
    }
    assert!(copilot_ask(true).is_none());
    assert!(copilot_hint(true).is_none());
    assert!(copilot_explain(true).is_none());
    assert!(copilot_analyze_mistake(true).is_none());
}

#[test]
fn answer_and_shutdown_envelopes() {
    let a = AssistantResponse { content: "hi".to_string(), tool_used: None };
    let r = answer_response(Ok(a));
    assert!(r.success);
    assert_eq!(r.data.unwrap().content, "hi");
    let r = answer_response(Err(CopilotError::Timeout));
    assert_eq!(r.error.as_deref(), Some("Session timeout"));
    assert!(copilot_shutdown(Ok(())).success);
    let r = copilot_shutdown(Err(CopilotError::SendFailed("s".to_string())));
    assert!(!r.success);
    assert_eq!(r.error.as_deref(), Some("Failed to send message: s"));
}
