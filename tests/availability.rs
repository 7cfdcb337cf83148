use hangul_copilot::copilot::{check_availability, is_gh_authenticated, CopilotError};

#[test]
fn ready_when_installed_and_authenticated() {
    let a = check_availability(true, true);
    assert!(a.available && a.cli_installed && a.cli_authenticated);
    assert_eq!(a.message, "GitHub Copilot is ready");
}

#[test]
fn authenticate_message_when_only_installed() {
    let a = check_availability(true, false);
    assert!(!a.available);
    assert_eq!(a.message, "GitHub CLI not authenticated. Run 'gh auth login' to enable AI assistant.");
}

#[test]
fn install_message_when_not_installed() {
    for auth in [true, false] {
        let a = check_availability(false, auth);
        assert!(!a.available);
        assert_eq!(a.cli_authenticated, auth);
        assert_eq!(a.message, "GitHub Copilot CLI not found. Install it to enable AI assistant.");
    }
}

#[test]
fn available_is_conjunction_for_all_outcomes() {
    for i in [true, false] {
        for a in [true, false] {
            assert_eq!(check_availability(i, a).available, i && a);
        }
    }
}

#[test]
fn auth_needs_both_markers_across_streams() {
    let out = "github.com\n  ✓ Logged in to github.com account someone (keyring)\n";
    let err = "  - Active account: true\n";
    assert!(is_gh_authenticated(out, err));
    assert!(is_gh_authenticated("", "Logged in to x\nActive account: true"));
    assert!(!is_gh_authenticated(out, ""));
    assert!(!is_gh_authenticated("", err));
    assert!(!is_gh_authenticated("", ""));
    assert!(!is_gh_authenticated("Active account: false\nLogged in to x", ""));
}

#[test]
fn marker_split_between_streams_still_counts() {
    assert!(is_gh_authenticated("Logged in", " to x Active account: true"));
}

#[test]
fn error_messages() {
    assert_eq!(CopilotError::NotInitialized.message(), "Copilot service not initialized");
    assert_eq!(CopilotError::Timeout.message(), "Session timeout");
    assert_eq!(
        CopilotError::StartFailed("boom".to_string()).message(),
        "Failed to start Copilot client: boom"
    );
    assert_eq!(
        CopilotError::SessionFailed("s".to_string()).message(),
        "Failed to create session: s"
    );
    assert_eq!(
        CopilotError::SendFailed("x".to_string()).message(),
        "Failed to send message: x"
    );
    assert_eq!(
        CopilotError::CliNotFound.message(),
        "GitHub Copilot CLI not found. Please install it from https://docs.github.com/en/copilot/github-copilot-in-the-cli"
    );
    assert_eq!(
        CopilotError::NotAuthenticated.message(),
        "GitHub Copilot CLI not authenticated. Run 'gh auth login' and 'gh extension install github/gh-copilot'"
    );
}
