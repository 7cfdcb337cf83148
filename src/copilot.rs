//! Availability verdicts, the error taxonomy and the value types shared by
//! the service and the command layer.
use vstd::prelude::*;
use vstd::string::StringExecFns;
use crate::text::{chars_of, contains_chars, contains_text};

verus! {

/// Errors that can occur during assistant operations.
#[derive(Debug, Clone)]
pub enum CopilotError {
    NotInitialized,
    CliNotFound,
    NotAuthenticated,
    StartFailed(String),
    SessionFailed(String),
    SendFailed(String),
    Timeout,
}

/// The human-readable text of each error.
pub open spec fn error_message(e: CopilotError) -> Seq<char> {
    match e {
        CopilotError::NotInitialized => "Copilot service not initialized"@,
        CopilotError::CliNotFound =>
            "GitHub Copilot CLI not found. Please install it from https://docs.github.com/en/copilot/github-copilot-in-the-cli"@,
        CopilotError::NotAuthenticated =>
            "GitHub Copilot CLI not authenticated. Run 'gh auth login' and 'gh extension install github/gh-copilot'"@,
        CopilotError::StartFailed(d) => "Failed to start Copilot client: "@ + d@,
        CopilotError::SessionFailed(d) => "Failed to create session: "@ + d@,
        CopilotError::SendFailed(d) => "Failed to send message: "@ + d@,
        CopilotError::Timeout => "Session timeout"@,
    }
}

impl CopilotError {
    /// The human-readable text of this error.
    pub fn message(&self) -> (r: String)
        ensures
            r@ == error_message(*self),
    {
        match self {
            CopilotError::NotInitialized => String::from_str("Copilot service not initialized"),
            CopilotError::CliNotFound => String::from_str(
                "GitHub Copilot CLI not found. Please install it from https://docs.github.com/en/copilot/github-copilot-in-the-cli",
            ),
            CopilotError::NotAuthenticated => String::from_str(
                "GitHub Copilot CLI not authenticated. Run 'gh auth login' and 'gh extension install github/gh-copilot'",
            ),
            CopilotError::StartFailed(d) => {
                let mut s = String::from_str("Failed to start Copilot client: ");
                s.append(d.as_str());
                s
            },
            CopilotError::SessionFailed(d) => {
                let mut s = String::from_str("Failed to create session: ");
                s.append(d.as_str());
                s
            },
            CopilotError::SendFailed(d) => {
                let mut s = String::from_str("Failed to send message: ");
                s.append(d.as_str());
                s
            },
            CopilotError::Timeout => String::from_str("Session timeout"),
        }
    }
}

/// Response from the assistant.
#[derive(Debug, Clone)]
pub struct AssistantResponse {
    pub content: String,
    pub tool_used: Option<String>,
}

/// Result of checking the assistant CLI's availability.
#[derive(Debug, Clone)]
pub struct CopilotAvailability {
    pub cli_installed: bool,
    pub cli_authenticated: bool,
    pub available: bool,
    pub message: String,
}

/// The message chosen for a probe outcome: the first matching case wins.
pub open spec fn availability_message(cli_installed: bool, cli_authenticated: bool) -> Seq<char> {
    if cli_installed && cli_authenticated {
        "GitHub Copilot is ready"@
    } else if cli_installed {
        "GitHub CLI not authenticated. Run 'gh auth login' to enable AI assistant."@
    } else {
        "GitHub Copilot CLI not found. Install it to enable AI assistant."@
    }
}

/// Combines the two probe results into a verdict.
pub fn check_availability(cli_installed: bool, cli_authenticated: bool) -> (r: CopilotAvailability)
    ensures
        r.cli_installed == cli_installed,
        r.cli_authenticated == cli_authenticated,
        r.available == (cli_installed && cli_authenticated),
        r.message@ == availability_message(cli_installed, cli_authenticated),
{
    let (available, message) = if cli_installed && cli_authenticated {
        (true, String::from_str("GitHub Copilot is ready"))
    } else if cli_installed {
        (
            false,
            String::from_str(
                "GitHub CLI not authenticated. Run 'gh auth login' to enable AI assistant.",
            ),
        )
    } else {
        (false, String::from_str("GitHub Copilot CLI not found. Install it to enable AI assistant."))
    };
    CopilotAvailability { cli_installed, cli_authenticated, available, message }
}

/// The auth-status output shows a logged-in account that is marked active.
pub open spec fn auth_evident(output: Seq<char>) -> bool {
    contains_text(output, "Logged in to"@) && contains_text(output, "Active account: true"@)
}

/// Reads the output of the identity provider's status query (its standard
/// output, then its error output). The query's exit code is not consulted:
/// it is non-zero whenever any account has an issue, even an inactive one.
pub fn is_gh_authenticated(stdout: &str, stderr: &str) -> (r: bool)
    ensures
        r == auth_evident(stdout@ + stderr@),
{
    let mut combined = String::from_str(stdout);
    combined.append(stderr);
    let hay = chars_of(combined.as_str());
    let logged_in = contains_chars(&hay, &chars_of("Logged in to"));
    let active = contains_chars(&hay, &chars_of("Active account: true"));
    logged_in && active
}

} // verus!
