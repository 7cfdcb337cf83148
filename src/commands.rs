//! The uniform response envelope and the decisions of the host commands.
use vstd::prelude::*;
use vstd::string::StringExecFns;
use crate::copilot::{error_message, AssistantResponse, CopilotAvailability, CopilotError};

verus! {

/// The envelope every command answers with.
#[derive(Debug)]
pub struct CommandResponse<T> {
    pub success: bool,
    pub data: Option<T>,
    pub error: Option<String>,
}

impl<T> CommandResponse<T> {
    /// A success carrying `data`.
    pub fn ok(data: T) -> (r: Self)
        ensures
            r.success,
            r.data == Some(data),
            r.error is None,
    {
        CommandResponse { success: true, data: Some(data), error: None }
    }

    /// A failure carrying `message`.
    pub fn err(message: String) -> (r: Self)
        ensures
            !r.success,
            r.data is None,
            r.error == Some(message),
    {
        CommandResponse { success: false, data: None, error: Some(message) }
    }
}

/// Status of the assistant service as the host sees it.
#[derive(Debug)]
pub struct CopilotStatus {
    pub available: bool,
    pub running: bool,
    pub cli_installed: bool,
    pub cli_authenticated: bool,
    pub message: String,
}

/// `r` is a success whose status has these fields.
pub open spec fn answers_status(
    r: CommandResponse<CopilotStatus>,
    available: bool,
    running: bool,
    cli_installed: bool,
    cli_authenticated: bool,
    message: Seq<char>,
) -> bool {
    &&& r.success
    &&& r.error is None
    &&& r.data is Some
    &&& r.data->Some_0.available == available
    &&& r.data->Some_0.running == running
    &&& r.data->Some_0.cli_installed == cli_installed
    &&& r.data->Some_0.cli_authenticated == cli_authenticated
    &&& r.data->Some_0.message@ == message
}

/// `r` is a failure with this message.
pub open spec fn fails_with<T>(r: CommandResponse<T>, message: Seq<char>) -> bool {
    !r.success && r.data is None && r.error is Some && r.error->Some_0@ == message
}

fn status(
    available: bool,
    running: bool,
    cli_installed: bool,
    cli_authenticated: bool,
    message: String,
) -> (r: CommandResponse<CopilotStatus>)
    ensures
        answers_status(r, available, running, cli_installed, cli_authenticated, message@),
{
    CommandResponse::ok(CopilotStatus { available, running, cli_installed, cli_authenticated, message })
}

/// Reports a probe without starting anything.
pub fn copilot_check(availability: &CopilotAvailability) -> (r: CommandResponse<CopilotStatus>)
    ensures
        answers_status(
            r,
            availability.available,
            false,
            availability.cli_installed,
            availability.cli_authenticated,
            availability.message@,
        ),
{
    status(
        availability.available,
        false,
        availability.cli_installed,
        availability.cli_authenticated,
        String::from_str(availability.message.as_str()),
    )
}

/// Initialising, first step: where the probe finds the assistant
/// unavailable, the answer (nothing is started); `None` where the service
/// is to be started and `init_response` gives the answer.
pub fn copilot_init(availability: &CopilotAvailability) -> (r: Option<CommandResponse<CopilotStatus>>)
    ensures
        r is None <==> availability.available,
        r is Some ==> answers_status(
            r->Some_0,
            false,
            false,
            availability.cli_installed,
            availability.cli_authenticated,
            availability.message@,
        ),
{
    if availability.available {
        None
    } else {
        Some(copilot_check(availability))
    }
}

/// The fields `init_response` reports for a start's result: available,
/// running, installed, authenticated and the message.
pub open spec fn init_status(started: Result<(), CopilotError>) -> (bool, bool, bool, bool, Seq<char>) {
    match started {
        Ok(_) => (true, true, true, true, "AI assistant ready"@),
        Err(CopilotError::CliNotFound) => (
            false,
            false,
            false,
            false,
            "GitHub Copilot CLI not found. Install it to enable AI assistant."@,
        ),
        Err(CopilotError::NotAuthenticated) => (
            false,
            false,
            true,
            false,
            "GitHub CLI not authenticated. Run 'gh auth login' first."@,
        ),
        Err(e) => (false, false, true, true, "Failed to start: "@ + error_message(e)),
    }
}

/// Initialising, second step: the answer for the result of starting.
pub fn init_response(started: &Result<(), CopilotError>) -> (r: CommandResponse<CopilotStatus>)
    ensures
        answers_status(
            r,
            init_status(*started).0,
            init_status(*started).1,
            init_status(*started).2,
            init_status(*started).3,
            init_status(*started).4,
        ),
{
    match started {
        Ok(()) => status(true, true, true, true, String::from_str("AI assistant ready")),
        Err(CopilotError::CliNotFound) => status(
            false,
            false,
            false,
            false,
            String::from_str("GitHub Copilot CLI not found. Install it to enable AI assistant."),
        ),
        Err(CopilotError::NotAuthenticated) => status(
            false,
            false,
            true,
            false,
            String::from_str("GitHub CLI not authenticated. Run 'gh auth login' first."),
        ),
        Err(e) => {
            let mut m = String::from_str("Failed to start: ");
            let detail = e.message();
            m.append(detail.as_str());
            status(false, false, true, true, m)
        },
    }
}

/// The status message: the first matching case wins.
pub open spec fn status_message(running: bool, cli_installed: bool, cli_authenticated: bool) -> Seq<char> {
    if running {
        "AI assistant ready"@
    } else if !cli_installed {
        "GitHub Copilot CLI not installed"@
    } else if !cli_authenticated {
        "GitHub CLI not authenticated"@
    } else {
        "AI assistant not running"@
    }
}

/// Reports a probe together with whether the service is running.
pub fn copilot_status(running: bool, availability: &CopilotAvailability) -> (r: CommandResponse<CopilotStatus>)
    ensures
        answers_status(
            r,
            availability.available && running,
            running,
            availability.cli_installed,
            availability.cli_authenticated,
            status_message(running, availability.cli_installed, availability.cli_authenticated),
        ),
{
    let message = if running {
        String::from_str("AI assistant ready")
    } else if !availability.cli_installed {
        String::from_str("GitHub Copilot CLI not installed")
    } else if !availability.cli_authenticated {
        String::from_str("GitHub CLI not authenticated")
    } else {
        String::from_str("AI assistant not running")
    };
    status(
        availability.available && running,
        running,
        availability.cli_installed,
        availability.cli_authenticated,
        message,
    )
}

/// The refusal of a question while the service is not running.
pub open spec fn ask_refusal() -> Seq<char> {
    "AI assistant not running. Copilot CLI may not be installed."@
}

/// The refusal of a hint, an explanation or an analysis while the service
/// is not running.
pub open spec fn assist_refusal() -> Seq<char> {
    "AI assistant not available"@
}

/// Asking, first step: the refusal where the service is not running, else
/// `None` and the question goes on to the service.
pub fn copilot_ask(running: bool) -> (r: Option<CommandResponse<AssistantResponse>>)
    ensures
        r is Some <==> !running,
        r is Some ==> fails_with(r->Some_0, ask_refusal()),
{
    if running {
        None
    } else {
        Some(CommandResponse::err(String::from_str("AI assistant not running. Copilot CLI may not be installed.")))
    }
}

fn assist_gate(running: bool) -> (r: Option<CommandResponse<AssistantResponse>>)
    ensures
        r is Some <==> !running,
        r is Some ==> fails_with(r->Some_0, assist_refusal()),
{
    if running {
        None
    } else {
        Some(CommandResponse::err(String::from_str("AI assistant not available")))
    }
}

/// Hinting, first step: the refusal where the service is not running.
pub fn copilot_hint(running: bool) -> (r: Option<CommandResponse<AssistantResponse>>)
    ensures
        r is Some <==> !running,
        r is Some ==> fails_with(r->Some_0, assist_refusal()),
{
    assist_gate(running)
}

/// Explaining, first step: the refusal where the service is not running.
pub fn copilot_explain(running: bool) -> (r: Option<CommandResponse<AssistantResponse>>)
    ensures
        r is Some <==> !running,
        r is Some ==> fails_with(r->Some_0, assist_refusal()),
{
    assist_gate(running)
}

/// Analysing a mistake, first step: the refusal where the service is not
/// running.
pub fn copilot_analyze_mistake(running: bool) -> (r: Option<CommandResponse<AssistantResponse>>)
    ensures
        r is Some <==> !running,
        r is Some ==> fails_with(r->Some_0, assist_refusal()),
{
    assist_gate(running)
}

/// The envelope for the result of a conversational operation.
pub fn answer_response(result: Result<AssistantResponse, CopilotError>) -> (r: CommandResponse<AssistantResponse>)
    ensures
        match result {
            Ok(a) => r.success && r.data == Some(a) && r.error is None,
            Err(e) => fails_with(r, error_message(e)),
        },
{
    match result {
        Ok(a) => CommandResponse::ok(a),
        Err(e) => CommandResponse::err(e.message()),
    }
}

/// The envelope for the result of shutting down.
pub fn copilot_shutdown(result: Result<(), CopilotError>) -> (r: CommandResponse<()>)
    ensures
        match result {
            Ok(_) => r.success && r.data is Some && r.error is None,
            Err(e) => fails_with(r, error_message(e)),
        },
{
    match result {
        Ok(()) => CommandResponse::ok(()),
        Err(e) => CommandResponse::err(e.message()),
    }
}

} // verus!
