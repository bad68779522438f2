//! The session agent's side of its talks with the daemon.

use vstd::prelude::*;

use crate::ipc::{DaemonResponse, SessionCommand, SessionResponse};
use crate::models::display::DisplayLayout;
use crate::models::settings::Real;
use crate::models::status::Orientation;
use crate::runtime::state::RuntimeState;
use crate::text;

verus! {

/// What a request asks to be done.
#[derive(Debug)]
pub enum SessionEffect {
    QueryLayout,
    ApplyDockMode { attached: bool, scale: Real },
    ApplyLayout { layout: DisplayLayout },
    SetOrientation { orientation: Orientation, scale: Real },
    Notify { title: String, message: String, urgent: bool },
    /// Nothing: the request is answered as it is.
    Acknowledge,
}

/// What came of an effect.
#[derive(Debug)]
pub enum EffectOutcome {
    /// The layout that was asked for, or why there is none.
    Layout(Result<DisplayLayout, String>),
    /// Whether it was done.
    Done(Result<(), String>),
}

/// What a request asks to be done.
pub open spec fn effect_asked(command: SessionCommand) -> SessionEffect {
    match command {
        SessionCommand::GetDisplayLayout => SessionEffect::QueryLayout,
        SessionCommand::SetDockMode { attached, scale } => SessionEffect::ApplyDockMode {
            attached,
            scale,
        },
        SessionCommand::ApplyDisplayLayout { layout } => SessionEffect::ApplyLayout { layout },
        SessionCommand::SetOrientation { orientation, scale } => SessionEffect::SetOrientation {
            orientation,
            scale,
        },
        SessionCommand::ShowNotification { title, message, urgent } => SessionEffect::Notify {
            title,
            message,
            urgent,
        },
        SessionCommand::OpenEmojiPicker => SessionEffect::Acknowledge,
    }
}

/// An outcome that this effect can have: a question for the layout brings a layout or the reason
/// why there is none, any other effect is done or not, and an acknowledgement cannot fail.
pub open spec fn outcome_fits(effect: SessionEffect, outcome: EffectOutcome) -> bool {
    match effect {
        SessionEffect::QueryLayout => outcome is Layout,
        SessionEffect::Acknowledge => outcome matches EffectOutcome::Done(done) && done is Ok,
        _ => outcome is Done,
    }
}

/// The answer to a request, with what came of its effect.
pub open spec fn answer(outcome: EffectOutcome) -> SessionResponse {
    match outcome {
        EffectOutcome::Layout(Ok(layout)) => SessionResponse::DisplayLayout { layout },
        EffectOutcome::Layout(Err(message)) => SessionResponse::Error { message },
        EffectOutcome::Done(Ok(_)) => SessionResponse::Ack,
        EffectOutcome::Done(Err(message)) => SessionResponse::Error { message },
    }
}

/// Decides what a request asks to be done.
pub fn handle_session_command(command: SessionCommand) -> (r: SessionEffect)
    ensures
        r == effect_asked(command),
{
    match command {
        SessionCommand::GetDisplayLayout => SessionEffect::QueryLayout,
        SessionCommand::SetDockMode { attached, scale } => SessionEffect::ApplyDockMode {
            attached,
            scale,
        },
        SessionCommand::ApplyDisplayLayout { layout } => SessionEffect::ApplyLayout { layout },
        SessionCommand::SetOrientation { orientation, scale } => SessionEffect::SetOrientation {
            orientation,
            scale,
        },
        SessionCommand::ShowNotification { title, message, urgent } => SessionEffect::Notify {
            title,
            message,
            urgent,
        },
        SessionCommand::OpenEmojiPicker => SessionEffect::Acknowledge,
    }
}

/// The answer to a request, with what came of its effect.
pub fn session_response(outcome: EffectOutcome) -> (r: SessionResponse)
    ensures
        r == answer(outcome),
{
    match outcome {
        EffectOutcome::Layout(Ok(layout)) => SessionResponse::DisplayLayout { layout },
        EffectOutcome::Layout(Err(message)) => SessionResponse::Error { message },
        EffectOutcome::Done(Ok(())) => SessionResponse::Ack,
        EffectOutcome::Done(Err(message)) => SessionResponse::Error { message },
    }
}

/// Every request gets an answer of its kind. A question for the layout is answered by the layout
/// that was found, or by the error. Any other request is acknowledged exactly where its effect
/// succeeded, and else answered by the error; a request that asks for nothing is acknowledged.
pub proof fn law_answer_fits_the_request(command: SessionCommand, outcome: EffectOutcome)
    requires
        outcome_fits(effect_asked(command), outcome),
    ensures
        match answer(outcome) {
            SessionResponse::DisplayLayout { layout } => {
                &&& command is GetDisplayLayout
                &&& outcome == EffectOutcome::Layout(Ok(layout))
            },
            SessionResponse::Ack => {
                &&& !(command is GetDisplayLayout)
                &&& outcome matches EffectOutcome::Done(done)
                &&& done is Ok
            },
            SessionResponse::Error { message } => {
                &&& !(command is OpenEmojiPicker)
                &&& outcome == (if command is GetDisplayLayout {
                    EffectOutcome::Layout(Err(message))
                } else {
                    EffectOutcome::Done(Err(message))
                })
            },
        },
{
}

/// Where serving a client failed, with the reason.
#[derive(Debug, Clone)]
pub enum ServeFailure {
    Accept(String),
    Bind(String),
    Read(String),
    Decode(String),
    Encode(String),
    Write(String),
    Terminate(String),
}

/// Says where serving a client failed.
pub fn serve_failure_text(failure: &ServeFailure) -> (r: String)
    ensures
        r@ == (match *failure {
            ServeFailure::Accept(err) => "Failed to accept session-agent client: "@ + err@,
            ServeFailure::Bind(err) => "Failed to bind session agent socket: "@ + err@,
            ServeFailure::Read(err) => "Failed to read session command: "@ + err@,
            ServeFailure::Decode(err) => "Invalid session command JSON: "@ + err@,
            ServeFailure::Encode(err) => "Failed to encode session response: "@ + err@,
            ServeFailure::Write(err) => "Failed to write session response: "@ + err@,
            ServeFailure::Terminate(err) => "Failed to terminate session response: "@ + err@,
        }),
{
    match failure {
        ServeFailure::Accept(err) => text::concat2(
            "Failed to accept session-agent client: ",
            err.as_str(),
        ),
        ServeFailure::Bind(err) => text::concat2(
            "Failed to bind session agent socket: ",
            err.as_str(),
        ),
        ServeFailure::Read(err) => text::concat2("Failed to read session command: ", err.as_str()),
        ServeFailure::Decode(err) => text::concat2("Invalid session command JSON: ", err.as_str()),
        ServeFailure::Encode(err) => text::concat2(
            "Failed to encode session response: ",
            err.as_str(),
        ),
        ServeFailure::Write(err) => text::concat2(
            "Failed to write session response: ",
            err.as_str(),
        ),
        ServeFailure::Terminate(err) => text::concat2(
            "Failed to terminate session response: ",
            err.as_str(),
        ),
    }
}

/// What registering with the daemon came to.
#[derive(Debug, Clone)]
pub enum RegistrationOutcome {
    ConnectFailed(String),
    EncodeFailed(String),
    SendFailed(String),
    TerminateFailed(String),
    ReadFailed(String),
    /// The daemon closed the connection without an answer.
    Closed,
    DecodeFailed(String),
    /// The daemon answered; `rendered` is how the answer is written.
    Answered { response: DaemonResponse, rendered: String },
}

/// Why the session agent is not registered, if it is not.
pub open spec fn registration_error(outcome: RegistrationOutcome) -> Option<Seq<char>> {
    match outcome {
        RegistrationOutcome::ConnectFailed(err) => Some(
            "Failed to connect to daemon socket: "@ + err@,
        ),
        RegistrationOutcome::EncodeFailed(err) => Some("Failed to encode registration: "@ + err@),
        RegistrationOutcome::SendFailed(err) => Some("Failed to send registration: "@ + err@),
        RegistrationOutcome::TerminateFailed(err) => Some(
            "Failed to terminate registration: "@ + err@,
        ),
        RegistrationOutcome::ReadFailed(err) => Some(
            "Failed reading daemon registration reply: "@ + err@,
        ),
        RegistrationOutcome::Closed => Some(
            "Daemon closed before replying to session registration"@,
        ),
        RegistrationOutcome::DecodeFailed(err) => Some(
            "Invalid daemon registration response: "@ + err@,
        ),
        RegistrationOutcome::Answered { response, rendered } => match response {
            DaemonResponse::Ack => None,
            DaemonResponse::Error { message } => Some(message@),
            _ => Some("Unexpected daemon registration response: "@ + rendered@),
        },
    }
}

/// Takes over what registering with the daemon came to.
pub fn register_with_daemon(outcome: RegistrationOutcome) -> (r: Result<(), String>)
    ensures
        match r {
            Ok(_) => registration_error(outcome) is None,
            Err(e) => registration_error(outcome) == Some(e@),
        },
{
    match outcome {
        RegistrationOutcome::ConnectFailed(err) => Err(
            text::concat2("Failed to connect to daemon socket: ", err.as_str()),
        ),
        RegistrationOutcome::EncodeFailed(err) => Err(
            text::concat2("Failed to encode registration: ", err.as_str()),
        ),
        RegistrationOutcome::SendFailed(err) => Err(
            text::concat2("Failed to send registration: ", err.as_str()),
        ),
        RegistrationOutcome::TerminateFailed(err) => Err(
            text::concat2("Failed to terminate registration: ", err.as_str()),
        ),
        RegistrationOutcome::ReadFailed(err) => Err(
            text::concat2("Failed reading daemon registration reply: ", err.as_str()),
        ),
        RegistrationOutcome::Closed => Err(
            "Daemon closed before replying to session registration".to_string(),
        ),
        RegistrationOutcome::DecodeFailed(err) => Err(
            text::concat2("Invalid daemon registration response: ", err.as_str()),
        ),
        RegistrationOutcome::Answered { response, rendered } => match response {
            DaemonResponse::Ack => Ok(()),
            DaemonResponse::Error { message } => Err(message),
            _ => Err(
                text::concat2("Unexpected daemon registration response: ", rendered.as_str()),
            ),
        },
    }
}

/// Whether the keyboard is attached, as the daemon's recorded state says; not, where there is
/// none.
pub fn keyboard_attached_from_runtime(state: &Option<RuntimeState>) -> (r: bool)
    ensures
        r == (state is Some && state->0.status.keyboard_attached),
{
    match state {
        Some(state) => state.status.keyboard_attached,
        None => false,
    }
}

/// A request is carried out with its own arguments, and none is taken for another.
pub proof fn law_request_keeps_its_arguments(command: SessionCommand, r: SessionEffect)
    requires
        call_ensures(handle_session_command, (command,), r),
    ensures
        command is GetDisplayLayout <==> r is QueryLayout,
        command is OpenEmojiPicker <==> r is Acknowledge,
        command matches SessionCommand::SetDockMode { attached, scale } ==> r
            == (SessionEffect::ApplyDockMode { attached, scale }),
        command matches SessionCommand::ApplyDisplayLayout { layout } ==> r
            == (SessionEffect::ApplyLayout { layout }),
        command matches SessionCommand::SetOrientation { orientation, scale } ==> r
            == (SessionEffect::SetOrientation { orientation, scale }),
        command matches SessionCommand::ShowNotification { title, message, urgent } ==> r
            == (SessionEffect::Notify { title, message, urgent }),
{
}

/// An effect is acknowledged exactly where it was done, a layout is answered as it was found, and
/// an error is answered in its own words.
pub proof fn law_answer_tells_the_outcome(outcome: EffectOutcome, r: SessionResponse)
    requires
        call_ensures(session_response, (outcome,), r),
    ensures
        r is Ack <==> (outcome matches EffectOutcome::Done(done) && done is Ok),
        r is DisplayLayout <==> (outcome matches EffectOutcome::Layout(found) && found is Ok),
        outcome matches EffectOutcome::Layout(Ok(layout)) ==> r == (
        SessionResponse::DisplayLayout { layout }),
        outcome matches EffectOutcome::Layout(Err(message)) ==> r == (SessionResponse::Error {
            message,
        }),
        outcome matches EffectOutcome::Done(Err(message)) ==> r == (SessionResponse::Error {
            message,
        }),
        r == answer(outcome),
{
}

/// The agent is registered exactly where the daemon acknowledges it; otherwise it is told why not,
/// and an error of the daemon in its own words.
pub proof fn law_agent_is_registered_when_acknowledged(
    outcome: RegistrationOutcome,
    r: Result<(), String>,
)
    requires
        call_ensures(register_with_daemon, (outcome,), r),
    ensures
        r is Ok <==> (outcome matches RegistrationOutcome::Answered { response, rendered }
            && response is Ack),
        outcome matches RegistrationOutcome::Answered { response, rendered } ==> {
            &&& response matches DaemonResponse::Error { message } ==> r->Err_0@ == message@
            &&& response is Ack || response is Error || r->Err_0@
                == "Unexpected daemon registration response: "@ + rendered@
        },
        outcome matches RegistrationOutcome::ConnectFailed(err) ==> r->Err_0@
            == "Failed to connect to daemon socket: "@ + err@,
        outcome matches RegistrationOutcome::EncodeFailed(err) ==> r->Err_0@
            == "Failed to encode registration: "@ + err@,
        outcome matches RegistrationOutcome::SendFailed(err) ==> r->Err_0@
            == "Failed to send registration: "@ + err@,
        outcome matches RegistrationOutcome::TerminateFailed(err) ==> r->Err_0@
            == "Failed to terminate registration: "@ + err@,
        outcome matches RegistrationOutcome::ReadFailed(err) ==> r->Err_0@
            == "Failed reading daemon registration reply: "@ + err@,
        outcome matches RegistrationOutcome::DecodeFailed(err) ==> r->Err_0@
            == "Invalid daemon registration response: "@ + err@,
        outcome is Closed ==> r->Err_0@ == "Daemon closed before replying to session registration"@,
{
}

/// Where serving a client failed is told apart, with the reason at the end.
pub proof fn law_serving_failures_are_told_apart(failure: ServeFailure, r: String)
    requires
        call_ensures(serve_failure_text, (&failure,), r),
    ensures
        failure matches ServeFailure::Accept(err) ==> r@
            == "Failed to accept session-agent client: "@ + err@,
        failure matches ServeFailure::Bind(err) ==> r@ == "Failed to bind session agent socket: "@
            + err@,
        failure matches ServeFailure::Read(err) ==> r@ == "Failed to read session command: "@
            + err@,
        failure matches ServeFailure::Decode(err) ==> r@ == "Invalid session command JSON: "@
            + err@,
        failure matches ServeFailure::Encode(err) ==> r@ == "Failed to encode session response: "@
            + err@,
        failure matches ServeFailure::Write(err) ==> r@ == "Failed to write session response: "@
            + err@,
        failure matches ServeFailure::Terminate(err) ==> r@
            == "Failed to terminate session response: "@ + err@,
{
}

/// The keyboard counts as attached exactly where the daemon has a recorded state that says so.
pub proof fn law_recorded_state_tells_of_the_keyboard(state: Option<RuntimeState>, r: bool)
    requires
        call_ensures(keyboard_attached_from_runtime, (&state,), r),
    ensures
        r <==> state is Some && state->0.status.keyboard_attached,
{
}

}
