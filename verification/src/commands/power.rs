//! The control panel's commands for the power profile.

use vstd::prelude::*;

use crate::ipc::DaemonResponse;
use crate::text;

verus! {

/// Takes over the daemon's answer to the request for a power profile.
pub fn apply_performance_mode(reply: Result<DaemonResponse, String>) -> (r: Result<(), String>)
    ensures
        match reply {
            Ok(DaemonResponse::Ack) => r is Ok,
            Ok(DaemonResponse::Error { message }) => r == Err::<(), String>(message),
            Ok(_) => r is Err && r->Err_0@
                == "Unexpected daemon response while applying performance mode"@,
            Err(message) => r is Err && r->Err_0@
                == "The system daemon is required to set performance mode: "@ + message@,
        },
{
    match reply {
        Ok(DaemonResponse::Ack) => Ok(()),
        Ok(DaemonResponse::Error { message }) => Err(message),
        Ok(_) => Err("Unexpected daemon response while applying performance mode".to_string()),
        Err(message) => Err(
            text::concat2(
                "The system daemon is required to set performance mode: ",
                message.as_str(),
            ),
        ),
    }
}

/// A power profile is in force exactly where the daemon acknowledges it; there is no way to set it
/// without the daemon.
pub proof fn law_profile_needs_the_daemon(
    reply: Result<DaemonResponse, String>,
    r: Result<(), String>,
)
    requires
        call_ensures(apply_performance_mode, (reply,), r),
    ensures
        r is Ok <==> (reply matches Ok(answer) && answer is Ack),
        reply matches Ok(DaemonResponse::Error { message }) ==> r->Err_0 == message,
        reply matches Err(message) ==> r->Err_0@
            == "The system daemon is required to set performance mode: "@ + message@,
        reply matches Ok(answer) ==> (answer is Ack || answer is Error || r->Err_0@
            == "Unexpected daemon response while applying performance mode"@),
{
}

}
