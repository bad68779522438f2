//! The control panel's commands for the battery.

use vstd::prelude::*;

use crate::ipc::DaemonResponse;
use crate::models::battery::BatteryStatus;
use crate::text;

verus! {

/// What a question for the battery's status came to.
#[derive(Debug)]
pub enum BatteryAnswer {
    Status(BatteryStatus),
    Failed(String),
    /// The daemon could not be asked: the battery is to be read here.
    ReadHere,
}

/// Takes over the daemon's answer to the question for the battery's status.
pub fn get_battery_status(reply: Result<DaemonResponse, String>) -> (r: BatteryAnswer)
    ensures
        match reply {
            Ok(DaemonResponse::BatteryStatus { status }) => r == BatteryAnswer::Status(status),
            Ok(DaemonResponse::Error { message }) => r == BatteryAnswer::Failed(message),
            Ok(_) => r matches BatteryAnswer::Failed(e) && e@
                == "Unexpected daemon response while reading battery status"@,
            Err(_) => r is ReadHere,
        },
{
    match reply {
        Ok(DaemonResponse::BatteryStatus { status }) => BatteryAnswer::Status(status),
        Ok(DaemonResponse::Error { message }) => BatteryAnswer::Failed(message),
        Ok(_) => BatteryAnswer::Failed(
            "Unexpected daemon response while reading battery status".to_string(),
        ),
        Err(_) => BatteryAnswer::ReadHere,
    }
}

/// Takes over the daemon's answer to the request for a charge limit.
pub fn set_charge_limit(reply: Result<DaemonResponse, String>) -> (r: Result<BatteryStatus, String>)
    ensures
        match reply {
            Ok(DaemonResponse::BatteryStatus { status }) => r == Ok::<BatteryStatus, String>(
                status,
            ),
            Ok(DaemonResponse::Error { message }) => r == Err::<BatteryStatus, String>(message),
            Ok(_) => r is Err && r->Err_0@
                == "Unexpected daemon response while setting charge limit"@,
            Err(message) => r is Err && r->Err_0@
                == "The system daemon is required to set the charge limit: "@ + message@,
        },
{
    match reply {
        Ok(DaemonResponse::BatteryStatus { status }) => Ok(status),
        Ok(DaemonResponse::Error { message }) => Err(message),
        Ok(_) => Err("Unexpected daemon response while setting charge limit".to_string()),
        Err(message) => Err(
            text::concat2(
                "The system daemon is required to set the charge limit: ",
                message.as_str(),
            ),
        ),
    }
}

/// The daemon's status is the answer, and so is its error. Where it cannot be asked the battery is
/// read here, and only then.
pub proof fn law_battery_is_read_here_without_a_daemon(
    reply: Result<DaemonResponse, String>,
    r: BatteryAnswer,
)
    requires
        call_ensures(get_battery_status, (reply,), r),
    ensures
        r is ReadHere <==> reply is Err,
        r is Status <==> (reply matches Ok(answer) && answer is BatteryStatus),
        reply matches Ok(DaemonResponse::BatteryStatus { status }) ==> r == BatteryAnswer::Status(
            status,
        ),
        reply matches Ok(DaemonResponse::Error { message }) ==> r == BatteryAnswer::Failed(message),
        reply matches Ok(answer) ==> (answer is BatteryStatus || answer is Error || (
        r matches BatteryAnswer::Failed(e) && e@
            == "Unexpected daemon response while reading battery status"@)),
{
}

/// A charge limit is in force exactly where the daemon answers with the battery's status; there is
/// no way to set it without the daemon.
pub proof fn law_charge_limit_needs_the_daemon(
    reply: Result<DaemonResponse, String>,
    r: Result<BatteryStatus, String>,
)
    requires
        call_ensures(set_charge_limit, (reply,), r),
    ensures
        r is Ok <==> (reply matches Ok(answer) && answer is BatteryStatus),
        reply matches Ok(DaemonResponse::BatteryStatus { status }) ==> r->Ok_0 == status,
        reply matches Ok(DaemonResponse::Error { message }) ==> r->Err_0 == message,
        reply matches Err(message) ==> r->Err_0@
            == "The system daemon is required to set the charge limit: "@ + message@,
        reply matches Ok(answer) ==> (answer is BatteryStatus || answer is Error || r->Err_0@
            == "Unexpected daemon response while setting charge limit"@),
{
}

}
