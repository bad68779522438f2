//! What the user is told.

use vstd::prelude::*;

use crate::text;

verus! {

/// What the user is told once a dock mode is in force.
pub open spec fn dock_mode_text(attached: bool) -> Seq<char> {
    if attached {
        "Keyboard attached: bottom screen disabled"@
    } else {
        "Keyboard detached: bottom screen enabled"@
    }
}

/// What the user is told once a dock mode is in force.
pub fn dock_mode_notification_message(attached: bool) -> (r: &'static str)
    ensures
        r@ == dock_mode_text(attached),
{
    if attached {
        "Keyboard attached: bottom screen disabled"
    } else {
        "Keyboard detached: bottom screen enabled"
    }
}

/// A run of `notify-send`.
#[derive(Debug, Clone)]
pub struct NotificationCommand {
    pub args: Vec<String>,
    /// The variables that it is given.
    pub xdg_runtime_dir: String,
    pub dbus_session_bus_address: String,
}

/// The arguments of a run of `notify-send`.
pub open spec fn notification_args(title: Seq<char>, message: Seq<char>, urgent: bool) -> Seq<
    Seq<char>,
> {
    seq![
        "-a"@,
        "Zenbook Duo Control"@,
        "-u"@,
        if urgent {
            "critical"@
        } else {
            "normal"@
        },
        "-i"@,
        "input-keyboard"@,
        title,
        message,
    ]
}

/// Decides how the user is told something. The session bus is the one that the environment
/// names, or else the one in the runtime directory.
pub fn send_runtime_notification(
    title: &str,
    message: &str,
    urgent: bool,
    runtime_dir: Option<String>,
    bus_address: Option<String>,
) -> (r: Result<NotificationCommand, String>)
    ensures
        match r {
            Ok(command) => {
                &&& runtime_dir is Some
                &&& text::views(command.args@) == notification_args(title@, message@, urgent)
                &&& command.xdg_runtime_dir@ == runtime_dir->0@
                &&& command.dbus_session_bus_address@ == (match bus_address {
                    Some(address) => address@,
                    None => "unix:path="@ + runtime_dir->0@ + "/bus"@,
                })
            },
            Err(e) => {
                &&& runtime_dir is None
                &&& e@ == "XDG_RUNTIME_DIR is not set for runtime notifications"@
            },
        },
{
    let dir: String = match runtime_dir {
        Some(dir) => dir,
        None => {
            return Err("XDG_RUNTIME_DIR is not set for runtime notifications".to_string());
        },
    };
    let address: String = match bus_address {
        Some(address) => address,
        None => text::concat3("unix:path=", dir.as_str(), "/bus"),
    };
    let args: Vec<String> = text::texts(
        &[
            "-a",
            "Zenbook Duo Control",
            "-u",
            if urgent {
                "critical"
            } else {
                "normal"
            },
            "-i",
            "input-keyboard",
            title,
            message,
        ],
    );
    assert(text::views(args@) =~= notification_args(title@, message@, urgent));
    Ok(NotificationCommand { args, xdg_runtime_dir: dir, dbus_session_bus_address: address })
}

/// Decides how the user is told that a dock mode is in force.
pub fn send_dock_mode_notification(
    attached: bool,
    runtime_dir: Option<String>,
    bus_address: Option<String>,
) -> (r: Result<NotificationCommand, String>)
    ensures
        match r {
            Ok(command) => {
                &&& runtime_dir is Some
                &&& text::views(command.args@) == notification_args(
                    "Zenbook Duo Control"@,
                    dock_mode_text(attached),
                    false,
                )
                &&& command.xdg_runtime_dir@ == runtime_dir->0@
                &&& command.dbus_session_bus_address@ == (match bus_address {
                    Some(address) => address@,
                    None => "unix:path="@ + runtime_dir->0@ + "/bus"@,
                })
            },
            Err(e) => {
                &&& runtime_dir is None
                &&& e@ == "XDG_RUNTIME_DIR is not set for runtime notifications"@
            },
        },
{
    send_runtime_notification(
        "Zenbook Duo Control",
        dock_mode_notification_message(attached),
        false,
        runtime_dir,
        bus_address,
    )
}

/// Says that `notify-send` could not be run.
pub fn notification_failure(err: &str) -> (r: String)
    ensures
        r@ == "Failed to launch runtime notification: "@ + err@,
{
    text::concat2("Failed to launch runtime notification: ", err)
}

/// A watcher of the session agent.
#[derive(Debug, Clone, Copy, PartialEq, Eq, Structural)]
pub enum Watcher {
    Rotation,
    Brightness,
    Hotkeys,
}

/// What the user is told, as an urgent matter, where a watcher ends with an error.
pub fn watcher_failure(watcher: Watcher, err: &str) -> (r: String)
    ensures
        r@ == (match watcher {
            Watcher::Rotation => "Rotation watcher failed: "@,
            Watcher::Brightness => "Brightness sync watcher failed: "@,
            Watcher::Hotkeys => "Keyboard hotkey watcher failed: "@,
        }) + err@,
{
    text::concat2(
        match watcher {
            Watcher::Rotation => "Rotation watcher failed: ",
            Watcher::Brightness => "Brightness sync watcher failed: ",
            Watcher::Hotkeys => "Keyboard hotkey watcher failed: ",
        },
        err,
    )
}

/// The user is told the title and the message as they are, critically exactly where it is urgent,
/// over the session bus that the environment names, or else over the one in the runtime directory.
/// Without a runtime directory there is no way to tell.
pub proof fn law_user_is_told_as_given(
    title: &str,
    message: &str,
    urgent: bool,
    runtime_dir: Option<String>,
    bus_address: Option<String>,
    r: Result<NotificationCommand, String>,
)
    requires
        call_ensures(
            send_runtime_notification,
            (title, message, urgent, runtime_dir, bus_address),
            r,
        ),
    ensures
        r is Ok <==> runtime_dir is Some,
        r matches Err(e) ==> e@ == "XDG_RUNTIME_DIR is not set for runtime notifications"@,
        r matches Ok(command) ==> {
            let args = text::views(command.args@);
            &&& args.len() == 8
            &&& args[0] == "-a"@
            &&& args[1] == "Zenbook Duo Control"@
            &&& args[2] == "-u"@
            &&& urgent ==> args[3] == "critical"@
            &&& !urgent ==> args[3] == "normal"@
            &&& args[4] == "-i"@
            &&& args[5] == "input-keyboard"@
            &&& args[6] == title@
            &&& args[7] == message@
            &&& command.xdg_runtime_dir@ == runtime_dir->0@
            &&& bus_address matches Some(address) ==> command.dbus_session_bus_address@ == address@
            &&& bus_address is None ==> command.dbus_session_bus_address@ == "unix:path="@
                + runtime_dir->0@ + "/bus"@
        },
{
}

/// Once a dock mode is in force the user is told, without urgency, which way the keyboard went and
/// what became of the lower display.
pub proof fn law_user_is_told_of_the_dock_mode(
    attached: bool,
    runtime_dir: Option<String>,
    bus_address: Option<String>,
    r: Result<NotificationCommand, String>,
    message: &'static str,
)
    requires
        call_ensures(send_dock_mode_notification, (attached, runtime_dir, bus_address), r),
        call_ensures(dock_mode_notification_message, (attached,), message),
    ensures
        attached ==> message@ == "Keyboard attached: bottom screen disabled"@,
        !attached ==> message@ == "Keyboard detached: bottom screen enabled"@,
        r is Ok <==> runtime_dir is Some,
        r matches Ok(command) ==> {
            let args = text::views(command.args@);
            &&& args.len() == 8
            &&& args[3] == "normal"@
            &&& args[6] == "Zenbook Duo Control"@
            &&& args[7] == message@
            &&& command.xdg_runtime_dir@ == runtime_dir->0@
            &&& bus_address matches Some(address) ==> command.dbus_session_bus_address@ == address@
            &&& bus_address is None ==> command.dbus_session_bus_address@ == "unix:path="@
                + runtime_dir->0@ + "/bus"@
        },
{
}

/// A watcher that ended is named, with the reason, and so is a notification that failed.
pub proof fn law_failed_watcher_is_named(
    watcher: Watcher,
    err: &str,
    r: String,
    failure: String,
)
    requires
        call_ensures(watcher_failure, (watcher, err), r),
        call_ensures(notification_failure, (err,), failure),
    ensures
        watcher == Watcher::Rotation ==> r@ == "Rotation watcher failed: "@ + err@,
        watcher == Watcher::Brightness ==> r@ == "Brightness sync watcher failed: "@ + err@,
        watcher == Watcher::Hotkeys ==> r@ == "Keyboard hotkey watcher failed: "@ + err@,
        failure@ == "Failed to launch runtime notification: "@ + err@,
{
}

}
