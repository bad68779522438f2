//! Which compositor runs the session, and whether it is ready.

use vstd::prelude::*;

use crate::command::CommandOutput;
use crate::ipc::SessionBackend;
use crate::text;

verus! {

/// An entry of the runtime directory.
#[derive(Debug, Clone)]
pub struct RuntimeEntry {
    /// Its name, where that is text.
    pub name: Option<String>,
    /// When it was last changed, in nanoseconds after the Unix epoch; nothing where its metadata
    /// cannot be read, and `Some(None)` where the metadata do not tell.
    pub modified: Option<Option<i128>>,
}

/// The name is that of a socket of niri.
pub open spec fn is_niri_name(name: Seq<char>) -> bool {
    &&& text::matches_at(name, "niri."@, 0)
    &&& text::matches_at(name, ".sock"@, name.len() - ".sock"@.len())
}

/// The entry is a socket of niri.
pub open spec fn is_niri_socket(entry: Option<RuntimeEntry>) -> bool {
    &&& entry is Some
    &&& entry->0.name is Some
    &&& is_niri_name(entry->0.name->0@)
}

/// The entry could be read as far as it matters.
pub open spec fn readable(entry: Option<RuntimeEntry>) -> bool {
    &&& entry is Some
    &&& entry->0.name is Some
    &&& is_niri_socket(entry) ==> entry->0.modified is Some
}

/// When an entry was last changed; the Unix epoch where that is not known.
pub open spec fn changed_at(entry: Option<RuntimeEntry>) -> i128 {
    match entry->0.modified {
        Some(Some(at)) => at,
        _ => 0,
    }
}

/// `at` is the socket of niri that was changed last; of several, the first.
pub open spec fn newest_socket(entries: Seq<Option<RuntimeEntry>>, at: int) -> bool {
    &&& 0 <= at < entries.len()
    &&& is_niri_socket(entries[at])
    &&& forall|j: int|
        0 <= j < entries.len() && is_niri_socket(#[trigger] entries[j]) ==> changed_at(entries[j])
            <= changed_at(entries[at])
    &&& forall|j: int|
        0 <= j < at && is_niri_socket(#[trigger] entries[j]) ==> changed_at(entries[j])
            < changed_at(entries[at])
}

/// Every entry could be read as far as it matters.
pub open spec fn all_readable(entries: Seq<Option<RuntimeEntry>>) -> bool {
    forall|j: int| 0 <= j < entries.len() ==> readable(#[trigger] entries[j])
}

/// There is a socket of niri among the entries.
pub open spec fn has_niri_socket(entries: Seq<Option<RuntimeEntry>>) -> bool {
    exists|j: int| 0 <= j < entries.len() && is_niri_socket(#[trigger] entries[j])
}

/// The socket of niri.
#[derive(Debug, Clone, Copy, PartialEq, Eq, Structural)]
pub enum NiriSocket {
    /// The one that the environment names.
    FromEnvironment,
    /// An entry of the runtime directory, by its place.
    Entry(usize),
}

fn niri_name(name: &str) -> (r: bool)
    ensures
        r == is_niri_name(name@),
{
    text::starts_with(name, "niri.") && text::ends_with(name, ".sock")
}

/// Finds the socket of niri. `env_socket_exists` tells whether the environment names a socket
/// that exists. `entries` holds the entries of the runtime directory: nothing where there is
/// none or it cannot be listed, and `None` for an entry that could not be read.
pub fn resolve_niri_socket_from(
    env_socket_exists: bool,
    entries: &Option<Vec<Option<RuntimeEntry>>>,
) -> (r: Option<NiriSocket>)
    ensures
        match r {
            Some(NiriSocket::FromEnvironment) => env_socket_exists,
            Some(NiriSocket::Entry(at)) => {
                &&& !env_socket_exists
                &&& entries is Some
                &&& all_readable(entries->0@)
                &&& newest_socket(entries->0@, at as int)
            },
            None => {
                &&& !env_socket_exists
                &&& entries is Some ==> !all_readable(entries->0@) || !has_niri_socket(entries->0@)
            },
        },
{
    if env_socket_exists {
        return Some(NiriSocket::FromEnvironment);
    }
    let list: &Vec<Option<RuntimeEntry>> = match entries {
        Some(list) => list,
        None => {
            return None;
        },
    };
    let ghost all = list@;
    let mut newest: Option<(i128, usize)> = None;
    let mut i: usize = 0;
    while i < list.len()
        invariant
            i <= list@.len(),
            all == list@,
            *entries == Some(*list),
            !env_socket_exists,
            all_readable(all.take(i as int)),
            match newest {
                Some((modified, at)) => {
                    &&& at < i
                    &&& newest_socket(all.take(i as int), at as int)
                    &&& modified == changed_at(all[at as int])
                },
                None => !has_niri_socket(all.take(i as int)),
            },
        decreases list@.len() - i,
    {
        let ghost seen = all.take(i as int);
        let ghost next = all.take(i + 1);
        proof {
            assert(forall|j: int| 0 <= j < i ==> #[trigger] next[j] == seen[j]);
            assert(next[i as int] == all[i as int]);
        }
        let entry: &RuntimeEntry = match &list[i] {
            Some(entry) => entry,
            None => {
                assert(!readable(all[i as int]));
                return None;
            },
        };
        let name: &String = match &entry.name {
            Some(name) => name,
            None => {
                assert(!readable(all[i as int]));
                return None;
            },
        };
        let ghost was = newest;
        if niri_name(name.as_str()) {
            let modified: i128 = match entry.modified {
                Some(Some(at)) => at,
                Some(None) => 0,
                None => {
                    assert(!readable(all[i as int]));
                    return None;
                },
            };
            let newer: bool = match newest {
                Some((current, _)) => current < modified,
                None => true,
            };
            if newer {
                newest = Some((modified, i));
            }
        }
        proof {
            assert forall|j: int| 0 <= j < next.len() implies readable(#[trigger] next[j]) by {
                if j < i {
                    assert(readable(seen[j]));
                }
            }
            assert(forall|j: int|
                0 <= j < i && is_niri_socket(#[trigger] next[j]) ==> is_niri_socket(seen[j]));
            if let Some((_, at)) = was {
                assert(is_niri_socket(next[at as int]));
                assert(is_niri_socket(seen[at as int]));
            }
        }
        i += 1;
    }
    assert(all.take(i as int) =~= all);
    match newest {
        Some((_, at)) => Some(NiriSocket::Entry(at)),
        None => None,
    }
}

/// The identifier of the session, as the environment gives it.
pub fn detect_session_id(variable: Option<String>) -> (r: String)
    ensures
        r@ == (match variable {
            Some(id) => id@,
            None => "unknown-session"@,
        }),
{
    match variable {
        Some(id) => id,
        None => "unknown-session".to_string(),
    }
}

/// The compositor that the name of a desktop, in lower case, stands for.
pub open spec fn backend_of(current: Seq<char>, has_niri_socket: bool) -> SessionBackend {
    if text::contains_text(current, "gnome"@) {
        SessionBackend::Gnome
    } else if text::contains_text(current, "plasma"@) || text::contains_text(current, "kde"@) {
        SessionBackend::Kde
    } else if text::contains_text(current, "niri"@) || has_niri_socket {
        SessionBackend::Niri
    } else {
        SessionBackend::Unknown
    }
}

/// The compositor that the name of a desktop, in lower case, stands for; where it stands for
/// none, a socket of niri gives niri away.
pub fn detect_backend_from(current: String, has_niri_socket: bool) -> (r: SessionBackend)
    ensures
        r == backend_of(current@, has_niri_socket),
{
    let name: &str = current.as_str();
    if text::contains(name, "gnome") {
        SessionBackend::Gnome
    } else if text::contains(name, "plasma") || text::contains(name, "kde") {
        SessionBackend::Kde
    } else if text::contains(name, "niri") || has_niri_socket {
        SessionBackend::Niri
    } else {
        SessionBackend::Unknown
    }
}

/// The variables that name the desktop, in the order in which they are asked.
#[derive(Debug, Clone)]
pub struct DesktopVariables {
    pub xdg_current_desktop: Option<String>,
    pub xdg_session_desktop: Option<String>,
    pub desktop_session: Option<String>,
}

/// The name of the desktop: what the first variable that is set says.
pub open spec fn desktop_name(variables: DesktopVariables) -> Seq<char> {
    match variables.xdg_current_desktop {
        Some(name) => name@,
        None => match variables.xdg_session_desktop {
            Some(name) => name@,
            None => match variables.desktop_session {
                Some(name) => name@,
                None => Seq::empty(),
            },
        },
    }
}

/// The compositor that the environment names, whatever the case of its letters.
pub fn detect_backend(variables: DesktopVariables, has_niri_socket: bool) -> (r: SessionBackend)
    ensures
        r == backend_of(text::lowercase(desktop_name(variables)), has_niri_socket),
{
    let name: String = match variables.xdg_current_desktop {
        Some(name) => name,
        None => match variables.xdg_session_desktop {
            Some(name) => name,
            None => match variables.desktop_session {
                Some(name) => name,
                None => String::new(),
            },
        },
    };
    detect_backend_from(text::to_lowercase(name.as_str()), has_niri_socket)
}

/// The compositors in the order in which they are tried: the hinted one first.
pub open spec fn probe_order(hinted: SessionBackend) -> Seq<SessionBackend> {
    match hinted {
        SessionBackend::Gnome => seq![
            SessionBackend::Gnome,
            SessionBackend::Niri,
            SessionBackend::Kde,
        ],
        SessionBackend::Kde => seq![
            SessionBackend::Kde,
            SessionBackend::Niri,
            SessionBackend::Gnome,
        ],
        _ => seq![SessionBackend::Niri, SessionBackend::Gnome, SessionBackend::Kde],
    }
}

/// The compositors in the order in which they are tried.
pub fn backend_probe_order(hinted: SessionBackend) -> (r: Vec<SessionBackend>)
    ensures
        r@ == probe_order(hinted),
{
    let mut order: Vec<SessionBackend> = Vec::new();
    if hinted != SessionBackend::Unknown {
        order.push(hinted);
    }
    if hinted != SessionBackend::Niri {
        order.push(SessionBackend::Niri);
    }
    if hinted != SessionBackend::Gnome {
        order.push(SessionBackend::Gnome);
    }
    if hinted != SessionBackend::Kde {
        order.push(SessionBackend::Kde);
    }
    assert(order@ =~= probe_order(hinted));
    order
}

/// `found` is the first of `order` that `is_ready` says is ready, or `Unknown` where it says so
/// of none.
pub open spec fn first_ready<F: Fn(SessionBackend) -> bool>(
    order: Seq<SessionBackend>,
    is_ready: F,
    found: SessionBackend,
) -> bool {
    ||| exists|i: int| #[trigger] ready_at(order, is_ready, found, i)
    ||| {
        &&& found == SessionBackend::Unknown
        &&& forall|j: int|
            0 <= j < order.len() ==> call_ensures(is_ready, (#[trigger] order[j],), false)
    }
}

/// `found` is number `i` of `order`, and the first that `is_ready` says is ready.
pub open spec fn ready_at<F: Fn(SessionBackend) -> bool>(
    order: Seq<SessionBackend>,
    is_ready: F,
    found: SessionBackend,
    i: int,
) -> bool {
    &&& 0 <= i < order.len()
    &&& found == order[i]
    &&& call_ensures(is_ready, (order[i],), true)
    &&& forall|j: int| 0 <= j < i ==> call_ensures(is_ready, (#[trigger] order[j],), false)
}

/// Finds the first compositor that is ready, the hinted one before the others.
pub fn detect_ready_backend_from<F: Fn(SessionBackend) -> bool>(
    hinted: SessionBackend,
    is_ready: F,
) -> (r: SessionBackend)
    requires
        forall|b: SessionBackend| call_requires(is_ready, (b,)),
    ensures
        first_ready(probe_order(hinted), is_ready, r),
{
    let order: Vec<SessionBackend> = backend_probe_order(hinted);
    let mut i: usize = 0;
    while i < order.len()
        invariant
            i <= order@.len(),
            order@ == probe_order(hinted),
            forall|b: SessionBackend| call_requires(is_ready, (b,)),
            forall|j: int| 0 <= j < i ==> call_ensures(is_ready, (#[trigger] order@[j],), false),
        decreases order@.len() - i,
    {
        if is_ready(order[i]) {
            assert(ready_at(order@, is_ready, order@[i as int], i as int));
            return order[i];
        }
        i += 1;
    }
    SessionBackend::Unknown
}

/// Which variables of a graphical session are set.
#[derive(Debug, Clone, Copy, PartialEq, Eq, Structural)]
pub struct GuiEnvironment {
    pub xdg_runtime_dir: bool,
    pub wayland_display: bool,
    pub display: bool,
}

/// A graphical session can be reached.
pub open spec fn gui_ready(env: GuiEnvironment) -> bool {
    env.xdg_runtime_dir && (env.wayland_display || env.display)
}

/// Whether a graphical session can be reached.
pub fn gui_session_env_ready(env: &GuiEnvironment) -> (r: bool)
    ensures
        r == gui_ready(*env),
{
    env.xdg_runtime_dir && (env.wayland_display || env.display)
}

/// Refuses an action that needs a graphical session where none can be reached.
pub fn ensure_gui_session_env(action: &str, env: &GuiEnvironment) -> (r: Result<(), String>)
    ensures
        match r {
            Ok(_) => gui_ready(*env),
            Err(e) => {
                &&& !gui_ready(*env)
                &&& e@ == action@
                    + " requires XDG_RUNTIME_DIR and either WAYLAND_DISPLAY or DISPLAY"@
            },
        },
{
    if gui_session_env_ready(env) {
        Ok(())
    } else {
        Err(
            text::concat2(
                action,
                " requires XDG_RUNTIME_DIR and either WAYLAND_DISPLAY or DISPLAY",
            ),
        )
    }
}

/// A program, with its arguments, whose success tells that a compositor is ready.
#[derive(Debug, Clone)]
pub struct ReadinessProbe {
    pub program: String,
    pub args: Vec<String>,
}

/// The program that tells whether a compositor is ready; none where it cannot be.
pub open spec fn probe_program(backend: SessionBackend, env: GuiEnvironment) -> Option<Seq<char>> {
    match backend {
        SessionBackend::Gnome => if gui_ready(env) {
            Some("gdctl"@)
        } else {
            None
        },
        SessionBackend::Kde => if gui_ready(env) {
            Some("kscreen-doctor"@)
        } else {
            None
        },
        SessionBackend::Niri => Some("niri"@),
        SessionBackend::Unknown => None,
    }
}

/// The arguments of that program.
pub open spec fn probe_args(backend: SessionBackend) -> Seq<Seq<char>> {
    match backend {
        SessionBackend::Gnome => seq!["show"@],
        SessionBackend::Kde => seq!["-j"@],
        SessionBackend::Niri => seq!["msg"@, "--json"@, "outputs"@],
        SessionBackend::Unknown => Seq::empty(),
    }
}

/// Decides which program tells whether a compositor is ready.
pub fn readiness_probe(backend: SessionBackend, env: &GuiEnvironment) -> (r: Option<ReadinessProbe>)
    ensures
        match r {
            Some(probe) => {
                &&& probe_program(backend, *env) == Some(probe.program@)
                &&& text::views(probe.args@) == probe_args(backend)
            },
            None => probe_program(backend, *env) is None,
        },
{
    match backend {
        SessionBackend::Gnome => if gui_session_env_ready(env) {
            Some(ReadinessProbe { program: "gdctl".to_string(), args: text::texts(&["show"]) })
        } else {
            None
        },
        SessionBackend::Kde => if gui_session_env_ready(env) {
            Some(
                ReadinessProbe {
                    program: "kscreen-doctor".to_string(),
                    args: text::texts(&["-j"]),
                },
            )
        } else {
            None
        },
        SessionBackend::Niri => Some(
            ReadinessProbe {
                program: "niri".to_string(),
                args: text::texts(&["msg", "--json", "outputs"]),
            },
        ),
        SessionBackend::Unknown => None,
    }
}

/// Whether a compositor is ready, with what its probe came to; nothing where it had none.
pub fn backend_is_ready(outcome: &Option<Result<CommandOutput, String>>) -> (r: bool)
    ensures
        r == (*outcome matches Some(Ok(output)) && output.success),
{
    match outcome {
        Some(Ok(output)) => output.success,
        _ => false,
    }
}

/// How long a compositor is waited for, in milliseconds.
pub const READY_TIMEOUT_MILLIS: u64 = 15_000;

/// How long to wait between two looks for a compositor, in milliseconds.
pub const READY_POLL_MILLIS: u64 = 500;

/// What follows a look for a compositor.
#[derive(Debug, Clone)]
pub enum WaitStep {
    Ready(SessionBackend),
    /// Wait, and look again.
    Wait,
    Failed(String),
}

/// Decides what follows a look for a compositor, made `elapsed_millis` after the first.
pub fn wait_for_ready_backend(found: SessionBackend, elapsed_millis: u64) -> (r: WaitStep)
    ensures
        if found != SessionBackend::Unknown {
            r == WaitStep::Ready(found)
        } else if elapsed_millis < READY_TIMEOUT_MILLIS {
            r is Wait
        } else {
            &&& r matches WaitStep::Failed(e)
            &&& e@ == "No supported session backend became ready before timeout"@
        },
{
    if found != SessionBackend::Unknown {
        WaitStep::Ready(found)
    } else if elapsed_millis < READY_TIMEOUT_MILLIS {
        WaitStep::Wait
    } else {
        WaitStep::Failed("No supported session backend became ready before timeout".to_string())
    }
}

/// Every supported compositor is tried exactly once, and a hinted one first.
pub proof fn law_every_backend_is_probed_once(hinted: SessionBackend, backend: SessionBackend)
    requires
        backend != SessionBackend::Unknown,
    ensures
        exists|i: int|
            {
                &&& 0 <= i < probe_order(hinted).len()
                &&& #[trigger] probe_order(hinted)[i] == backend
                &&& forall|j: int|
                    0 <= j < probe_order(hinted).len() && #[trigger] probe_order(hinted)[j]
                        == backend ==> j == i
            },
        hinted != SessionBackend::Unknown ==> probe_order(hinted)[0] == hinted,
        !probe_order(hinted).contains(SessionBackend::Unknown),
{
    let order = probe_order(hinted);
    assert(order[0] == backend || order[1] == backend || order[2] == backend);
}

/// What is found ready is a supported compositor that was said to be ready; a hinted one that is
/// said to be ready, and never said not to be, wins.
pub proof fn law_ready_hint_wins<F: Fn(SessionBackend) -> bool>(
    hinted: SessionBackend,
    is_ready: F,
    found: SessionBackend,
)
    requires
        hinted != SessionBackend::Unknown,
        !call_ensures(is_ready, (hinted,), false),
        first_ready(probe_order(hinted), is_ready, found),
    ensures
        found == hinted,
{
    let order = probe_order(hinted);
    assert(order[0] == hinted);
    if exists|i: int| #[trigger] ready_at(order, is_ready, found, i) {
        let i = choose|i: int| #[trigger] ready_at(order, is_ready, found, i);
        if i > 0 {
            assert(call_ensures(is_ready, (order[0],), false));
        }
    } else {
        assert(call_ensures(is_ready, (order[0],), false));
    }
}

/// Where nothing is said to be ready, nothing is found.
pub proof fn law_nothing_ready_is_unknown<F: Fn(SessionBackend) -> bool>(
    hinted: SessionBackend,
    is_ready: F,
    found: SessionBackend,
)
    requires
        forall|b: SessionBackend| !call_ensures(is_ready, (b,), true),
        first_ready(probe_order(hinted), is_ready, found),
    ensures
        found == SessionBackend::Unknown,
{
}

/// A compositor is told by the first word that stands in the name of the desktop: GNOME before
/// KDE, and KDE, which is also called Plasma, before niri. A socket of niri counts only where no
/// other is named.
pub proof fn law_desktop_names_its_compositor(
    current: String,
    socket: bool,
    r: SessionBackend,
)
    requires
        call_ensures(detect_backend_from, (current, socket), r),
    ensures
        ({
            let gnome = text::contains_text(current@, "gnome"@);
            let kde = text::contains_text(current@, "plasma"@) || text::contains_text(
                current@,
                "kde"@,
            );
            let niri = text::contains_text(current@, "niri"@) || socket;
            &&& r == SessionBackend::Gnome <==> gnome
            &&& r == SessionBackend::Kde <==> kde && !gnome
            &&& r == SessionBackend::Niri <==> niri && !kde && !gnome
            &&& r == SessionBackend::Unknown <==> !niri && !kde && !gnome
        }),
{
}

/// The desktop is named by the first variable that is set, in lower case.
pub proof fn law_first_variable_names_the_desktop(
    variables: DesktopVariables,
    socket: bool,
    r: SessionBackend,
    named: String,
    of_name: SessionBackend,
)
    requires
        call_ensures(detect_backend, (variables, socket), r),
        named@ == text::lowercase(
            match (
                variables.xdg_current_desktop,
                variables.xdg_session_desktop,
                variables.desktop_session,
            ) {
                (Some(name), _, _) => name@,
                (None, Some(name), _) => name@,
                (None, None, Some(name)) => name@,
                _ => Seq::empty(),
            },
        ),
        call_ensures(detect_backend_from, (named, socket), of_name),
    ensures
        r == of_name,
{
}

/// The session is known by the identifier that the environment gives it.
pub proof fn law_session_has_its_identifier(variable: Option<String>, r: String)
    requires
        call_ensures(detect_session_id, (variable,), r),
    ensures
        variable matches Some(id) ==> r@ == id@,
        variable is None ==> r@ == "unknown-session"@,
{
}

/// Three compositors are tried: the hinted one, and then the others in the order niri, GNOME, KDE.
pub proof fn law_compositors_are_tried_in_order(
    hinted: SessionBackend,
    r: Vec<SessionBackend>,
    i: int,
    j: int,
)
    requires
        call_ensures(backend_probe_order, (hinted,), r),
        0 <= i < r@.len(),
        0 <= j < r@.len(),
    ensures
        r@.len() == 3,
        r@.no_duplicates(),
        !r@.contains(SessionBackend::Unknown),
        hinted != SessionBackend::Unknown ==> r@[0] == hinted,
        r@[i] == SessionBackend::Niri && r@[j] == SessionBackend::Gnome && r@[j] != hinted ==> i < j,
        r@[i] == SessionBackend::Niri && r@[j] == SessionBackend::Kde && r@[j] != hinted ==> i < j,
        r@[i] == SessionBackend::Gnome && r@[j] == SessionBackend::Kde && r@[j] != hinted ==> i < j,
{
}

/// A graphical session can be reached exactly with a runtime directory and a display of one kind
/// or the other; an action that needs it is refused otherwise, by its name.
pub proof fn law_graphical_session_needs_a_display(
    action: &str,
    env: GuiEnvironment,
    r: Result<(), String>,
    ready: bool,
)
    requires
        call_ensures(ensure_gui_session_env, (action, &env), r),
        call_ensures(gui_session_env_ready, (&env,), ready),
    ensures
        ready <==> env.xdg_runtime_dir && (env.wayland_display || env.display),
        r is Ok <==> ready,
        r matches Err(e) ==> e@ == action@
            + " requires XDG_RUNTIME_DIR and either WAYLAND_DISPLAY or DISPLAY"@,
{
}

/// A compositor is probed by its own program: that of GNOME and that of KDE only where a graphical
/// session can be reached, that of niri always.
pub proof fn law_compositors_have_their_probes(
    backend: SessionBackend,
    env: GuiEnvironment,
    r: Option<ReadinessProbe>,
)
    requires
        call_ensures(readiness_probe, (backend, &env), r),
    ensures
        ({
            let reachable = env.xdg_runtime_dir && (env.wayland_display || env.display);
            &&& r is Some <==> backend == SessionBackend::Niri || (reachable && (backend
                == SessionBackend::Gnome || backend == SessionBackend::Kde))
            &&& r matches Some(probe) ==> {
                let args = text::views(probe.args@);
                &&& backend == SessionBackend::Gnome ==> probe.program@ == "gdctl"@ && args == seq![
                    "show"@,
                ]
                &&& backend == SessionBackend::Kde ==> probe.program@ == "kscreen-doctor"@ && args
                    == seq!["-j"@]
                &&& backend == SessionBackend::Niri ==> probe.program@ == "niri"@ && args == seq![
                    "msg"@,
                    "--json"@,
                    "outputs"@,
                ]
            }
        }),
{
}

/// A compositor is ready exactly where its probe ran and succeeded.
pub proof fn law_ready_is_a_successful_probe(
    outcome: Option<Result<CommandOutput, String>>,
    r: bool,
)
    requires
        call_ensures(backend_is_ready, (&outcome,), r),
    ensures
        r <==> outcome is Some && outcome->0 is Ok && outcome->0->Ok_0.success,
{
}

/// A ready compositor ends the wait at once; without one it goes on for fifteen seconds and then
/// fails.
pub proof fn law_compositor_is_waited_for_fifteen_seconds(
    found: SessionBackend,
    elapsed: u64,
    r: WaitStep,
)
    requires
        call_ensures(wait_for_ready_backend, (found, elapsed), r),
    ensures
        r is Ready <==> found != SessionBackend::Unknown,
        r matches WaitStep::Ready(backend) ==> backend == found,
        r is Wait <==> found == SessionBackend::Unknown && elapsed < 15_000,
        r matches WaitStep::Failed(e) ==> e@
            == "No supported session backend became ready before timeout"@,
        READY_POLL_MILLIS == 500,
{
}

/// What is found ready stands in the order of trying, and every one before it was said not to be.
pub proof fn law_first_ready_compositor_is_found<F: Fn(SessionBackend) -> bool>(
    hinted: SessionBackend,
    is_ready: F,
    found: SessionBackend,
    order: Vec<SessionBackend>,
)
    requires
        call_ensures(backend_probe_order, (hinted,), order),
        call_ensures(detect_ready_backend_from::<F>, (hinted, is_ready), found),
    ensures
        found != SessionBackend::Unknown ==> exists|i: int|
            {
                &&& 0 <= i < order@.len()
                &&& #[trigger] order@[i] == found
                &&& call_ensures(is_ready, (found,), true)
                &&& forall|j: int|
                    0 <= j < i ==> call_ensures(is_ready, (#[trigger] order@[j],), false)
            },
        found == SessionBackend::Unknown ==> forall|j: int|
            0 <= j < order@.len() ==> call_ensures(is_ready, (#[trigger] order@[j],), false),
{
    if exists|i: int| #[trigger] ready_at(order@, is_ready, found, i) {
        let i = choose|i: int| #[trigger] ready_at(order@, is_ready, found, i);
        assert(order@[i] == found);
    }
}

/// A socket that the environment names is taken. Otherwise it is the one of niri in the runtime
/// directory that was changed last: no other is newer, and none before it is as new.
pub proof fn law_newest_socket_is_taken(
    named: bool,
    entries: Option<Vec<Option<RuntimeEntry>>>,
    r: Option<NiriSocket>,
    j: int,
)
    requires
        call_ensures(resolve_niri_socket_from, (named, &entries), r),
    ensures
        r == Some(NiriSocket::FromEnvironment) <==> named,
        entries is None && !named ==> r is None,
        r matches Some(NiriSocket::Entry(at)) ==> {
            let list = entries->0@;
            let taken = list[at as int]->0;
            &&& entries is Some
            &&& at < list.len()
            &&& list[at as int] is Some
            &&& taken.name is Some
            &&& text::matches_at(taken.name->0@, "niri."@, 0)
            &&& text::matches_at(
                taken.name->0@,
                ".sock"@,
                taken.name->0@.len() - ".sock"@.len(),
            )
            &&& 0 <= j < list.len() && is_niri_socket(list[j]) ==> {
                &&& changed_at(list[j]) <= changed_at(list[at as int])
                &&& j < at ==> changed_at(list[j]) < changed_at(list[at as int])
            }
        },
{
}

/// An entry counts as a socket of niri by the beginning and the end of its name, and its age is
/// when it was changed, or the epoch where that is not known.
pub proof fn law_sockets_are_known_by_name_and_age(entry: RuntimeEntry)
    ensures
        is_niri_socket(Some(entry)) <==> entry.name is Some && text::matches_at(
            entry.name->0@,
            "niri."@,
            0,
        ) && text::matches_at(
            entry.name->0@,
            ".sock"@,
            entry.name->0@.len() - ".sock"@.len(),
        ),
        !is_niri_socket(None),
        entry.modified matches Some(Some(at)) ==> changed_at(Some(entry)) == at,
        entry.modified == Some(None::<i128>) ==> changed_at(Some(entry)) == 0,
{
}

/// A socket of niri is found exactly where the environment names one, or the runtime directory
/// holds one and every entry of it could be read: its name, and of a socket when it was changed.
pub proof fn law_socket_is_found_where_there_is_one(
    named: bool,
    list: Vec<Option<RuntimeEntry>>,
    r: Option<NiriSocket>,
    j: int,
)
    requires
        call_ensures(resolve_niri_socket_from, (named, &Some(list)), r),
        0 <= j < list@.len(),
    ensures
        is_niri_socket(list@[j]) && r is None ==> exists|k: int|
            #![trigger list@[k]]
            0 <= k < list@.len() && (list@[k] is None || list@[k]->0.name is None
                || list@[k]->0.modified is None),
        r matches Some(NiriSocket::Entry(_)) ==> {
            &&& list@[j] is Some
            &&& list@[j]->0.name is Some
            &&& is_niri_socket(list@[j]) ==> list@[j]->0.modified is Some
        },
        list@[j] is None && !named ==> r is None,
        list@[j] is Some && list@[j]->0.name is None && !named ==> r is None,
        is_niri_socket(list@[j]) && list@[j]->0.modified is None && !named ==> r is None,
{
    let found = Some(list)->0@;
    assert(found == list@);
    assert(readable(list@[j]) || !all_readable(list@));
    if is_niri_socket(list@[j]) && r is None {
        assert(has_niri_socket(list@));
        let k = choose|k: int| 0 <= k < list@.len() && !readable(#[trigger] list@[k]);
        assert(!readable(list@[k]));
    }
}

}
