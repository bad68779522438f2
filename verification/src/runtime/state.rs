//! The state that the daemon keeps and records.

use vstd::prelude::*;

use crate::clock::Timestamp;
use crate::ipc::SessionBackend;
use crate::models::event::HardwareEvent;
use crate::models::settings::{
    law_recorded_settings_read_back, recorded_or, DuoSettings, PerformanceMode, StoredSettings,
};
use crate::models::status::{unobserved_status, ConnectionType, DuoStatus, Orientation};
use crate::text;

verus! {

/// The session agent that has registered with the daemon.
#[derive(Debug, Clone)]
pub struct SessionAgentState {
    pub connected: bool,
    pub session_id: Option<String>,
    pub backend: Option<SessionBackend>,
    pub socket_path: Option<String>,
}

impl Default for SessionAgentState {
    fn default() -> (r: Self)
        ensures
            !r.connected,
            r.session_id is None,
            r.backend is None,
            r.socket_path is None,
    {
        SessionAgentState { connected: false, session_id: None, backend: None, socket_path: None }
    }
}

/// When the media remap was last started, and when that was last reported.
#[derive(Debug, Clone, Copy, PartialEq, Eq, Structural)]
pub struct UsbMediaRemapReconcileState {
    pub last_started_at: Option<Timestamp>,
    pub last_start_log_at: Option<Timestamp>,
    pub last_backoff_log_at: Option<Timestamp>,
}

impl Default for UsbMediaRemapReconcileState {
    fn default() -> (r: Self)
        ensures
            r == never_started(),
    {
        UsbMediaRemapReconcileState {
            last_started_at: None,
            last_start_log_at: None,
            last_backoff_log_at: None,
        }
    }
}

/// The notification that was shown last.
#[derive(Debug, Clone)]
pub struct RuntimeNotificationState {
    pub key: String,
    pub emitted_at: Timestamp,
}

/// The state of the daemon.
#[derive(Debug, Clone)]
pub struct RuntimeState {
    pub status: DuoStatus,
    pub settings: DuoSettings,
    pub session_agent: SessionAgentState,
    pub usb_media_remap_reconcile: UsbMediaRemapReconcileState,
    /// The performance mode to go back to when an automatic switch to Quiet ends.
    pub battery_saver_restore_mode: Option<PerformanceMode>,
    /// Whether this runtime turned off a lower panel that was on, while the keyboard was
    /// attached. It tells an intended change from a panel that the driver had already lost.
    pub secondary_panel_disabled_by_runtime: bool,
    /// The kernel boot in which that happened. Ownership outlives a restart of the daemon, and
    /// never a reboot.
    pub secondary_panel_disabled_by_runtime_boot_id: Option<String>,
    pub last_runtime_notification: Option<RuntimeNotificationState>,
    pub last_updated: Timestamp,
    pub recent_events: Vec<HardwareEvent>,
}

impl Default for RuntimeState {
    /// The state of a daemon that has recorded none.
    fn default() -> (r: Self)
        ensures
            r.is_fresh(),
    {
        RuntimeState {
            status: DuoStatus::default(),
            settings: DuoSettings::default(),
            session_agent: SessionAgentState::default(),
            usb_media_remap_reconcile: UsbMediaRemapReconcileState::default(),
            battery_saver_restore_mode: None,
            secondary_panel_disabled_by_runtime: false,
            secondary_panel_disabled_by_runtime_boot_id: None,
            last_runtime_notification: None,
            last_updated: Timestamp::now(),
            recent_events: Vec::new(),
        }
    }
}

/// The state as a file records it: a field that a file may lack is `None` where it does.
#[derive(Debug, Clone)]
pub struct StoredState {
    pub status: DuoStatus,
    pub settings: StoredSettings,
    pub session_agent: SessionAgentState,
    pub usb_media_remap_reconcile: Option<UsbMediaRemapReconcileState>,
    pub battery_saver_restore_mode: Option<Option<PerformanceMode>>,
    pub secondary_panel_disabled_by_runtime: Option<bool>,
    pub secondary_panel_disabled_by_runtime_boot_id: Option<Option<String>>,
    pub last_runtime_notification: Option<Option<RuntimeNotificationState>>,
    pub last_updated: Timestamp,
    pub recent_events: Vec<HardwareEvent>,
}

/// The record of a remap that was never started.
pub open spec fn never_started() -> UsbMediaRemapReconcileState {
    UsbMediaRemapReconcileState {
        last_started_at: None,
        last_start_log_at: None,
        last_backoff_log_at: None,
    }
}

/// Two boot identifiers, both known and the same.
pub open spec fn same_boot(a: Option<String>, b: Option<String>) -> bool {
    match (a, b) {
        (Some(x), Some(y)) => x@ == y@,
        _ => false,
    }
}

impl RuntimeState {
    /// The state of a daemon that has recorded none: it counts as changed at the time that the
    /// system clock showed when it was made.
    pub open spec fn is_fresh(self) -> bool {
        &&& self.status == unobserved_status()
        &&& self.settings.is_default()
        &&& !self.session_agent.connected
        &&& self.session_agent.session_id is None
        &&& self.session_agent.backend is None
        &&& self.session_agent.socket_path is None
        &&& self.usb_media_remap_reconcile == never_started()
        &&& self.battery_saver_restore_mode is None
        &&& !self.secondary_panel_disabled_by_runtime
        &&& self.secondary_panel_disabled_by_runtime_boot_id is None
        &&& self.last_runtime_notification is None
        &&& self.last_updated.is_clock_time()
        &&& self.recent_events@.len() == 0
    }

    /// This is the state that a file records. What the file lacks of the remap, the battery saver,
    /// the panel's ownership and the last notification is as in a fresh state.
    pub open spec fn is_that_of(self, stored: StoredState) -> bool {
        &&& self.status == stored.status
        &&& self.settings.are_those_of(stored.settings)
        &&& self.session_agent == stored.session_agent
        &&& self.usb_media_remap_reconcile == recorded_or(
            stored.usb_media_remap_reconcile,
            never_started(),
        )
        &&& self.battery_saver_restore_mode == recorded_or(stored.battery_saver_restore_mode, None)
        &&& self.secondary_panel_disabled_by_runtime == recorded_or(
            stored.secondary_panel_disabled_by_runtime,
            false,
        )
        &&& self.secondary_panel_disabled_by_runtime_boot_id == recorded_or(
            stored.secondary_panel_disabled_by_runtime_boot_id,
            None,
        )
        &&& self.last_runtime_notification == recorded_or(stored.last_runtime_notification, None)
        &&& self.last_updated == stored.last_updated
        &&& self.recent_events == stored.recent_events
    }

    /// The record of this state: every field is recorded.
    pub open spec fn recorded(self) -> StoredState {
        StoredState {
            status: self.status,
            settings: self.settings.recorded(),
            session_agent: self.session_agent,
            usb_media_remap_reconcile: Some(self.usb_media_remap_reconcile),
            battery_saver_restore_mode: Some(self.battery_saver_restore_mode),
            secondary_panel_disabled_by_runtime: Some(self.secondary_panel_disabled_by_runtime),
            secondary_panel_disabled_by_runtime_boot_id: Some(
                self.secondary_panel_disabled_by_runtime_boot_id,
            ),
            last_runtime_notification: Some(self.last_runtime_notification),
            last_updated: self.last_updated,
            recent_events: self.recent_events,
        }
    }

    /// The state with which a daemon starts: the recorded one, or a fresh one where none is
    /// recorded that can be read.
    pub fn load(stored: Option<StoredState>) -> (r: RuntimeState)
        ensures
            match stored {
                Some(stored) => r.is_that_of(stored),
                None => r.is_fresh(),
            },
    {
        match stored {
            Some(stored) => RuntimeState {
                status: stored.status,
                settings: DuoSettings::from_stored(stored.settings),
                session_agent: stored.session_agent,
                usb_media_remap_reconcile: stored.usb_media_remap_reconcile.unwrap_or(
                    UsbMediaRemapReconcileState::default(),
                ),
                battery_saver_restore_mode: stored.battery_saver_restore_mode.unwrap_or(None),
                secondary_panel_disabled_by_runtime:
                    stored.secondary_panel_disabled_by_runtime.unwrap_or(false),
                secondary_panel_disabled_by_runtime_boot_id:
                    stored.secondary_panel_disabled_by_runtime_boot_id.unwrap_or(None),
                last_runtime_notification: stored.last_runtime_notification.unwrap_or(None),
                last_updated: stored.last_updated,
                recent_events: stored.recent_events,
            },
            None => RuntimeState::default(),
        }
    }

    /// The record of this state.
    pub fn save(self) -> (r: StoredState)
        ensures
            r == self.recorded(),
    {
        StoredState {
            status: self.status,
            settings: self.settings.into_stored(),
            session_agent: self.session_agent,
            usb_media_remap_reconcile: Some(self.usb_media_remap_reconcile),
            battery_saver_restore_mode: Some(self.battery_saver_restore_mode),
            secondary_panel_disabled_by_runtime: Some(self.secondary_panel_disabled_by_runtime),
            secondary_panel_disabled_by_runtime_boot_id: Some(
                self.secondary_panel_disabled_by_runtime_boot_id,
            ),
            last_runtime_notification: Some(self.last_runtime_notification),
            last_updated: self.last_updated,
            recent_events: self.recent_events,
        }
    }

    /// The state once a dock mode has been applied in the boot `boot_id`. The runtime owns the
    /// lower panel's being off where the keyboard is attached and the panel was on, or was
    /// already off by the runtime's doing.
    pub open spec fn with_dock_mode_recorded(
        self,
        attached: bool,
        secondary_panel_was_enabled: bool,
        boot_id: Option<String>,
    ) -> RuntimeState {
        let owned = attached && (self.secondary_panel_disabled_by_runtime
            || secondary_panel_was_enabled);
        RuntimeState {
            secondary_panel_disabled_by_runtime: owned,
            secondary_panel_disabled_by_runtime_boot_id: if owned {
                boot_id
            } else {
                None
            },
            ..self
        }
    }

    /// The state as a daemon that starts in the boot `boot_id` takes it over: ownership of
    /// another boot, or of an unknown one, is dropped.
    pub open spec fn with_ownership_validated(self, boot_id: Option<String>) -> RuntimeState {
        if self.secondary_panel_disabled_by_runtime && same_boot(
            self.secondary_panel_disabled_by_runtime_boot_id,
            boot_id,
        ) {
            self
        } else {
            RuntimeState {
                secondary_panel_disabled_by_runtime: false,
                secondary_panel_disabled_by_runtime_boot_id: None,
                ..self
            }
        }
    }

    /// Records that a dock mode was applied in the boot `boot_id`.
    pub fn record_successful_dock_mode(
        &mut self,
        attached: bool,
        secondary_panel_was_enabled: bool,
        boot_id: Option<String>,
    )
        ensures
            *final(self) == old(self).with_dock_mode_recorded(
                attached,
                secondary_panel_was_enabled,
                boot_id,
            ),
    {
        self.secondary_panel_disabled_by_runtime = attached && (
        self.secondary_panel_disabled_by_runtime || secondary_panel_was_enabled);
        self.secondary_panel_disabled_by_runtime_boot_id = if self.secondary_panel_disabled_by_runtime {
            boot_id
        } else {
            None
        };
    }

    /// Drops ownership that is not of the boot `boot_id`.
    pub fn validate_secondary_panel_ownership_for_current_boot(&mut self, boot_id: Option<String>)
        ensures
            *final(self) == old(self).with_ownership_validated(boot_id),
    {
        let same: bool = match (&self.secondary_panel_disabled_by_runtime_boot_id, &boot_id) {
            (Some(recorded), Some(current)) => text::same(recorded.as_str(), current.as_str()),
            _ => false,
        };
        if !(self.secondary_panel_disabled_by_runtime && same) {
            self.secondary_panel_disabled_by_runtime = false;
            self.secondary_panel_disabled_by_runtime_boot_id = None;
        }
    }

    /// Records that the state has changed now.
    pub fn touch(&mut self)
        ensures
            *final(self) == (RuntimeState { last_updated: final(self).last_updated, ..*old(self) }),
            final(self).last_updated.is_clock_time(),
    {
        self.last_updated = Timestamp::now();
    }
}

/// The identifier of the boot, out of the text of `/proc/sys/kernel/random/boot_id`.
pub fn current_boot_id(raw: Option<&str>) -> (r: Option<String>)
    ensures
        match r {
            Some(id) => raw is Some && id@ == text::trimmed(raw->0@) && id@.len() > 0,
            None => raw is None || text::trimmed(raw->0@).len() == 0,
        },
{
    text::nonempty_trimmed(raw)
}

/// A state that is saved and loaded is the same state.
pub proof fn law_saved_state_loads_back(state: RuntimeState, loaded: RuntimeState)
    requires
        loaded.is_that_of(state.recorded()),
    ensures
        loaded == state,
{
    law_recorded_settings_read_back(state.settings, loaded.settings);
}

/// Ownership that was recorded in a boot is still there once the state has been saved and loaded
/// and the daemon has started in the same boot, and is gone once it starts in another.
pub proof fn law_ownership_is_saved_with_its_boot(
    state: RuntimeState,
    secondary_panel_was_enabled: bool,
    boot_id: Option<String>,
    loaded: RuntimeState,
    next_boot_id: Option<String>,
)
    requires
        state.secondary_panel_disabled_by_runtime || secondary_panel_was_enabled,
        loaded.is_that_of(
            state.with_dock_mode_recorded(true, secondary_panel_was_enabled, boot_id).recorded(),
        ),
    ensures
        loaded.with_ownership_validated(next_boot_id).secondary_panel_disabled_by_runtime
            <==> same_boot(boot_id, next_boot_id),
{
    law_saved_state_loads_back(
        state.with_dock_mode_recorded(true, secondary_panel_was_enabled, boot_id),
        loaded,
    );
}

/// Ownership recorded in a boot outlives any number of daemon restarts in that boot.
pub proof fn law_ownership_survives_restart(
    state: RuntimeState,
    attached: bool,
    secondary_panel_was_enabled: bool,
    boot_id: Option<String>,
)
    requires
        boot_id is Some,
    ensures
        ({
            let recorded = state.with_dock_mode_recorded(
                attached,
                secondary_panel_was_enabled,
                boot_id,
            );
            recorded.secondary_panel_disabled_by_runtime ==> recorded.with_ownership_validated(boot_id)
                == recorded
        }),
{
}

/// Ownership never outlives a reboot: in a boot with another identifier, or an unknown one, the
/// runtime owns nothing.
pub proof fn law_ownership_ends_with_the_boot(
    state: RuntimeState,
    attached: bool,
    secondary_panel_was_enabled: bool,
    boot_id: Option<String>,
    next_boot_id: Option<String>,
)
    requires
        !same_boot(boot_id, next_boot_id),
    ensures
        ({
            let taken_over = state.with_dock_mode_recorded(
                attached,
                secondary_panel_was_enabled,
                boot_id,
            ).with_ownership_validated(next_boot_id);
            &&& !taken_over.secondary_panel_disabled_by_runtime
            &&& taken_over.secondary_panel_disabled_by_runtime_boot_id is None
        }),
{
}

/// Once owned, the panel stays owned as long as dock modes are applied with the keyboard
/// attached, and a dock mode applied with it detached ends that.
pub proof fn law_ownership_lasts_while_attached(
    state: RuntimeState,
    secondary_panel_was_enabled: bool,
    boot_id: Option<String>,
)
    ensures
        state.secondary_panel_disabled_by_runtime ==> state.with_dock_mode_recorded(
            true,
            secondary_panel_was_enabled,
            boot_id,
        ).secondary_panel_disabled_by_runtime,
        !state.with_dock_mode_recorded(
            false,
            secondary_panel_was_enabled,
            boot_id,
        ).secondary_panel_disabled_by_runtime,
{
}

/// The runtime never claims a panel that was already off by no doing of its own.
pub proof fn law_lost_panel_is_not_claimed(
    state: RuntimeState,
    attached: bool,
    boot_id: Option<String>,
)
    requires
        !state.secondary_panel_disabled_by_runtime,
    ensures
        !state.with_dock_mode_recorded(
            attached,
            false,
            boot_id,
        ).secondary_panel_disabled_by_runtime,
{
}

/// A panel that is not owned has no recorded boot, after either operation.
pub proof fn law_boot_is_recorded_only_with_ownership(
    state: RuntimeState,
    attached: bool,
    secondary_panel_was_enabled: bool,
    boot_id: Option<String>,
)
    ensures
        ({
            let recorded = state.with_dock_mode_recorded(
                attached,
                secondary_panel_was_enabled,
                boot_id,
            );
            recorded.secondary_panel_disabled_by_runtime_boot_id is Some
                ==> recorded.secondary_panel_disabled_by_runtime
        }),
        ({
            let validated = state.with_ownership_validated(boot_id);
            validated.secondary_panel_disabled_by_runtime_boot_id is Some
                <==> validated.secondary_panel_disabled_by_runtime
        }),
{
}

/// The runtime owns the lower panel's being off exactly where the keyboard is attached and the
/// panel was on, or was owned already. The boot is recorded with it and dropped without it, and
/// nothing else changes.
pub proof fn law_recorded_dock_mode_decides_ownership(
    state: &mut RuntimeState,
    attached: bool,
    panel_was_enabled: bool,
    boot_id: Option<String>,
)
    requires
        call_ensures(
            RuntimeState::record_successful_dock_mode,
            (state, attached, panel_was_enabled, boot_id),
            (),
        ),
    ensures
        final(state).secondary_panel_disabled_by_runtime <==> attached && (panel_was_enabled
            || old(state).secondary_panel_disabled_by_runtime),
        final(state).secondary_panel_disabled_by_runtime_boot_id == (
        if final(state).secondary_panel_disabled_by_runtime {
            boot_id
        } else {
            None
        }),
        *final(state) == (RuntimeState {
            secondary_panel_disabled_by_runtime: final(state).secondary_panel_disabled_by_runtime,
            secondary_panel_disabled_by_runtime_boot_id:
                final(state).secondary_panel_disabled_by_runtime_boot_id,
            ..*old(state)
        }),
{
}

/// A daemon that starts keeps ownership exactly where it was recorded in the same, known boot;
/// otherwise it drops it together with the boot. Nothing else changes.
pub proof fn law_ownership_is_kept_in_its_boot(
    state: &mut RuntimeState,
    boot_id: Option<String>,
)
    requires
        call_ensures(
            RuntimeState::validate_secondary_panel_ownership_for_current_boot,
            (state, boot_id),
            (),
        ),
    ensures
        final(state).secondary_panel_disabled_by_runtime <==> {
            &&& old(state).secondary_panel_disabled_by_runtime
            &&& old(state).secondary_panel_disabled_by_runtime_boot_id is Some
            &&& boot_id is Some
            &&& old(state).secondary_panel_disabled_by_runtime_boot_id->0@ == boot_id->0@
        },
        final(state).secondary_panel_disabled_by_runtime ==> *final(state) == *old(state),
        !final(state).secondary_panel_disabled_by_runtime ==> *final(state) == (RuntimeState {
            secondary_panel_disabled_by_runtime: false,
            secondary_panel_disabled_by_runtime_boot_id: None,
            ..*old(state)
        }),
{
}

/// The identifier of the boot is the text of its file, trimmed, where anything is left of it.
pub proof fn law_boot_is_known_by_its_text(raw: Option<&str>, r: Option<String>)
    requires
        call_ensures(current_boot_id, (raw,), r),
    ensures
        r is Some <==> raw is Some && text::trimmed(raw->0@).len() > 0,
        r matches Some(id) ==> id@ == text::trimmed(raw->0@),
{
}

/// A change is recorded by its time alone.
pub proof fn law_touching_changes_the_time_alone(state: &mut RuntimeState)
    requires
        call_ensures(RuntimeState::touch, (state,), ()),
    ensures
        *final(state) == (RuntimeState {
            last_updated: final(state).last_updated,
            ..*old(state)
        }),
        final(state).last_updated.second() >= 0,
        final(state).last_updated.nanosecond() < 1_000_000_000,
{
}

/// What is saved and loaded again is the same state, field by field.
pub proof fn law_loading_undoes_saving(
    state: RuntimeState,
    stored: StoredState,
    loaded: RuntimeState,
)
    requires
        call_ensures(RuntimeState::save, (state,), stored),
        call_ensures(RuntimeState::load, (Some(stored),), loaded),
    ensures
        loaded == state,
        stored.status == state.status,
        stored.battery_saver_restore_mode == Some(state.battery_saver_restore_mode),
        stored.secondary_panel_disabled_by_runtime == Some(
            state.secondary_panel_disabled_by_runtime,
        ),
        stored.last_updated == state.last_updated,
        stored.recent_events == state.recent_events,
{
    law_saved_state_loads_back(state, loaded);
}

/// Without a record that can be read, the daemon starts with nothing observed, the default
/// settings, no session agent, and nothing owned or remembered.
pub proof fn law_daemon_without_a_record_starts_afresh(r: RuntimeState)
    requires
        call_ensures(RuntimeState::load, (None,), r),
    ensures
        !r.status.keyboard_attached,
        r.status.connection_type == ConnectionType::Disconnected,
        r.status.monitor_count == 0,
        !r.status.wifi_enabled,
        !r.status.bluetooth_enabled,
        r.status.backlight_level == 0,
        !r.status.service_active,
        r.status.orientation == Orientation::Normal,
        r.settings.is_default(),
        !r.session_agent.connected,
        r.session_agent.session_id is None,
        r.session_agent.backend is None,
        r.session_agent.socket_path is None,
        r.usb_media_remap_reconcile.last_started_at is None,
        r.usb_media_remap_reconcile.last_start_log_at is None,
        r.usb_media_remap_reconcile.last_backoff_log_at is None,
        r.battery_saver_restore_mode is None,
        !r.secondary_panel_disabled_by_runtime,
        r.secondary_panel_disabled_by_runtime_boot_id is None,
        r.last_runtime_notification is None,
        r.recent_events@.len() == 0,
{
}

/// What a record holds is loaded as it is, and what it lacks is as in a daemon that starts afresh.
pub proof fn law_recorded_fields_are_loaded(stored: StoredState, r: RuntimeState)
    requires
        call_ensures(RuntimeState::load, (Some(stored),), r),
    ensures
        r.status == stored.status,
        r.session_agent == stored.session_agent,
        r.last_updated == stored.last_updated,
        r.recent_events == stored.recent_events,
        r.settings.are_those_of(stored.settings),
        stored.usb_media_remap_reconcile matches Some(x) ==> r.usb_media_remap_reconcile == x,
        stored.battery_saver_restore_mode matches Some(x) ==> r.battery_saver_restore_mode == x,
        stored.secondary_panel_disabled_by_runtime matches Some(x)
            ==> r.secondary_panel_disabled_by_runtime == x,
        stored.secondary_panel_disabled_by_runtime_boot_id matches Some(x)
            ==> r.secondary_panel_disabled_by_runtime_boot_id == x,
        stored.last_runtime_notification matches Some(x) ==> r.last_runtime_notification == x,
        stored.usb_media_remap_reconcile is None
            ==> r.usb_media_remap_reconcile.last_started_at is None
            && r.usb_media_remap_reconcile.last_start_log_at is None
            && r.usb_media_remap_reconcile.last_backoff_log_at is None,
        stored.battery_saver_restore_mode is None ==> r.battery_saver_restore_mode is None,
        stored.secondary_panel_disabled_by_runtime is None
            ==> !r.secondary_panel_disabled_by_runtime,
        stored.secondary_panel_disabled_by_runtime_boot_id is None
            ==> r.secondary_panel_disabled_by_runtime_boot_id is None,
        stored.last_runtime_notification is None ==> r.last_runtime_notification is None,
{
}

}
