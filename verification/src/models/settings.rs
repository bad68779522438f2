//! What the user has chosen, and the defaults for what is not recorded.

use vstd::prelude::*;

verus! {

/// A double-precision number, held by its bit pattern: it is carried and written out, and no
/// arithmetic is done on it.
#[derive(Debug, Clone, Copy, PartialEq, Eq, Structural)]
pub struct Real {
    pub bits: u64,
}

/// The bit pattern of 1.67.
pub const DEFAULT_SCALE_BITS: u64 = 0x3ffa_b851_eb85_1eb8;

/// One of the three power profiles.
#[derive(Debug, Clone, Copy, PartialEq, Eq, Structural)]
pub enum PerformanceMode {
    Quiet,
    Balanced,
    Performance,
}

impl Default for PerformanceMode {
    fn default() -> (r: Self)
        ensures
            r == PerformanceMode::Balanced,
    {
        PerformanceMode::Balanced
    }
}

impl PerformanceMode {
    /// The profile's name at the ASUS platform interface.
    pub fn as_asus_profile(&self) -> (r: &'static str)
        ensures
            r@ == (match *self {
                PerformanceMode::Quiet => "quiet"@,
                PerformanceMode::Balanced => "balanced"@,
                PerformanceMode::Performance => "performance"@,
            }),
    {
        match self {
            PerformanceMode::Quiet => "quiet",
            PerformanceMode::Balanced => "balanced",
            PerformanceMode::Performance => "performance",
        }
    }

    /// The energy-performance preference that goes with the profile.
    pub fn epp(&self) -> (r: &'static str)
        ensures
            r@ == (match *self {
                PerformanceMode::Quiet => "power"@,
                PerformanceMode::Balanced => "balance_performance"@,
                PerformanceMode::Performance => "performance"@,
            }),
    {
        match self {
            PerformanceMode::Quiet => "power",
            PerformanceMode::Balanced => "balance_performance",
            PerformanceMode::Performance => "performance",
        }
    }

    /// The profile's name at the power-profiles daemon.
    pub fn powerprofiles_mode(&self) -> (r: &'static str)
        ensures
            r@ == (match *self {
                PerformanceMode::Quiet => "power-saver"@,
                PerformanceMode::Balanced => "balanced"@,
                PerformanceMode::Performance => "performance"@,
            }),
    {
        match self {
            PerformanceMode::Quiet => "power-saver",
            PerformanceMode::Balanced => "balanced",
            PerformanceMode::Performance => "performance",
        }
    }
}

/// The three sustained and peak power limits of a profile, in watts.
#[derive(Debug, Clone, Copy, PartialEq, Eq, Structural)]
pub struct PowerLimits {
    pub pl1_watts: u16,
    pub pl2_watts: u16,
    pub pl3_watts: u16,
}

/// The power limits of each profile.
#[derive(Debug, Clone, Copy, PartialEq, Eq, Structural)]
pub struct PerformanceProfiles {
    pub quiet: PowerLimits,
    pub balanced: PowerLimits,
    pub performance: PowerLimits,
}

/// The power limits that the profiles have until the user changes them.
pub open spec fn default_profiles() -> PerformanceProfiles {
    PerformanceProfiles {
        quiet: PowerLimits { pl1_watts: 12, pl2_watts: 15, pl3_watts: 20 },
        balanced: PowerLimits { pl1_watts: 35, pl2_watts: 45, pl3_watts: 50 },
        performance: PowerLimits { pl1_watts: 45, pl2_watts: 55, pl3_watts: 65 },
    }
}

impl Default for PerformanceProfiles {
    fn default() -> (r: Self)
        ensures
            r == default_profiles(),
    {
        PerformanceProfiles {
            quiet: PowerLimits { pl1_watts: 12, pl2_watts: 15, pl3_watts: 20 },
            balanced: PowerLimits { pl1_watts: 35, pl2_watts: 45, pl3_watts: 50 },
            performance: PowerLimits { pl1_watts: 45, pl2_watts: 55, pl3_watts: 65 },
        }
    }
}

impl PerformanceProfiles {
    /// The limits of one profile.
    pub open spec fn limits_of(self, mode: PerformanceMode) -> PowerLimits {
        match mode {
            PerformanceMode::Quiet => self.quiet,
            PerformanceMode::Balanced => self.balanced,
            PerformanceMode::Performance => self.performance,
        }
    }

    /// The limits of one profile.
    pub fn for_mode(&self, mode: &PerformanceMode) -> (r: &PowerLimits)
        ensures
            *r == self.limits_of(*mode),
    {
        match mode {
            PerformanceMode::Quiet => &self.quiet,
            PerformanceMode::Balanced => &self.balanced,
            PerformanceMode::Performance => &self.performance,
        }
    }
}

/// The appearance of the control panel.
#[derive(Debug, Clone, Copy, PartialEq, Eq, Structural)]
pub enum ThemePreference {
    System,
    Light,
    Dark,
}

impl Default for ThemePreference {
    fn default() -> (r: Self)
        ensures
            r == ThemePreference::System,
    {
        ThemePreference::System
    }
}

/// The settings of the runtime.
#[derive(Debug, Clone)]
pub struct DuoSettings {
    pub default_backlight: u8,
    pub default_scale: Real,
    pub auto_dual_screen: bool,
    pub auto_rotate: bool,
    pub keyboard_backlight_power_save: bool,
    pub auto_quiet_on_battery: bool,
    pub active_performance_mode: PerformanceMode,
    pub performance_profiles: PerformanceProfiles,
    pub sync_brightness: bool,
    /// The brightness that the user last chose, as a percentage, so that it fits both panels'
    /// different raw ranges.
    pub last_display_brightness_percent: Option<u8>,
    pub theme: ThemePreference,
    pub usb_media_remap_enabled: bool,
    pub setup_completed: bool,
    pub touchscreen_disabled: Vec<String>,
    pub charge_limit_percent: u8,
}

/// The settings as a file records them: a field that the file lacks is `None`.
#[derive(Debug, Clone)]
pub struct StoredSettings {
    pub default_backlight: Option<u8>,
    pub default_scale: Option<Real>,
    pub auto_dual_screen: Option<bool>,
    pub auto_rotate: Option<bool>,
    pub keyboard_backlight_power_save: Option<bool>,
    pub auto_quiet_on_battery: Option<bool>,
    pub active_performance_mode: Option<PerformanceMode>,
    pub performance_profiles: Option<PerformanceProfiles>,
    pub sync_brightness: Option<bool>,
    pub last_display_brightness_percent: Option<Option<u8>>,
    pub theme: Option<ThemePreference>,
    pub usb_media_remap_enabled: Option<bool>,
    pub setup_completed: Option<bool>,
    pub touchscreen_disabled: Option<Vec<String>>,
    pub charge_limit_percent: Option<u8>,
}

impl Default for StoredSettings {
    fn default() -> (r: Self)
        ensures
            r.default_backlight is None,
            r.default_scale is None,
            r.auto_dual_screen is None,
            r.auto_rotate is None,
            r.keyboard_backlight_power_save is None,
            r.auto_quiet_on_battery is None,
            r.active_performance_mode is None,
            r.performance_profiles is None,
            r.sync_brightness is None,
            r.last_display_brightness_percent is None,
            r.theme is None,
            r.usb_media_remap_enabled is None,
            r.setup_completed is None,
            r.touchscreen_disabled is None,
            r.charge_limit_percent is None,
    {
        StoredSettings {
            default_backlight: None,
            default_scale: None,
            auto_dual_screen: None,
            auto_rotate: None,
            keyboard_backlight_power_save: None,
            auto_quiet_on_battery: None,
            active_performance_mode: None,
            performance_profiles: None,
            sync_brightness: None,
            last_display_brightness_percent: None,
            theme: None,
            usb_media_remap_enabled: None,
            setup_completed: None,
            touchscreen_disabled: None,
            charge_limit_percent: None,
        }
    }
}

/// The keyboard backlight level until the user changes it.
pub fn default_backlight() -> (r: u8)
    ensures
        r == 3,
{
    3
}

/// The display scale until the user changes it.
pub fn default_scale() -> (r: Real)
    ensures
        r.bits == DEFAULT_SCALE_BITS,
{
    Real { bits: DEFAULT_SCALE_BITS }
}

/// Whether media keys are remapped until the user changes it.
pub fn default_usb_media_remap_enabled() -> (r: bool)
    ensures
        r,
{
    true
}

/// The charge limit until the user changes it.
pub fn default_charge_limit_percent() -> (r: u8)
    ensures
        r == 100,
{
    100
}

impl Default for DuoSettings {
    /// The settings of a machine on which none are recorded.
    fn default() -> (r: Self)
        ensures
            r.is_default(),
    {
        DuoSettings {
            default_backlight: default_backlight(),
            default_scale: default_scale(),
            auto_dual_screen: true,
            auto_rotate: false,
            keyboard_backlight_power_save: false,
            auto_quiet_on_battery: false,
            active_performance_mode: PerformanceMode::Balanced,
            performance_profiles: PerformanceProfiles::default(),
            sync_brightness: true,
            last_display_brightness_percent: None,
            theme: ThemePreference::System,
            usb_media_remap_enabled: default_usb_media_remap_enabled(),
            setup_completed: false,
            touchscreen_disabled: Vec::new(),
            charge_limit_percent: default_charge_limit_percent(),
        }
    }
}

/// The recorded value, or `missing` where none is recorded.
pub open spec fn recorded_or<T>(value: Option<T>, missing: T) -> T {
    match value {
        Some(recorded) => recorded,
        None => missing,
    }
}

impl DuoSettings {
    /// The settings of a machine on which none are recorded.
    pub open spec fn is_default(self) -> bool {
        &&& self.default_backlight == 3
        &&& self.default_scale.bits == DEFAULT_SCALE_BITS
        &&& self.auto_dual_screen
        &&& !self.auto_rotate
        &&& !self.keyboard_backlight_power_save
        &&& !self.auto_quiet_on_battery
        &&& self.active_performance_mode == PerformanceMode::Balanced
        &&& self.performance_profiles == default_profiles()
        &&& self.sync_brightness
        &&& self.last_display_brightness_percent is None
        &&& self.theme == ThemePreference::System
        &&& self.usb_media_remap_enabled
        &&& !self.setup_completed
        &&& self.touchscreen_disabled@.len() == 0
        &&& self.charge_limit_percent == 100
    }

    /// These are the settings that a file records. A field that the file lacks is off, empty or
    /// absent, except the backlight level, the scale, the profile, the profiles' limits, the media
    /// remap and the charge limit, which have a default of their own.
    pub open spec fn are_those_of(self, stored: StoredSettings) -> bool {
        &&& self.default_backlight == recorded_or(stored.default_backlight, 3)
        &&& self.default_scale == recorded_or(
            stored.default_scale,
            (Real { bits: DEFAULT_SCALE_BITS }),
        )
        &&& self.auto_dual_screen == recorded_or(stored.auto_dual_screen, false)
        &&& self.auto_rotate == recorded_or(stored.auto_rotate, false)
        &&& self.keyboard_backlight_power_save == recorded_or(
            stored.keyboard_backlight_power_save,
            false,
        )
        &&& self.auto_quiet_on_battery == recorded_or(stored.auto_quiet_on_battery, false)
        &&& self.active_performance_mode == recorded_or(
            stored.active_performance_mode,
            PerformanceMode::Balanced,
        )
        &&& self.performance_profiles == recorded_or(
            stored.performance_profiles,
            default_profiles(),
        )
        &&& self.sync_brightness == recorded_or(stored.sync_brightness, false)
        &&& self.last_display_brightness_percent == recorded_or(
            stored.last_display_brightness_percent,
            None,
        )
        &&& self.theme == recorded_or(stored.theme, ThemePreference::System)
        &&& self.usb_media_remap_enabled == recorded_or(stored.usb_media_remap_enabled, true)
        &&& self.setup_completed == recorded_or(stored.setup_completed, false)
        &&& match stored.touchscreen_disabled {
            Some(recorded) => self.touchscreen_disabled == recorded,
            None => self.touchscreen_disabled@.len() == 0,
        }
        &&& self.charge_limit_percent == recorded_or(stored.charge_limit_percent, 100)
    }

    /// The settings that a file records.
    pub fn from_stored(stored: StoredSettings) -> (r: DuoSettings)
        ensures
            r.are_those_of(stored),
    {
        DuoSettings {
            default_backlight: stored.default_backlight.unwrap_or(default_backlight()),
            default_scale: stored.default_scale.unwrap_or(default_scale()),
            auto_dual_screen: stored.auto_dual_screen.unwrap_or(false),
            auto_rotate: stored.auto_rotate.unwrap_or(false),
            keyboard_backlight_power_save: stored.keyboard_backlight_power_save.unwrap_or(false),
            auto_quiet_on_battery: stored.auto_quiet_on_battery.unwrap_or(false),
            active_performance_mode: stored.active_performance_mode.unwrap_or(
                PerformanceMode::default(),
            ),
            performance_profiles: stored.performance_profiles.unwrap_or(
                PerformanceProfiles::default(),
            ),
            sync_brightness: stored.sync_brightness.unwrap_or(false),
            last_display_brightness_percent: stored.last_display_brightness_percent.unwrap_or(None),
            theme: stored.theme.unwrap_or(ThemePreference::default()),
            usb_media_remap_enabled: stored.usb_media_remap_enabled.unwrap_or(
                default_usb_media_remap_enabled(),
            ),
            setup_completed: stored.setup_completed.unwrap_or(false),
            touchscreen_disabled: stored.touchscreen_disabled.unwrap_or(Vec::new()),
            charge_limit_percent: stored.charge_limit_percent.unwrap_or(
                default_charge_limit_percent(),
            ),
        }
    }

    /// The record of these settings: every field is recorded.
    pub open spec fn recorded(self) -> StoredSettings {
        StoredSettings {
            default_backlight: Some(self.default_backlight),
            default_scale: Some(self.default_scale),
            auto_dual_screen: Some(self.auto_dual_screen),
            auto_rotate: Some(self.auto_rotate),
            keyboard_backlight_power_save: Some(self.keyboard_backlight_power_save),
            auto_quiet_on_battery: Some(self.auto_quiet_on_battery),
            active_performance_mode: Some(self.active_performance_mode),
            performance_profiles: Some(self.performance_profiles),
            sync_brightness: Some(self.sync_brightness),
            last_display_brightness_percent: Some(self.last_display_brightness_percent),
            theme: Some(self.theme),
            usb_media_remap_enabled: Some(self.usb_media_remap_enabled),
            setup_completed: Some(self.setup_completed),
            touchscreen_disabled: Some(self.touchscreen_disabled),
            charge_limit_percent: Some(self.charge_limit_percent),
        }
    }

    /// The record of these settings.
    pub fn into_stored(self) -> (r: StoredSettings)
        ensures
            r == self.recorded(),
    {
        StoredSettings {
            default_backlight: Some(self.default_backlight),
            default_scale: Some(self.default_scale),
            auto_dual_screen: Some(self.auto_dual_screen),
            auto_rotate: Some(self.auto_rotate),
            keyboard_backlight_power_save: Some(self.keyboard_backlight_power_save),
            auto_quiet_on_battery: Some(self.auto_quiet_on_battery),
            active_performance_mode: Some(self.active_performance_mode),
            performance_profiles: Some(self.performance_profiles),
            sync_brightness: Some(self.sync_brightness),
            last_display_brightness_percent: Some(self.last_display_brightness_percent),
            theme: Some(self.theme),
            usb_media_remap_enabled: Some(self.usb_media_remap_enabled),
            setup_completed: Some(self.setup_completed),
            touchscreen_disabled: Some(self.touchscreen_disabled),
            charge_limit_percent: Some(self.charge_limit_percent),
        }
    }
}

/// Settings that are recorded and read back are the same settings.
pub proof fn law_recorded_settings_read_back(settings: DuoSettings, read: DuoSettings)
    requires
        read.are_those_of(settings.recorded()),
    ensures
        read == settings,
{
}

/// What an older record lacks is harmless: the charge limit is then full, and the rotation, the
/// battery saver and the backlight's power saving are off.
pub proof fn law_older_record_is_harmless(stored: StoredSettings, read: DuoSettings)
    requires
        read.are_those_of(stored),
    ensures
        stored.charge_limit_percent is None ==> read.charge_limit_percent == 100,
        stored.auto_rotate is None ==> !read.auto_rotate,
        stored.keyboard_backlight_power_save is None ==> !read.keyboard_backlight_power_save,
        stored.auto_quiet_on_battery is None ==> !read.auto_quiet_on_battery,
{
}

/// Each profile has its own limits.
pub proof fn law_each_profile_has_its_own_limits(
    profiles: PerformanceProfiles,
    mode: PerformanceMode,
    r: &PowerLimits,
)
    requires
        call_ensures(PerformanceProfiles::for_mode, (&profiles, &mode), r),
    ensures
        mode == PerformanceMode::Quiet ==> *r == profiles.quiet,
        mode == PerformanceMode::Balanced ==> *r == profiles.balanced,
        mode == PerformanceMode::Performance ==> *r == profiles.performance,
{
}

/// Each profile has its own name at each of its three receivers.
pub proof fn law_each_profile_has_its_own_names(
    mode: PerformanceMode,
    asus: &'static str,
    preference: &'static str,
    daemon: &'static str,
)
    requires
        call_ensures(PerformanceMode::as_asus_profile, (&mode,), asus),
        call_ensures(PerformanceMode::epp, (&mode,), preference),
        call_ensures(PerformanceMode::powerprofiles_mode, (&mode,), daemon),
    ensures
        mode == PerformanceMode::Quiet ==> asus@ == "quiet"@ && preference@ == "power"@ && daemon@
            == "power-saver"@,
        mode == PerformanceMode::Balanced ==> asus@ == "balanced"@ && preference@
            == "balance_performance"@ && daemon@ == "balanced"@,
        mode == PerformanceMode::Performance ==> asus@ == "performance"@ && preference@
            == "performance"@ && daemon@ == "performance"@,
{
}

/// What a record holds is read as it is, whatever it is.
pub proof fn law_recorded_settings_are_read_as_they_are(stored: StoredSettings, r: DuoSettings)
    requires
        call_ensures(DuoSettings::from_stored, (stored,), r),
    ensures
        stored.default_backlight matches Some(x) ==> r.default_backlight == x,
        stored.default_scale matches Some(x) ==> r.default_scale == x,
        stored.auto_dual_screen matches Some(x) ==> r.auto_dual_screen == x,
        stored.auto_rotate matches Some(x) ==> r.auto_rotate == x,
        stored.keyboard_backlight_power_save matches Some(x) ==> r.keyboard_backlight_power_save
            == x,
        stored.auto_quiet_on_battery matches Some(x) ==> r.auto_quiet_on_battery == x,
        stored.active_performance_mode matches Some(x) ==> r.active_performance_mode == x,
        stored.performance_profiles matches Some(x) ==> r.performance_profiles == x,
        stored.sync_brightness matches Some(x) ==> r.sync_brightness == x,
        stored.last_display_brightness_percent matches Some(x)
            ==> r.last_display_brightness_percent == x,
        stored.theme matches Some(x) ==> r.theme == x,
        stored.usb_media_remap_enabled matches Some(x) ==> r.usb_media_remap_enabled == x,
        stored.setup_completed matches Some(x) ==> r.setup_completed == x,
        stored.touchscreen_disabled matches Some(x) ==> r.touchscreen_disabled == x,
        stored.charge_limit_percent matches Some(x) ==> r.charge_limit_percent == x,
{
}

/// What a record lacks has its default, whatever the record holds otherwise: the full backlight,
/// a scale of 1.67, the balanced profile, the factory limits, the remap on, the charge limit full,
/// and everything else off or absent.
pub proof fn law_missing_settings_have_their_defaults(
    stored: StoredSettings,
    r: DuoSettings,
    factory: PerformanceProfiles,
)
    requires
        call_ensures(DuoSettings::from_stored, (stored,), r),
        call_ensures(<PerformanceProfiles as Default>::default, (), factory),
    ensures
        stored.default_backlight is None ==> r.default_backlight == 3,
        stored.default_scale is None ==> r.default_scale.bits == 0x3ffa_b851_eb85_1eb8,
        stored.auto_dual_screen is None ==> !r.auto_dual_screen,
        stored.auto_rotate is None ==> !r.auto_rotate,
        stored.keyboard_backlight_power_save is None ==> !r.keyboard_backlight_power_save,
        stored.auto_quiet_on_battery is None ==> !r.auto_quiet_on_battery,
        stored.active_performance_mode is None ==> r.active_performance_mode
            == PerformanceMode::Balanced,
        stored.performance_profiles is None ==> r.performance_profiles == factory,
        stored.sync_brightness is None ==> !r.sync_brightness,
        stored.last_display_brightness_percent is None ==> r.last_display_brightness_percent is None,
        stored.theme is None ==> r.theme == ThemePreference::System,
        stored.usb_media_remap_enabled is None ==> r.usb_media_remap_enabled,
        stored.setup_completed is None ==> !r.setup_completed,
        stored.touchscreen_disabled is None ==> r.touchscreen_disabled@.len() == 0,
        stored.charge_limit_percent is None ==> r.charge_limit_percent == 100,
        factory.quiet == (PowerLimits { pl1_watts: 12, pl2_watts: 15, pl3_watts: 20 }),
        factory.balanced == (PowerLimits { pl1_watts: 35, pl2_watts: 45, pl3_watts: 50 }),
        factory.performance == (PowerLimits { pl1_watts: 45, pl2_watts: 55, pl3_watts: 65 }),
{
}

/// Reading settings undoes recording them.
pub proof fn law_reading_undoes_recording(
    settings: DuoSettings,
    stored: StoredSettings,
    r: DuoSettings,
)
    requires
        call_ensures(DuoSettings::into_stored, (settings,), stored),
        call_ensures(DuoSettings::from_stored, (stored,), r),
    ensures
        r == settings,
{
}

/// A machine without a record has both displays in use and kept in step, the remap on, and every
/// automatic change off.
pub proof fn law_default_settings_change_nothing_by_themselves(r: DuoSettings)
    requires
        call_ensures(<DuoSettings as Default>::default, (), r),
    ensures
        r.default_backlight == 3,
        r.default_scale.bits == 0x3ffa_b851_eb85_1eb8,
        r.auto_dual_screen,
        !r.auto_rotate,
        !r.keyboard_backlight_power_save,
        !r.auto_quiet_on_battery,
        r.active_performance_mode == PerformanceMode::Balanced,
        r.sync_brightness,
        r.last_display_brightness_percent is None,
        r.theme == ThemePreference::System,
        r.usb_media_remap_enabled,
        !r.setup_completed,
        r.touchscreen_disabled@.len() == 0,
        r.charge_limit_percent == 100,
        r.performance_profiles.quiet.pl1_watts == 12,
        r.performance_profiles.balanced.pl1_watts == 35,
        r.performance_profiles.performance.pl1_watts == 45,
{
}

/// The defaults are the full backlight, a scale of 1.67, the remap on and the charge limit full.
pub proof fn law_defaults_have_their_values(backlight: u8, scale: Real, remap: bool, limit: u8)
    requires
        call_ensures(default_backlight, (), backlight),
        call_ensures(default_scale, (), scale),
        call_ensures(default_usb_media_remap_enabled, (), remap),
        call_ensures(default_charge_limit_percent, (), limit),
    ensures
        backlight == 3,
        scale.bits == 0x3ffa_b851_eb85_1eb8,
        remap,
        limit == 100,
{
}

}
