use vstd::prelude::*;
use crate::area::{
    area_of_valid, capture_rect, compute_area, geometry_in_range, is_area_of,
    lemma_capture_of_derived_area, scale_trunc, trunc_div, CaptureError, CaptureRect, TriggerArea,
};
use crate::keys::{display_name, label_of, selectable_keys, selectable_keys_vec};
use crate::scan::{scan_row, straddles, Rgb};
use crate::settings::{
    config_error, config_error_of, is_default_spec, settings_valid, ConfigError, Keycode,
    MouseButton, Resolution, Settings, TriggerKey, AREA_SCALE,
};

verus! {

/// Whether `k` is held, given the keys and buttons pressed right now.
pub open spec fn key_held(k: TriggerKey, keys: Seq<Keycode>, buttons: Seq<MouseButton>) -> bool {
    match k {
        TriggerKey::Keyboard(c) => keys.contains(c),
        TriggerKey::Mouse(b) => buttons.contains(b),
    }
}

/// The activation condition: always open, or some trigger key held.
pub open spec fn active_spec(s: &Settings, keys: Seq<Keycode>, buttons: Seq<MouseButton>) -> bool {
    s.always_open || exists|i: int|
        0 <= i < s.trigger_keys@.len() && #[trigger] key_held(s.trigger_keys@[i], keys, buttons)
}

/// The firing rule: enabled, activated, a straddling match, and the pause
/// after the previous fire over.
pub open spec fn fires_spec(bot: &Triggerbot, active: bool, hit: bool, now_ms: u64) -> bool {
    bot.enabled && (active || bot.settings.always_open) && hit && now_ms >= bot.ready_at
}

/// When the trigger may fire again after firing at `now_ms`.
pub open spec fn next_ready(now_ms: u64, delay: u64) -> u64 {
    if now_ms + delay > u64::MAX {
        u64::MAX
    } else {
        (now_ms + delay) as u64
    }
}

/// The trigger: its settings, the scan region derived from them, the user's
/// on/off switch, and the time from which it may fire again.
pub struct Triggerbot {
    pub enabled: bool,
    pub trigger_area: TriggerArea,
    pub settings: Settings,
    /// Earliest time, in milliseconds of the caller's clock, at which the
    /// trigger may fire again.
    pub ready_at: u64,
}

impl Triggerbot {
    /// The settings are valid and the scan region is derived from them.
    pub open spec fn wf(&self) -> bool {
        &&& settings_valid(&self.settings)
        &&& is_area_of(
            self.trigger_area,
            self.settings.resolution.width as int,
            self.settings.resolution.height as int,
            self.settings.trigger_area as int,
        )
    }

    /// A disabled trigger with the baseline settings.
    pub fn default() -> (r: Self)
        ensures
            r.wf(),
            is_default_spec(&r.settings),
            !r.enabled,
            r.ready_at == 0,
    {
        let settings = Settings::default();
        let trigger_area = area_of_valid(&settings);
        Triggerbot { enabled: false, trigger_area, settings, ready_at: 0 }
    }

    /// Puts the baseline settings back and derives the region anew.
    pub fn reset_settings(&mut self)
        ensures
            final(self).wf(),
            is_default_spec(&final(self).settings),
            final(self).enabled == old(self).enabled,
            final(self).ready_at == old(self).ready_at,
    {
        self.settings = Settings::default();
        self.trigger_area = area_of_valid(&self.settings);
    }

    /// Whether the settings are the baseline ones.
    pub fn is_default_settings(&self) -> (r: bool)
        ensures
            r == is_default_spec(&self.settings),
    {
        let d = Settings::default();
        let r = self.settings == d;
        assert(r ==> self.settings.target_color@ =~= d.target_color@);
        r
    }

    /// Replaces the resolution and derives the region anew; on an error
    /// nothing changes.
    pub fn set_resolution(&mut self, width: u32, height: u32) -> (r: Result<(), ConfigError>)
        ensures
            r matches Err(e) ==> Some(e) == config_error_of(
                Resolution { width, height },
                old(self).settings.trigger_area,
                old(self).settings.color_tolerance,
            ) && *final(self) == *old(self),
            r is Ok <==> config_error_of(
                Resolution { width, height },
                old(self).settings.trigger_area,
                old(self).settings.color_tolerance,
            ) is None,
            r is Ok ==> {
                &&& final(self).wf()
                &&& final(self).settings.resolution == (Resolution { width, height })
                &&& final(self).settings.trigger_keys == old(self).settings.trigger_keys
                &&& final(self).settings.trigger_delay == old(self).settings.trigger_delay
                &&& final(self).settings.trigger_area == old(self).settings.trigger_area
                &&& final(self).settings.target_color == old(self).settings.target_color
                &&& final(self).settings.color_tolerance == old(self).settings.color_tolerance
                &&& final(self).settings.always_open == old(self).settings.always_open
                &&& final(self).enabled == old(self).enabled
                &&& final(self).ready_at == old(self).ready_at
            },
    {
        let old_res = self.settings.resolution;
        self.settings.resolution = Resolution { width, height };
        match self.update_trigger_area() {
            Ok(()) => Ok(()),
            Err(e) => {
                self.settings.resolution = old_res;
                Err(e)
            },
        }
    }

    /// Derives the scan region from the current settings; on an error
    /// nothing changes.
    pub fn update_trigger_area(&mut self) -> (r: Result<(), ConfigError>)
        ensures
            r is Ok <==> settings_valid(&old(self).settings),
            r matches Err(e) ==> config_error(&old(self).settings) == Some(e) && *final(self)
                == *old(self),
            r is Ok ==> final(self).wf(),
            final(self).settings == old(self).settings,
            final(self).enabled == old(self).enabled,
            final(self).ready_at == old(self).ready_at,
    {
        match compute_area(&self.settings) {
            Ok(area) => {
                self.trigger_area = area;
                Ok(())
            },
            Err(e) => Err(e),
        }
    }

    /// Whether the activation condition holds, given the keys and buttons
    /// pressed right now.
    pub fn trigger_active(&self, pressed_keys: &Vec<Keycode>, pressed_buttons: &Vec<MouseButton>) -> (r: bool)
        ensures
            r == active_spec(&self.settings, pressed_keys@, pressed_buttons@),
    {
        if self.settings.always_open {
            return true;
        }
        let keys = &self.settings.trigger_keys;
        let mut i: usize = 0;
        while i < keys.len()
            invariant
                i <= keys@.len(),
                keys@ == self.settings.trigger_keys@,
                forall|j: int|
                    0 <= j < i ==> !#[trigger] key_held(keys@[j], pressed_keys@, pressed_buttons@),
            decreases keys@.len() - i,
        {
            let held = match keys[i] {
                TriggerKey::Keyboard(c) => contains_keycode(pressed_keys, c),
                TriggerKey::Mouse(b) => contains_button(pressed_buttons, b),
            };
            if held {
                assert(key_held(keys@[i as int], pressed_keys@, pressed_buttons@));
                return true;
            }
            i += 1;
        }
        false
    }

    /// The pixel rectangle to capture for this cycle: the scanline through
    /// the region, at the configured resolution.
    pub fn capture_region(&self) -> (r: Result<CaptureRect, CaptureError>)
        ensures
            r is Ok <==> geometry_in_range(self.trigger_area, self.settings.resolution),
            r matches Ok(c) ==> {
                &&& c.x == scale_trunc(
                    self.trigger_area.x_percent,
                    self.settings.resolution.width as int,
                )
                &&& c.y == scale_trunc(
                    self.trigger_area.y_percent,
                    self.settings.resolution.height as int,
                )
                &&& c.width == scale_trunc(
                    self.trigger_area.width_percent,
                    self.settings.resolution.width as int,
                )
                &&& c.height == 1
            },
            self.wf() ==> r is Ok,
            r matches Ok(c) ==> (self.wf() ==> {
                &&& c.x == trunc_div(
                    self.settings.resolution.width * AREA_SCALE - self.settings.trigger_area,
                    2 * AREA_SCALE,
                )
                &&& c.y == trunc_div(
                    self.settings.resolution.height * AREA_SCALE - self.settings.trigger_area,
                    2 * AREA_SCALE,
                )
                &&& c.width == self.settings.trigger_area / AREA_SCALE
            }),
    {
        proof {
            if self.wf() {
                lemma_capture_of_derived_area(
                    self.trigger_area,
                    self.settings.resolution.width as int,
                    self.settings.resolution.height as int,
                    self.settings.trigger_area as int,
                );
            }
        }
        capture_rect(&self.trigger_area, self.settings.resolution)
    }

    /// Whether the captured row holds the target color straddling its center.
    pub fn should_trigger(&self, row: &Vec<Rgb>) -> (r: bool)
        ensures
            r == straddles(row@, self.settings.target_color, self.settings.color_tolerance as int),
    {
        scan_row(row, self.settings.target_color, self.settings.color_tolerance).triggered()
    }

    /// Whether this cycle calls for a capture: all but the scan already
    /// allows a fire.
    pub fn wants_capture(&self, active: bool, now_ms: u64) -> (r: bool)
        ensures
            r == fires_spec(self, active, true, now_ms),
    {
        self.enabled && (active || self.settings.always_open) && now_ms >= self.ready_at
    }

    /// Decides whether to fire this cycle. On a fire the trigger stays
    /// silent until `trigger_delay` milliseconds have passed.
    pub fn tick(&mut self, active: bool, hit: bool, now_ms: u64) -> (fired: bool)
        ensures
            fired == fires_spec(old(self), active, hit, now_ms),
            fired ==> final(self).ready_at == next_ready(now_ms, old(self).settings.trigger_delay),
            !fired ==> final(self).ready_at == old(self).ready_at,
            final(self).enabled == old(self).enabled,
            final(self).settings == old(self).settings,
            final(self).trigger_area == old(self).trigger_area,
    {
        let fired = self.enabled && (active || self.settings.always_open) && hit && now_ms
            >= self.ready_at;
        if fired {
            self.ready_at = now_ms.saturating_add(self.settings.trigger_delay);
        }
        fired
    }

    /// One cycle: the activation condition from the pressed keys and
    /// buttons, the scan of the captured row, then the firing decision.
    pub fn triggerbot(
        &mut self,
        pressed_keys: &Vec<Keycode>,
        pressed_buttons: &Vec<MouseButton>,
        row: &Vec<Rgb>,
        now_ms: u64,
    ) -> (fired: bool)
        ensures
            fired == fires_spec(
                old(self),
                active_spec(&old(self).settings, pressed_keys@, pressed_buttons@),
                straddles(
                    row@,
                    old(self).settings.target_color,
                    old(self).settings.color_tolerance as int,
                ),
                now_ms,
            ),
            fired ==> final(self).ready_at == next_ready(now_ms, old(self).settings.trigger_delay),
            !fired ==> final(self).ready_at == old(self).ready_at,
            final(self).enabled == old(self).enabled,
            final(self).settings == old(self).settings,
            final(self).trigger_area == old(self).trigger_area,
    {
        let active = self.trigger_active(pressed_keys, pressed_buttons);
        let hit = self.should_trigger(row);
        self.tick(active, hit, now_ms)
    }

    /// The keys and buttons that can be chosen as activation keys.
    pub fn get_keys(&self) -> (r: Vec<TriggerKey>)
        ensures
            r@ == selectable_keys(),
    {
        selectable_keys_vec()
    }

    /// The label shown for a key or button.
    pub fn get_keys_display_name(&self, trigger: &TriggerKey) -> (r: String)
        ensures
            r@ == display_name(*trigger),
    {
        label_of(trigger)
    }
}

/// With `always_open` set, the activation condition holds whatever keys and
/// buttons are pressed, so an enabled trigger out of its pause fires on a
/// straddling match.
pub proof fn lemma_always_open_ignores_keys(
    bot: &Triggerbot,
    keys: Seq<Keycode>,
    buttons: Seq<MouseButton>,
    hit: bool,
    now_ms: u64,
)
    requires
        bot.settings.always_open,
        bot.enabled,
        hit,
        now_ms >= bot.ready_at,
    ensures
        active_spec(&bot.settings, keys, buttons),
        fires_spec(bot, active_spec(&bot.settings, keys, buttons), hit, now_ms),
{
}

/// A disabled trigger never fires, whatever the activation and the scan.
pub proof fn lemma_disabled_never_fires(bot: &Triggerbot, active: bool, hit: bool, now_ms: u64)
    requires
        !bot.enabled,
    ensures
        !fires_spec(bot, active, hit, now_ms),
{
}

/// Until the pause after a fire is over, the trigger does not fire again.
pub proof fn lemma_silent_during_pause(bot: &Triggerbot, active: bool, hit: bool, now_ms: u64)
    requires
        now_ms < bot.ready_at,
    ensures
        !fires_spec(bot, active, hit, now_ms),
{
}

fn contains_keycode(v: &Vec<Keycode>, k: Keycode) -> (r: bool)
    ensures
        r == v@.contains(k),
{
    let mut i: usize = 0;
    while i < v.len()
        invariant
            i <= v@.len(),
            forall|j: int| 0 <= j < i ==> v@[j] != k,
        decreases v@.len() - i,
    {
        if v[i] == k {
            return true;
        }
        i += 1;
    }
    false
}

fn contains_button(v: &Vec<MouseButton>, b: MouseButton) -> (r: bool)
    ensures
        r == v@.contains(b),
{
    let mut i: usize = 0;
    while i < v.len()
        invariant
            i <= v@.len(),
            forall|j: int| 0 <= j < i ==> v@[j] != b,
        decreases v@.len() - i,
    {
        if v[i] == b {
            return true;
        }
        i += 1;
    }
    false
}

} // verus!
