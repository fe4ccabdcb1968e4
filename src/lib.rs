//! Screen-color trigger: settings, capture geometry, scanline color
//! detection and the per-cycle firing decision, all verified.

pub mod area;
pub mod bot;
pub mod keys;
pub mod scan;
pub mod settings;

pub use area::{capture_rect, compute_area, CaptureError, CaptureRect, Ratio, TriggerArea};
pub use bot::Triggerbot;
pub use scan::{pixel_matches, scan_row, Rgb, ScanReport};
pub use settings::{
    validate, ConfigError, Keycode, MouseButton, Resolution, Settings, TriggerKey, AREA_SCALE,
};
