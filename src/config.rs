//! The application's settings: which files to open, the hotkeys, and the
//! size of the main window.

use vstd::prelude::*;
use livesplit_core::HotkeyConfig;

verus! {

#[verifier::external_type_specification]
#[verifier::external_body]
pub struct ExHotkeyConfig(HotkeyConfig);

/// Relies on `HotkeyConfig::default`: the timing library's standard keys.
#[verifier::external_body]
fn default_hotkeys() -> HotkeyConfig {
    HotkeyConfig::default()
}

/// The main window's size when none is configured.
pub fn default_size() -> (r: (u32, u32))
    ensures
        r == (320u32, 240u32),
{
    (320, 240)
}

/// The side of a window after clamping: at least one pixel.
pub open spec fn clamped_side(n: u32) -> u32 {
    if n == 0 {
        1
    } else {
        n
    }
}

/// The application's settings.
pub struct Configuration {
    pub splits_path: Option<String>,
    pub layout_path: Option<String>,
    pub hotkey_config: HotkeyConfig,
    /// Width and height of the main window, in pixels.
    pub size: (u32, u32),
}

impl Default for Configuration {
    fn default() -> (r: Configuration)
        ensures
            r.splits_path is None,
            r.layout_path is None,
            r.size == (320u32, 240u32),
    {
        Configuration {
            splits_path: None,
            layout_path: None,
            hotkey_config: default_hotkeys(),
            size: default_size(),
        }
    }
}

impl Configuration {
    /// Whether the window size has no empty side.
    pub open spec fn wf(&self) -> bool {
        self.size.0 > 0 && self.size.1 > 0
    }

    /// Makes a loaded configuration usable: an empty window side becomes
    /// one pixel wide.
    pub fn validate(&mut self)
        ensures
            final(self).size == (clamped_side(old(self).size.0), clamped_side(old(self).size.1)),
            final(self).splits_path == old(self).splits_path,
            final(self).layout_path == old(self).layout_path,
            final(self).hotkey_config == old(self).hotkey_config,
            final(self).wf(),
    {
        if self.size.0 == 0 {
            self.size.0 = 1;
        }
        if self.size.1 == 0 {
            self.size.1 = 1;
        }
    }

    /// Sets the window width; zero becomes one.
    pub fn set_width(&mut self, width: u32)
        ensures
            final(self).size == (clamped_side(width), old(self).size.1),
            final(self).splits_path == old(self).splits_path,
            final(self).layout_path == old(self).layout_path,
            final(self).hotkey_config == old(self).hotkey_config,
    {
        self.size.0 = if width == 0 { 1 } else { width };
    }

    /// Sets the window height; zero becomes one.
    pub fn set_height(&mut self, height: u32)
        ensures
            final(self).size == (old(self).size.0, clamped_side(height)),
            final(self).splits_path == old(self).splits_path,
            final(self).layout_path == old(self).layout_path,
            final(self).hotkey_config == old(self).hotkey_config,
    {
        self.size.1 = if height == 0 { 1 } else { height };
    }
}

} // verus!
