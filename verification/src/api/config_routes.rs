//! Non-sensitive runtime configuration exposed to the frontend.

use vstd::prelude::*;

use crate::config::AppSettings;

verus! {

/// What `GET /api/config` answers.
#[derive(Debug, Clone, PartialEq, Eq)]
pub struct ClientConfig {
    /// Number of taps/clicks required to delete a box.
    pub delete_tap_count: u8,
    /// Default canvas width (informational), as the configured number's text.
    pub default_canvas_width: String,
    /// Default canvas height (informational), as the configured number's text.
    pub default_canvas_height: String,
    /// When true, the frontend should show a dedicated "Manage" tab for adding boxes
    /// and editing boards instead of the toolbar controls.
    pub separate_add_tab: bool,
}

/// `GET /api/config`: the client-relevant runtime settings.
pub fn get_config(settings: &AppSettings) -> (c: ClientConfig)
    ensures
        c.delete_tap_count == settings.delete_tap_count,
        c.default_canvas_width == settings.default_canvas_width,
        c.default_canvas_height == settings.default_canvas_height,
        c.separate_add_tab == settings.separate_add_tab,
{
    ClientConfig {
        delete_tap_count: settings.delete_tap_count,
        default_canvas_width: settings.default_canvas_width.clone(),
        default_canvas_height: settings.default_canvas_height.clone(),
        separate_add_tab: settings.separate_add_tab,
    }
}

} // verus!
