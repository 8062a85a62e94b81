//! How a window is to be built.

use vstd::prelude::*;
use vstd::string::*;

verus! {

/// The title of every window.
pub const WINDOW_TITLE: &'static str = "OpenCami";

/// The width of a new window's content area, in logical pixels.
pub const WINDOW_WIDTH: u32 = 1200;

/// The height of a new window's content area, in logical pixels.
pub const WINDOW_HEIGHT: u32 = 800;

/// The least width a window's content area can be resized to.
pub const WINDOW_MIN_WIDTH: u32 = 800;

/// The least height a window's content area can be resized to.
pub const WINDOW_MIN_HEIGHT: u32 = 600;

/// What the host needs to build a window.
#[derive(Debug, PartialEq, Eq)]
pub struct WindowConfig {
    pub label: String,
    pub url: String,
    pub title: String,
    pub width: u32,
    pub height: u32,
    pub min_width: u32,
    pub min_height: u32,
    pub resizable: bool,
    pub centered: bool,
}

/// A `WindowConfig` as a mathematical value.
pub struct WindowPlan {
    pub label: Seq<char>,
    pub url: Seq<char>,
    pub title: Seq<char>,
    pub width: int,
    pub height: int,
    pub min_width: int,
    pub min_height: int,
    pub resizable: bool,
    pub centered: bool,
}

impl View for WindowConfig {
    type V = WindowPlan;

    open spec fn view(&self) -> WindowPlan {
        WindowPlan {
            label: self.label@,
            url: self.url@,
            title: self.title@,
            width: self.width as int,
            height: self.height as int,
            min_width: self.min_width as int,
            min_height: self.min_height as int,
            resizable: self.resizable,
            centered: self.centered,
        }
    }
}

/// The one sizing policy of all windows, for the window `label` at `url`:
/// 1200 by 800, no smaller than 800 by 600, resizable, centered.
pub open spec fn plan_of(label: Seq<char>, url: Seq<char>) -> WindowPlan {
    WindowPlan {
        label,
        url,
        title: WINDOW_TITLE@,
        width: 1200,
        height: 800,
        min_width: 800,
        min_height: 600,
        resizable: true,
        centered: true,
    }
}

/// The configuration of the window `label` at `url`.
pub fn window_config(label: &str, url: &str) -> (config: WindowConfig)
    ensures
        config@ == plan_of(label@, url@),
{
    WindowConfig {
        label: label.to_owned(),
        url: url.to_owned(),
        title: WINDOW_TITLE.to_owned(),
        width: WINDOW_WIDTH,
        height: WINDOW_HEIGHT,
        min_width: WINDOW_MIN_WIDTH,
        min_height: WINDOW_MIN_HEIGHT,
        resizable: true,
        centered: true,
    }
}

} // verus!
