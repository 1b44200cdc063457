//! Shareable content: the options of a content query and the decoding of the
//! batched snapshot the bridge writes.

pub mod snapshot;

use vstd::prelude::*;

verus! {

/// Options for a shareable content query; both start off.
#[derive(Default, Debug, Clone, PartialEq, Eq, Structural)]
pub struct SCShareableContentOptions {
    exclude_desktop_windows: bool,
    on_screen_windows_only: bool,
}

impl SCShareableContentOptions {
    /// Whether desktop-level windows are left out of the result.
    pub closed spec fn excludes_desktop(&self) -> bool {
        self.exclude_desktop_windows
    }

    /// Whether only windows currently on screen are returned.
    pub closed spec fn on_screen_only(&self) -> bool {
        self.on_screen_windows_only
    }

    /// Options with both switches off.
    pub fn new() -> (options: Self)
        ensures
            !options.excludes_desktop(),
            !options.on_screen_only(),
    {
        SCShareableContentOptions { exclude_desktop_windows: false, on_screen_windows_only: false }
    }

    /// Exclude desktop windows from the shareable content.
    pub fn exclude_desktop_windows(self, exclude: bool) -> (options: Self)
        ensures
            options.excludes_desktop() == exclude,
            options.on_screen_only() == self.on_screen_only(),
    {
        let mut s = self;
        s.exclude_desktop_windows = exclude;
        s
    }

    /// Include only on-screen windows in the shareable content.
    pub fn on_screen_windows_only(self, on_screen_only: bool) -> (options: Self)
        ensures
            options.on_screen_only() == on_screen_only,
            options.excludes_desktop() == self.excludes_desktop(),
    {
        let mut s = self;
        s.on_screen_windows_only = on_screen_only;
        s
    }

    /// Options are fixed by their two switches. With the builders' contracts
    /// this gives the builder laws: each builder changes only its own
    /// switch, so setting the two in either order gives equal options, and
    /// of two settings of one switch the last wins.
    pub proof fn lemma_fixed_by_switches(x: Self, y: Self)
        requires
            x.excludes_desktop() == y.excludes_desktop(),
            x.on_screen_only() == y.on_screen_only(),
        ensures
            x == y,
    {
    }

    /// The exclude-desktop switch, as handed to the bridge.
    pub fn is_excluding_desktop_windows(&self) -> (b: bool)
        ensures
            b == self.excludes_desktop(),
    {
        self.exclude_desktop_windows
    }

    /// The on-screen-only switch, as handed to the bridge.
    pub fn is_on_screen_windows_only(&self) -> (b: bool)
        ensures
            b == self.on_screen_only(),
    {
        self.on_screen_windows_only
    }
}

} // verus!
