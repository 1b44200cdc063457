//! Runtime-agnostic async machinery: the parked-consumer registry, the lossy
//! bounded sample queue behind `AsyncSCStream`, the event queue behind
//! `AsyncSCRecordingOutput`, and the options of async content queries.

pub mod recording;
pub mod sample_queue;
pub mod stream;
pub mod waiters;

pub use recording::{AsyncSCRecordingOutput, RecordingEvent};
pub use stream::AsyncSCStream;

use vstd::prelude::*;
use vstd::string::StringExecFns;

verus! {

/// Async wrapper for `SCShareableContent`: the entry point of async content
/// queries.
#[derive(Debug, Clone, Copy)]
pub struct AsyncSCShareableContent;

/// Options for async shareable content retrieval
#[derive(Default, Debug, Clone, PartialEq, Eq, Structural)]
pub struct AsyncSCShareableContentOptions {
    exclude_desktop_windows: bool,
    on_screen_windows_only: bool,
}

impl AsyncSCShareableContent {
    /// Create options builder for customizing shareable content retrieval;
    /// both options start off.
    pub fn create() -> (options: AsyncSCShareableContentOptions)
        ensures
            !options.excludes_desktop_windows(),
            !options.only_on_screen_windows(),
    {
        AsyncSCShareableContentOptions { exclude_desktop_windows: false, on_screen_windows_only: false }
    }
}

impl AsyncSCShareableContentOptions {
    /// Whether desktop windows are excluded.
    pub closed spec fn excludes_desktop_windows(&self) -> bool {
        self.exclude_desktop_windows
    }

    /// Whether only on-screen windows are included.
    pub closed spec fn only_on_screen_windows(&self) -> bool {
        self.on_screen_windows_only
    }

    /// Exclude desktop windows from the shareable content
    pub fn with_exclude_desktop_windows(self, exclude: bool) -> (options: Self)
        ensures
            options.excludes_desktop_windows() == exclude,
            options.only_on_screen_windows() == self.only_on_screen_windows(),
    {
        let mut s = self;
        s.exclude_desktop_windows = exclude;
        s
    }

    /// Include only on-screen windows in the shareable content
    pub fn with_on_screen_windows_only(self, on_screen_only: bool) -> (options: Self)
        ensures
            options.only_on_screen_windows() == on_screen_only,
            options.excludes_desktop_windows() == self.excludes_desktop_windows(),
    {
        let mut s = self;
        s.on_screen_windows_only = on_screen_only;
        s
    }

    /// Options are fixed by their two switches. With the builders' contracts
    /// this gives the builder laws: each builder changes only its own
    /// switch, so setting the two in either order gives equal options, and
    /// of two settings of one switch the last wins.
    pub proof fn lemma_fixed_by_switches(x: Self, y: Self)
        requires
            x.excludes_desktop_windows() == y.excludes_desktop_windows(),
            x.only_on_screen_windows() == y.only_on_screen_windows(),
        ensures
            x == y,
    {
    }

    /// The exclude-desktop-windows option, as handed to the content query.
    pub fn exclude_desktop_windows(&self) -> (b: bool)
        ensures
            b == self.excludes_desktop_windows(),
    {
        self.exclude_desktop_windows
    }

    /// The on-screen-windows-only option, as handed to the content query.
    pub fn on_screen_windows_only(&self) -> (b: bool)
        ensures
            b == self.only_on_screen_windows(),
    {
        self.on_screen_windows_only
    }
}

/// How a one-shot completion callback resolves: a reported error wins,
/// then a delivered value; with neither, the error `Unknown error`.
pub fn completion_outcome<T>(error: Option<String>, value: Option<T>) -> (r: Result<T, String>)
    ensures
        error matches Some(e) ==> r == Err::<T, String>(e),
        error is None && value is Some ==> r == Ok::<T, String>(value->0),
        error is None && value is None ==> (r matches Err(m) && m@ == "Unknown error"@),
{
    match error {
        Some(e) => Err(e),
        None => match value {
            Some(v) => Ok(v),
            None => Err(String::from_str("Unknown error")),
        },
    }
}

} // verus!
