//! Content sharing picker: picker modes, the decoding of picker results and
//! the outcome of configuration calls.

use std::sync::atomic::{AtomicBool, Ordering};
use std::sync::Arc;
use vstd::prelude::*;
use vstd::string::StringExecFns;

verus! {

/// The type of content selected in the picker.
#[derive(Debug, Clone, PartialEq, Eq)]
pub enum SCPickedSource {
    /// A window was selected, with its title
    Window(String),
    /// A display was selected, with its ID
    Display(u32),
    /// An application was selected, with its name
    Application(String),
    /// No specific source identified
    Unknown,
}

impl SCPickedSource {
    /// The source of a selection, from the first picked window (and its
    /// title, if it has one), display and application: a window wins over a
    /// display, a display over an application; an untitled window is named
    /// `Untitled`.
    pub fn from_selection(
        first_window: Option<Option<String>>,
        first_display: Option<u32>,
        first_application: Option<String>,
    ) -> (s: Self)
        ensures
            first_window matches Some(Some(t)) ==> (s matches SCPickedSource::Window(w) && w@ == t@),
            first_window matches Some(None) ==> (s matches SCPickedSource::Window(w) && w@ == "Untitled"@),
            first_window is None && first_display is Some ==> s == SCPickedSource::Display(
                first_display->0,
            ),
            first_window is None && first_display is None && first_application is Some ==> (s
                matches SCPickedSource::Application(a) && a@ == first_application->0@),
            first_window is None && first_display is None && first_application is None ==> s
                is Unknown,
    {
        match first_window {
            Some(Some(title)) => SCPickedSource::Window(title),
            Some(None) => SCPickedSource::Window(String::from_str("Untitled")),
            None => match first_display {
                Some(id) => SCPickedSource::Display(id),
                None => match first_application {
                    Some(name) => SCPickedSource::Application(name),
                    None => SCPickedSource::Unknown,
                },
            },
        }
    }
}

/// Picker mode: what content types can be selected.
#[derive(Debug, Clone, Copy, PartialEq, Eq, Hash, Structural)]
pub enum SCContentSharingPickerMode {
    /// Allow selection of a single window
    SingleWindow,
    /// Allow selection of multiple windows
    MultipleWindows,
    /// Allow selection of a single display/screen
    SingleDisplay,
    /// Allow selection of a single application
    SingleApplication,
    /// Allow selection of multiple applications
    MultipleApplications,
}

/// The raw value of a mode as the bridge takes it.
pub open spec fn mode_value(m: SCContentSharingPickerMode) -> i32 {
    match m {
        SCContentSharingPickerMode::SingleWindow => 0,
        SCContentSharingPickerMode::MultipleWindows => 1,
        SCContentSharingPickerMode::SingleDisplay => 2,
        SCContentSharingPickerMode::SingleApplication => 3,
        SCContentSharingPickerMode::MultipleApplications => 4,
    }
}

/// The bit of a mode in the mask the bridge reports.
pub open spec fn mode_bit(m: SCContentSharingPickerMode) -> u64 {
    match m {
        SCContentSharingPickerMode::SingleWindow => 1,
        SCContentSharingPickerMode::MultipleWindows => 2,
        SCContentSharingPickerMode::SingleDisplay => 16,
        SCContentSharingPickerMode::SingleApplication => 4,
        SCContentSharingPickerMode::MultipleApplications => 8,
    }
}

/// The modes in the order the mask is decoded.
pub open spec fn mask_order() -> Seq<SCContentSharingPickerMode> {
    seq![
        SCContentSharingPickerMode::SingleWindow,
        SCContentSharingPickerMode::MultipleWindows,
        SCContentSharingPickerMode::SingleDisplay,
        SCContentSharingPickerMode::SingleApplication,
        SCContentSharingPickerMode::MultipleApplications,
    ]
}

/// The modes whose bits are set in `mask`, in decoding order.
pub open spec fn modes_in_mask(mask: u64) -> Seq<SCContentSharingPickerMode> {
    mask_order().filter(|m: SCContentSharingPickerMode| mask & mode_bit(m) != 0)
}

impl SCContentSharingPickerMode {
    /// The raw value of the mode.
    pub fn raw(self) -> (v: i32)
        ensures
            v == mode_value(self),
    {
        match self {
            SCContentSharingPickerMode::SingleWindow => 0,
            SCContentSharingPickerMode::MultipleWindows => 1,
            SCContentSharingPickerMode::SingleDisplay => 2,
            SCContentSharingPickerMode::SingleApplication => 3,
            SCContentSharingPickerMode::MultipleApplications => 4,
        }
    }

    /// The bit of the mode in an allowed-modes mask.
    pub fn mask_bit(self) -> (b: u64)
        ensures
            b == mode_bit(self),
    {
        match self {
            SCContentSharingPickerMode::SingleWindow => 1,
            SCContentSharingPickerMode::MultipleWindows => 2,
            SCContentSharingPickerMode::SingleDisplay => 16,
            SCContentSharingPickerMode::SingleApplication => 4,
            SCContentSharingPickerMode::MultipleApplications => 8,
        }
    }

    /// The raw values of a list of modes, in order.
    pub fn raw_values(modes: &[SCContentSharingPickerMode]) -> (v: Vec<i32>)
        ensures
            v@ == modes@.map_values(|m: SCContentSharingPickerMode| mode_value(m)),
    {
        let mut v: Vec<i32> = Vec::new();
        let mut i: usize = 0;
        while i < modes.len()
            invariant
                i <= modes@.len(),
                v@ == modes@.take(i as int).map_values(|m: SCContentSharingPickerMode| mode_value(m)),
            decreases modes@.len() - i,
        {
            v.push(modes[i].raw());
            proof {
                assert(modes@.take(i + 1) =~= modes@.take(i as int).push(modes@[i as int]));
            }
            i = i + 1;
        }
        assert(modes@.take(modes@.len() as int) =~= modes@);
        v
    }

    /// The modes allowed by a mask, in the order single window, multiple
    /// windows, single display, single application, multiple applications.
    pub fn from_mask(mask: u64) -> (modes: Vec<SCContentSharingPickerMode>)
        ensures
            modes@ == modes_in_mask(mask),
    {
        let mut modes: Vec<SCContentSharingPickerMode> = Vec::new();
        let order: [SCContentSharingPickerMode; 5] = [
            SCContentSharingPickerMode::SingleWindow,
            SCContentSharingPickerMode::MultipleWindows,
            SCContentSharingPickerMode::SingleDisplay,
            SCContentSharingPickerMode::SingleApplication,
            SCContentSharingPickerMode::MultipleApplications,
        ];
        assert(order@ =~= mask_order());
        let mut i: usize = 0;
        while i < 5
            invariant
                i <= 5,
                order@ == mask_order(),
                modes@ == mask_order().take(i as int).filter(
                    |m: SCContentSharingPickerMode| mask & mode_bit(m) != 0,
                ),
            decreases 5 - i,
        {
            let m = order[i];
            if mask & m.mask_bit() != 0 {
                modes.push(m);
            }
            proof {
                let f = |m: SCContentSharingPickerMode| mask & mode_bit(m) != 0;
                assert(mask_order().take(i + 1).drop_last() =~= mask_order().take(i as int));
                mask_order().take(i as int).lemma_filter_push(m, f);
                assert(mask_order().take(i + 1) =~= mask_order().take(i as int).push(m));
            }
            i = i + 1;
        }
        assert(mask_order().take(5) =~= mask_order());
        modes
    }
}

impl Default for SCContentSharingPickerMode {
    fn default() -> (m: Self)
        ensures
            m == SCContentSharingPickerMode::SingleWindow,
    {
        SCContentSharingPickerMode::SingleWindow
    }
}

/// A mask holding one mode's bit decodes to exactly that mode.
pub proof fn lemma_single_mode_mask_round_trip(m: SCContentSharingPickerMode)
    ensures
        modes_in_mask(mode_bit(m)) == seq![m],
{
    let f = |x: SCContentSharingPickerMode| mode_bit(m) & mode_bit(x) != 0;
    assert(1u64 & 1u64 != 0 && 1u64 & 2u64 == 0 && 1u64 & 16u64 == 0 && 1u64 & 4u64 == 0 && 1u64 & 8u64 == 0) by (bit_vector);
    assert(2u64 & 1u64 == 0 && 2u64 & 2u64 != 0 && 2u64 & 16u64 == 0 && 2u64 & 4u64 == 0 && 2u64 & 8u64 == 0) by (bit_vector);
    assert(16u64 & 1u64 == 0 && 16u64 & 2u64 == 0 && 16u64 & 16u64 != 0 && 16u64 & 4u64 == 0 && 16u64 & 8u64 == 0) by (bit_vector);
    assert(4u64 & 1u64 == 0 && 4u64 & 2u64 == 0 && 4u64 & 16u64 == 0 && 4u64 & 4u64 != 0 && 4u64 & 8u64 == 0) by (bit_vector);
    assert(8u64 & 1u64 == 0 && 8u64 & 2u64 == 0 && 8u64 & 16u64 == 0 && 8u64 & 4u64 == 0 && 8u64 & 8u64 != 0) by (bit_vector);
    let o = mask_order();
    assert(o =~= seq![SCContentSharingPickerMode::SingleWindow].push(SCContentSharingPickerMode::MultipleWindows).push(
        SCContentSharingPickerMode::SingleDisplay).push(SCContentSharingPickerMode::SingleApplication).push(
        SCContentSharingPickerMode::MultipleApplications));
    reveal_with_fuel(Seq::filter, 6);
    assert(modes_in_mask(mode_bit(m)) == o.filter(f));
    assert(o.filter(f) =~= seq![m]);
}

/// How the bridge resolved a picker: picked with a result, cancelled, or
/// failed.
pub open spec fn picker_code_picked(code: i32, has_result: bool) -> bool {
    code == 1 && has_result
}

/// Result of the filter-only picker API.
#[derive(Debug)]
pub enum SCPickerFilterOutcome<F> {
    /// User selected content: the filter to capture it with
    Filter(F),
    /// User cancelled the picker
    Cancelled,
    /// An error occurred
    Error(String),
}

impl<F> SCPickerFilterOutcome<F> {
    /// Decode a picker completion: code 1 with a filter is a pick, code 0 a
    /// cancellation (also how a superseded picker resolves), anything else a
    /// failure.
    pub fn decode(code: i32, filter: Option<F>) -> (o: Self)
        ensures
            picker_code_picked(code, filter is Some) ==> o == SCPickerFilterOutcome::Filter(filter->0),
            code == 0 ==> o is Cancelled,
            code != 0 && !picker_code_picked(code, filter is Some) ==> (o matches SCPickerFilterOutcome::Error(
                m,
            ) && m@ == "Picker failed"@),
    {
        if code == 1 {
            if let Some(f) = filter {
                return SCPickerFilterOutcome::Filter(f);
            }
        }
        if code == 0 {
            SCPickerFilterOutcome::Cancelled
        } else {
            SCPickerFilterOutcome::Error(String::from_str("Picker failed"))
        }
    }
}

/// Result of the main picker API.
#[derive(Debug)]
pub enum SCPickerOutcome<R> {
    /// User selected content: the result with its filter and metadata
    Picked(R),
    /// User cancelled the picker
    Cancelled,
    /// An error occurred
    Error(String),
}

impl<R> SCPickerOutcome<R> {
    /// Decode a picker completion, as [`SCPickerFilterOutcome::decode`] does.
    pub fn decode(code: i32, result: Option<R>) -> (o: Self)
        ensures
            picker_code_picked(code, result is Some) ==> o == SCPickerOutcome::Picked(result->0),
            code == 0 ==> o is Cancelled,
            code != 0 && !picker_code_picked(code, result is Some) ==> (o matches SCPickerOutcome::Error(m)
                && m@ == "Picker failed"@),
    {
        if code == 1 {
            if let Some(r) = result {
                return SCPickerOutcome::Picked(r);
            }
        }
        if code == 0 {
            SCPickerOutcome::Cancelled
        } else {
            SCPickerOutcome::Error(String::from_str("Picker failed"))
        }
    }
}

/// Error returned when applying a picker configuration.
#[derive(Debug, Clone, Copy, PartialEq, Eq, Structural)]
pub enum SCPickerConfigurationError {
    /// The picker API is unavailable on this system.
    Unavailable,
    /// Picker configuration properties must be assigned on the process main
    /// thread.
    MainThreadRequired,
}

impl SCPickerConfigurationError {
    /// The message of the error.
    pub fn message(&self) -> (s: &'static str)
        ensures
            *self is Unavailable ==> s@ == "content sharing picker is unavailable"@,
            *self is MainThreadRequired ==> s@ == "content sharing picker configuration requires the main thread"@,
    {
        match self {
            SCPickerConfigurationError::Unavailable => "content sharing picker is unavailable",
            SCPickerConfigurationError::MainThreadRequired => "content sharing picker configuration requires the main thread",
        }
    }
}

/// System UI for selecting content to share.
#[derive(Debug, Clone, Copy)]
pub struct SCContentSharingPicker;

impl SCContentSharingPicker {
    /// The result of applying a configuration: refused as unavailable when
    /// the picker API is missing, otherwise successful exactly when the
    /// bridge accepted it, which it does only on the main thread.
    pub fn configuration_result(available: bool, accepted: bool) -> (r: Result<(), SCPickerConfigurationError>)
        ensures
            !available ==> r == Err::<(), SCPickerConfigurationError>(SCPickerConfigurationError::Unavailable),
            available && accepted ==> r is Ok,
            available && !accepted ==> r == Err::<(), SCPickerConfigurationError>(
                SCPickerConfigurationError::MainThreadRequired,
            ),
    {
        if !available {
            Err(SCPickerConfigurationError::Unavailable)
        } else if accepted {
            Ok(())
        } else {
            Err(SCPickerConfigurationError::MainThreadRequired)
        }
    }
}

/// Handle of a live repeating-observer registration: its token, and the
/// flag it shares with the observer context, cleared when the context is
/// released.
#[derive(Debug)]
pub struct SCPickerSubscription {
    token: i64,
    active: Arc<AtomicBool>,
}

impl SCPickerSubscription {
    /// The registration token.
    pub closed spec fn token_spec(&self) -> i64 {
        self.token
    }

    /// The handle of a registration with `token` and the shared `active`
    /// flag.
    pub fn new(token: i64, active: Arc<AtomicBool>) -> (s: Self)
        ensures
            s.token_spec() == token,
    {
        SCPickerSubscription { token, active }
    }

    /// A handle that refers to no registration.
    pub fn inactive() -> (s: Self)
        ensures
            s.token_spec() == 0,
    {
        SCPickerSubscription { token: 0, active: Arc::new(AtomicBool::new(false)) }
    }

    /// Opaque identifier of the registration; non-zero when registration
    /// succeeded.
    pub fn token(&self) -> (t: i64)
        ensures
            t == self.token_spec(),
    {
        self.token
    }

    /// Whether this subscription refers to a live registration. The flag is
    /// shared with the observer context, so nothing is stated of it.
    pub fn is_active(&self) -> bool {
        self.active.load(Ordering::Acquire)
    }

    /// The flag shared with the observer context.
    pub closed spec fn flag(&self) -> Arc<AtomicBool> {
        self.active
    }

    /// Remove the observer now. The second component is what the active
    /// flag read (`false` when the handle refers to no registration and the
    /// flag was not read). With a live token and the flag seen set,
    /// `remove_observer` is handed the token and its answer is returned, and
    /// a failed removal marks the subscription inactive; otherwise nothing is
    /// removed. The handle refers to nothing after.
    pub fn unsubscribe<F: FnOnce(i64) -> bool>(&mut self, remove_observer: F) -> (r: (bool, Ghost<bool>))
        requires
            forall|t: i64| call_requires(remove_observer, (t,)),
        ensures
            final(self).token_spec() == 0,
            final(self).flag() == old(self).flag(),
            old(self).token_spec() == 0 ==> !r.0 && !r.1@,
            old(self).token_spec() != 0 && !r.1@ ==> !r.0,
            old(self).token_spec() != 0 && r.1@ ==> call_ensures(
                remove_observer,
                (old(self).token_spec(),),
                r.0,
            ),
    {
        if self.token == 0 {
            return (false, Ghost(false));
        }
        let seen_active = self.is_active();
        if !seen_active {
            self.token = 0;
            return (false, Ghost(false));
        }
        let token = self.token;
        let removed = remove_observer(token);
        self.token = 0;
        if !removed {
            self.active.store(false, Ordering::Release);
        }
        (removed, Ghost(true))
    }

    /// Give up the handle without removing the observer: it stays
    /// registered for the rest of the process, and the shared flag is left
    /// alone.
    pub fn detach(&mut self)
        ensures
            final(self).token_spec() == 0,
            final(self).flag() == old(self).flag(),
    {
        self.token = 0;
    }
}

/// An event delivered to a repeating picker observer. `R` is the picked
/// result, `S` the identity of the stream an event is about.
#[derive(Debug)]
pub enum SCPickerEvent<R, S> {
    /// The user selected (or re-selected) content; `stream` names the
    /// stream being updated, `None` for a new selection.
    Updated { result: R, stream: Option<S> },
    /// The user dismissed the picker.
    Cancelled { stream: Option<S> },
    /// The picker failed to start, with the reason.
    Failed(String),
}

/// The reason given when the picker reports an update without a result.
pub open spec fn update_without_result() -> Seq<char> {
    "picker delivered an update without a result"@
}

/// The reason given when the picker fails to start without a message.
pub open spec fn start_failure() -> Seq<char> {
    "Content sharing picker failed to start"@
}

impl<R, S> SCPickerEvent<R, S> {
    /// Decode an observer callback: code 1 is an update, which needs a
    /// result; code 0 a cancellation; any other code a start failure with
    /// the framework's message, or a fixed one when it gave none.
    pub fn decode(event: i32, result: Option<R>, message: Option<String>, stream: Option<S>) -> (e: Self)
        ensures
            event == 1 && result is Some ==> e == (SCPickerEvent::<R, S>::Updated { result: result->0, stream }),
            event == 1 && result is None ==> (e matches SCPickerEvent::Failed(m) && m@ == update_without_result()),
            event == 0 ==> e == (SCPickerEvent::<R, S>::Cancelled { stream }),
            event != 0 && event != 1 && message is Some ==> (e matches SCPickerEvent::Failed(m) && m@
                == message->0@),
            event != 0 && event != 1 && message is None ==> (e matches SCPickerEvent::Failed(m) && m@
                == start_failure()),
    {
        if event == 1 {
            match result {
                Some(r) => SCPickerEvent::Updated { result: r, stream },
                None => SCPickerEvent::Failed(String::from_str("picker delivered an update without a result")),
            }
        } else if event == 0 {
            SCPickerEvent::Cancelled { stream }
        } else {
            match message {
                Some(m) => SCPickerEvent::Failed(m),
                None => SCPickerEvent::Failed(String::from_str("Content sharing picker failed to start")),
            }
        }
    }
}

/// Whether an observer event is delivered: only to a registered observer
/// context that is still active; a late event after the context was
/// released, or one in flight while unsubscribing, is dropped.
pub fn observer_delivers(found: bool, active: bool) -> (b: bool)
    ensures
        b == (found && active),
{
    found && active
}

/// The framework's picker-mode constants. The raw value handed to the bridge
/// is the mode's place in the declaration SingleWindow, MultipleWindows,
/// SingleDisplay, SingleApplication, MultipleApplications (0 to 4); the
/// mask bits are SingleWindow 1, MultipleWindows 2, SingleApplication 4,
/// MultipleApplications 8, SingleDisplay 16. So a mask with bit 2 alone
/// allows multiple windows, and one with bit 8 alone multiple applications.
pub proof fn lemma_framework_mode_constants()
    ensures
        mode_value(SCContentSharingPickerMode::SingleWindow) == 0,
        mode_value(SCContentSharingPickerMode::MultipleWindows) == 1,
        mode_value(SCContentSharingPickerMode::SingleDisplay) == 2,
        mode_value(SCContentSharingPickerMode::SingleApplication) == 3,
        mode_value(SCContentSharingPickerMode::MultipleApplications) == 4,
        mode_bit(SCContentSharingPickerMode::SingleWindow) == 1,
        mode_bit(SCContentSharingPickerMode::MultipleWindows) == 2,
        mode_bit(SCContentSharingPickerMode::SingleApplication) == 4,
        mode_bit(SCContentSharingPickerMode::MultipleApplications) == 8,
        mode_bit(SCContentSharingPickerMode::SingleDisplay) == 16,
        modes_in_mask(1) == seq![SCContentSharingPickerMode::SingleWindow],
        modes_in_mask(2) == seq![SCContentSharingPickerMode::MultipleWindows],
        modes_in_mask(4) == seq![SCContentSharingPickerMode::SingleApplication],
        modes_in_mask(8) == seq![SCContentSharingPickerMode::MultipleApplications],
        modes_in_mask(16) == seq![SCContentSharingPickerMode::SingleDisplay],
{
    lemma_single_mode_mask_round_trip(SCContentSharingPickerMode::SingleWindow);
    lemma_single_mode_mask_round_trip(SCContentSharingPickerMode::MultipleWindows);
    lemma_single_mode_mask_round_trip(SCContentSharingPickerMode::SingleApplication);
    lemma_single_mode_mask_round_trip(SCContentSharingPickerMode::MultipleApplications);
    lemma_single_mode_mask_round_trip(SCContentSharingPickerMode::SingleDisplay);
}

/// The bridge reports a pick as code 1 with a result; code 0 is a
/// cancellation, and any other code, or code 1 without a result, a failure.
pub proof fn lemma_pick_codes(code: i32, has_result: bool)
    ensures
        picker_code_picked(code, has_result) <==> (code == 1 && has_result),
        !picker_code_picked(0, has_result),
        picker_code_picked(1, true),
        !picker_code_picked(1, false),
{
}

} // verus!
