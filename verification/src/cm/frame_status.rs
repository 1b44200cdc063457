//! Frame status for captured screen content, open to codes that later
//! systems may add.

use vstd::prelude::*;

verus! {

/// Frame status for captured screen content.
///
/// Indicates the state of a frame captured by `ScreenCaptureKit`; a code
/// outside Apple's six is kept as `Unknown` so that it survives a round trip.
#[derive(Debug, Clone, Copy, PartialEq, Eq, Hash, Structural)]
pub enum SCFrameStatus {
    /// Frame contains complete content
    Complete,
    /// Frame is idle (no changes)
    Idle,
    /// Frame is blank
    Blank,
    /// Frame is suspended
    Suspended,
    /// Started (first frame)
    Started,
    /// Stopped (last frame)
    Stopped,
    /// A code this crate does not know
    Unknown(i32),
}

/// The status a raw code denotes.
pub open spec fn status_of_code(value: i32) -> SCFrameStatus {
    if value == 0 {
        SCFrameStatus::Complete
    } else if value == 1 {
        SCFrameStatus::Idle
    } else if value == 2 {
        SCFrameStatus::Blank
    } else if value == 3 {
        SCFrameStatus::Suspended
    } else if value == 4 {
        SCFrameStatus::Started
    } else if value == 5 {
        SCFrameStatus::Stopped
    } else {
        SCFrameStatus::Unknown(value)
    }
}

/// The raw code of a status.
pub open spec fn code_of_status(status: SCFrameStatus) -> i32 {
    match status {
        SCFrameStatus::Complete => 0,
        SCFrameStatus::Idle => 1,
        SCFrameStatus::Blank => 2,
        SCFrameStatus::Suspended => 3,
        SCFrameStatus::Started => 4,
        SCFrameStatus::Stopped => 5,
        SCFrameStatus::Unknown(raw) => raw,
    }
}

/// A status in the form `from_raw` produces: `Unknown` only for codes
/// outside 0 to 5.
pub open spec fn is_canonical(status: SCFrameStatus) -> bool {
    match status {
        SCFrameStatus::Unknown(raw) => raw < 0 || raw > 5,
        _ => true,
    }
}

impl Default for SCFrameStatus {
    /// The default status is `Complete`.
    fn default() -> (s: Self)
        ensures
            s == SCFrameStatus::Complete,
    {
        SCFrameStatus::Complete
    }
}

impl SCFrameStatus {
    /// Create from raw i32 value
    pub fn from_raw(value: i32) -> (status: Self)
        ensures
            status == status_of_code(value),
    {
        match value {
            0 => SCFrameStatus::Complete,
            1 => SCFrameStatus::Idle,
            2 => SCFrameStatus::Blank,
            3 => SCFrameStatus::Suspended,
            4 => SCFrameStatus::Started,
            5 => SCFrameStatus::Stopped,
            other => SCFrameStatus::Unknown(other),
        }
    }

    /// The raw code of this status
    pub fn raw(self) -> (value: i32)
        ensures
            value == code_of_status(self),
    {
        match self {
            SCFrameStatus::Complete => 0,
            SCFrameStatus::Idle => 1,
            SCFrameStatus::Blank => 2,
            SCFrameStatus::Suspended => 3,
            SCFrameStatus::Started => 4,
            SCFrameStatus::Stopped => 5,
            SCFrameStatus::Unknown(raw) => raw,
        }
    }

    /// Returns true if the frame contains actual content
    pub fn has_content(self) -> (b: bool)
        ensures
            b == (self == SCFrameStatus::Complete || self == SCFrameStatus::Started),
    {
        match self {
            SCFrameStatus::Complete | SCFrameStatus::Started => true,
            _ => false,
        }
    }

    /// Returns true if the frame is complete
    pub fn is_complete(self) -> (b: bool)
        ensures
            b == (self == SCFrameStatus::Complete),
    {
        match self {
            SCFrameStatus::Complete => true,
            _ => false,
        }
    }
}

/// Decoding a raw code and encoding it again gives back the code, and the
/// decoded status is canonical.
pub proof fn lemma_raw_of_from_raw(value: i32)
    ensures
        code_of_status(status_of_code(value)) == value,
        is_canonical(status_of_code(value)),
{
}

/// Encoding a canonical status and decoding it again gives back the status;
/// `Unknown(0)` to `Unknown(5)` decode to the named statuses instead.
pub proof fn lemma_from_raw_of_raw(status: SCFrameStatus)
    requires
        is_canonical(status),
    ensures
        status_of_code(code_of_status(status)) == status,
{
}

/// Apple's `SCFrameStatus` codes: 0 Complete, 1 Idle, 2 Blank, 3 Suspended,
/// 4 Started, 5 Stopped. `from_raw` decodes each code to its status and
/// keeps every other code as `Unknown`; `raw` gives every status its code
/// back, so decoding and encoding undo each other.
pub proof fn lemma_apple_codes_round_trip()
    ensures
        status_of_code(0) == SCFrameStatus::Complete,
        status_of_code(1) == SCFrameStatus::Idle,
        status_of_code(2) == SCFrameStatus::Blank,
        status_of_code(3) == SCFrameStatus::Suspended,
        status_of_code(4) == SCFrameStatus::Started,
        status_of_code(5) == SCFrameStatus::Stopped,
        forall|k: i32| (k < 0 || k > 5) ==> #[trigger] status_of_code(k) == SCFrameStatus::Unknown(k),
        forall|k: i32| #[trigger] code_of_status(status_of_code(k)) == k,
        forall|s: SCFrameStatus| is_canonical(s) ==> #[trigger] status_of_code(code_of_status(s)) == s,
{
}

} // verus!
