//! Decoding of the numbers stored in a frame's info attachments.

use vstd::prelude::*;

verus! {

/// The status of a captured video frame.
#[derive(Debug, Clone, Copy, PartialEq, Eq, Structural)]
pub enum SCFrameStatus {
    /// The system generated a new frame.
    Complete,
    /// No new frame: the display did not change.
    Idle,
    /// No new frame: the display is blank.
    Blank,
    /// No new frame: updates are suspended.
    Suspended,
    /// The first frame after the stream started.
    Started,
    /// The frame is in a stopped state.
    Stopped,
}

/// The status with a numeric code, in declaration order from zero.
pub open spec fn status_with_code(code: i64) -> Option<SCFrameStatus> {
    if code == 0 {
        Some(SCFrameStatus::Complete)
    } else if code == 1 {
        Some(SCFrameStatus::Idle)
    } else if code == 2 {
        Some(SCFrameStatus::Blank)
    } else if code == 3 {
        Some(SCFrameStatus::Suspended)
    } else if code == 4 {
        Some(SCFrameStatus::Started)
    } else if code == 5 {
        Some(SCFrameStatus::Stopped)
    } else {
        None
    }
}

impl SCFrameStatus {
    /// The status stored under the status key; `None` for a number that
    /// names no status.
    pub fn from_code(code: i64) -> (s: Option<Self>)
        ensures
            s == status_with_code(code),
    {
        match code {
            0 => Some(SCFrameStatus::Complete),
            1 => Some(SCFrameStatus::Idle),
            2 => Some(SCFrameStatus::Blank),
            3 => Some(SCFrameStatus::Suspended),
            4 => Some(SCFrameStatus::Started),
            5 => Some(SCFrameStatus::Stopped),
            _ => None,
        }
    }
}

/// The display time stored under the display-time key; `None` for a
/// negative number.
pub fn display_time_from(value: i64) -> (t: Option<u64>)
    ensures
        value < 0 ==> t is None,
        value >= 0 ==> t == Some(value as u64),
{
    if value < 0 {
        None
    } else {
        Some(value as u64)
    }
}

/// Apple's frame-status codes number the statuses in their declared order
/// from zero: code `k` names the `k`-th of Complete, Idle, Blank, Suspended,
/// Started and Stopped (so 2 is Blank and 3 is Suspended), and no other
/// number names a status. `from_code` returns exactly this.
pub proof fn lemma_codes_in_declaration_order()
    ensures
        forall|k: int|
            0 <= k < 6 ==> #[trigger] status_with_code(k as i64) == Some(
                seq![
                    SCFrameStatus::Complete,
                    SCFrameStatus::Idle,
                    SCFrameStatus::Blank,
                    SCFrameStatus::Suspended,
                    SCFrameStatus::Started,
                    SCFrameStatus::Stopped,
                ][k],
            ),
        forall|k: i64| (k < 0 || k > 5) ==> #[trigger] status_with_code(k) is None,
{
    let order = seq![
        SCFrameStatus::Complete,
        SCFrameStatus::Idle,
        SCFrameStatus::Blank,
        SCFrameStatus::Suspended,
        SCFrameStatus::Started,
        SCFrameStatus::Stopped,
    ];
    assert(order[0] == SCFrameStatus::Complete && order[1] == SCFrameStatus::Idle && order[2]
        == SCFrameStatus::Blank && order[3] == SCFrameStatus::Suspended && order[4]
        == SCFrameStatus::Started && order[5] == SCFrameStatus::Stopped);
}

} // verus!
