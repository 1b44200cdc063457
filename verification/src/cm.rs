//! Core Media value types: `CMTime`, `CMSampleTimingInfo` and `SCFrameStatus`.

use vstd::prelude::*;

pub mod frame_status;

verus! {

/// `kCMTimeFlags_Valid`
pub open spec fn flag_valid(flags: u32) -> bool {
    flags & 0x1 != 0
}

/// `kCMTimeFlags_Indefinite`
pub open spec fn flag_indefinite(flags: u32) -> bool {
    flags & 0x2 != 0
}

/// `kCMTimeFlags_PositiveInfinity`
pub open spec fn flag_positive_infinity(flags: u32) -> bool {
    flags & 0x4 != 0
}

/// `kCMTimeFlags_NegativeInfinity`
pub open spec fn flag_negative_infinity(flags: u32) -> bool {
    flags & 0x8 != 0
}

/// `kCMTimeFlags_HasBeenRounded`
pub open spec fn flag_has_been_rounded(flags: u32) -> bool {
    flags & 0x10 != 0
}

/// Frame status for captured screen content.
///
/// Indicates the state of a frame captured by ScreenCaptureKit; the raw
/// values 0 to 5 are Apple's `SCFrameStatus` codes.
#[derive(Debug, Clone, Copy, PartialEq, Eq, Hash, Structural)]
pub enum SCFrameStatus {
    /// Frame contains complete content
    Complete,
    /// Frame is idle (no changes)
    Idle,
    /// Frame is blank
    Blank,
    /// Frame is suspended
    Suspended,
    /// Started (first frame)
    Started,
    /// Stopped (last frame)
    Stopped,
}

/// The status that a raw code denotes, if it is one of Apple's six codes.
pub open spec fn frame_status_of_code(value: i32) -> Option<SCFrameStatus> {
    if value == 0 {
        Some(SCFrameStatus::Complete)
    } else if value == 1 {
        Some(SCFrameStatus::Idle)
    } else if value == 2 {
        Some(SCFrameStatus::Blank)
    } else if value == 3 {
        Some(SCFrameStatus::Suspended)
    } else if value == 4 {
        Some(SCFrameStatus::Started)
    } else if value == 5 {
        Some(SCFrameStatus::Stopped)
    } else {
        None
    }
}

/// The raw code of a status.
pub open spec fn frame_status_code(status: SCFrameStatus) -> i32 {
    match status {
        SCFrameStatus::Complete => 0,
        SCFrameStatus::Idle => 1,
        SCFrameStatus::Blank => 2,
        SCFrameStatus::Suspended => 3,
        SCFrameStatus::Started => 4,
        SCFrameStatus::Stopped => 5,
    }
}

impl SCFrameStatus {
    /// Create from raw i32 value
    pub fn from_raw(value: i32) -> (status: Option<Self>)
        ensures
            status == frame_status_of_code(value),
    {
        match value {
            0 => Some(SCFrameStatus::Complete),
            1 => Some(SCFrameStatus::Idle),
            2 => Some(SCFrameStatus::Blank),
            3 => Some(SCFrameStatus::Suspended),
            4 => Some(SCFrameStatus::Started),
            5 => Some(SCFrameStatus::Stopped),
            _ => None,
        }
    }

    /// Returns true if the frame contains actual content
    pub fn has_content(self) -> (b: bool)
        ensures
            b == (self == SCFrameStatus::Complete || self == SCFrameStatus::Started),
    {
        match self {
            SCFrameStatus::Complete | SCFrameStatus::Started => true,
            _ => false,
        }
    }

    /// Returns true if the frame is complete
    pub fn is_complete(self) -> (b: bool)
        ensures
            b == (self == SCFrameStatus::Complete),
    {
        match self {
            SCFrameStatus::Complete => true,
            _ => false,
        }
    }

    /// The text that `Display` prints for this status.
    pub fn to_display_string(&self) -> (s: &'static str)
        ensures
            s@ == frame_status_name(*self),
    {
        match self {
            SCFrameStatus::Complete => "Complete",
            SCFrameStatus::Idle => "Idle",
            SCFrameStatus::Blank => "Blank",
            SCFrameStatus::Suspended => "Suspended",
            SCFrameStatus::Started => "Started",
            SCFrameStatus::Stopped => "Stopped",
        }
    }
}

/// The name `Display` prints for a status.
pub open spec fn frame_status_name(status: SCFrameStatus) -> Seq<char> {
    match status {
        SCFrameStatus::Complete => "Complete"@,
        SCFrameStatus::Idle => "Idle"@,
        SCFrameStatus::Blank => "Blank"@,
        SCFrameStatus::Suspended => "Suspended"@,
        SCFrameStatus::Started => "Started"@,
        SCFrameStatus::Stopped => "Stopped"@,
    }
}

/// CMTime representation matching Core Media's CMTime.
///
/// Represents a rational time value with a 64-bit numerator and 32-bit
/// denominator (`timescale`), Core Media flag bits and an epoch.
#[derive(Debug, Clone, Copy, PartialEq, Eq, Hash, Structural)]
pub struct CMTime {
    pub value: i64,
    pub timescale: i32,
    pub flags: u32,
    pub epoch: i64,
}

/// Sample timing information: duration, presentation and decode time stamps
/// of one media sample.
#[derive(Debug, Clone, Copy, PartialEq, Eq, Hash, Structural)]
pub struct CMSampleTimingInfo {
    pub duration: CMTime,
    pub presentation_time_stamp: CMTime,
    pub decode_time_stamp: CMTime,
}

/// The time with every field zero: no flag set, so it is invalid.
pub open spec fn invalid_time() -> CMTime {
    CMTime { value: 0, timescale: 0, flags: 0, epoch: 0 }
}

/// Whether a time carries the valid flag.
pub open spec fn time_is_valid(t: CMTime) -> bool {
    flag_valid(t.flags)
}

impl CMTime {
    /// Zero time: value and timescale zero with the valid flag set.
    pub fn zero() -> (t: Self)
        ensures
            t == (CMTime { value: 0, timescale: 0, flags: 1, epoch: 0 }),
    {
        CMTime { value: 0, timescale: 0, flags: 1, epoch: 0 }
    }

    /// Invalid time: every field zero.
    pub fn invalid() -> (t: Self)
        ensures
            t == invalid_time(),
    {
        CMTime { value: 0, timescale: 0, flags: 0, epoch: 0 }
    }

    /// Create a valid time of `value / timescale` seconds.
    pub fn new(value: i64, timescale: i32) -> (t: Self)
        ensures
            t == (CMTime { value, timescale, flags: 1, epoch: 0 }),
    {
        CMTime { value, timescale, flags: 1, epoch: 0 }
    }

    /// Check if the valid flag is set
    pub fn is_valid(&self) -> (b: bool)
        ensures
            b == flag_valid(self.flags),
    {
        self.flags & 0x1 != 0
    }

    /// Check if this time represents zero
    pub fn is_zero(&self) -> (b: bool)
        ensures
            b == (self.value == 0 && flag_valid(self.flags)),
    {
        self.value == 0 && self.is_valid()
    }

    /// Check if this time is indefinite
    pub fn is_indefinite(&self) -> (b: bool)
        ensures
            b == flag_indefinite(self.flags),
    {
        self.flags & 0x2 != 0
    }

    /// Check if this time is positive infinity
    pub fn is_positive_infinity(&self) -> (b: bool)
        ensures
            b == flag_positive_infinity(self.flags),
    {
        self.flags & 0x4 != 0
    }

    /// Check if this time is negative infinity
    pub fn is_negative_infinity(&self) -> (b: bool)
        ensures
            b == flag_negative_infinity(self.flags),
    {
        self.flags & 0x8 != 0
    }

    /// Check if this time has been rounded
    pub fn has_been_rounded(&self) -> (b: bool)
        ensures
            b == flag_has_been_rounded(self.flags),
    {
        self.flags & 0x10 != 0
    }

    /// Compare two times for equality (value and timescale); an invalid time
    /// equals nothing.
    pub fn equals(&self, other: &Self) -> (b: bool)
        ensures
            b == (flag_valid(self.flags) && flag_valid(other.flags) && self.value == other.value
                && self.timescale == other.timescale),
    {
        if !self.is_valid() || !other.is_valid() {
            return false;
        }
        self.value == other.value && self.timescale == other.timescale
    }

    /// Create a time representing positive infinity
    pub fn positive_infinity() -> (t: Self)
        ensures
            t == (CMTime { value: 0, timescale: 0, flags: 0x5, epoch: 0 }),
    {
        CMTime { value: 0, timescale: 0, flags: 0x5, epoch: 0 }
    }

    /// Create a time representing negative infinity
    pub fn negative_infinity() -> (t: Self)
        ensures
            t == (CMTime { value: 0, timescale: 0, flags: 0x9, epoch: 0 }),
    {
        CMTime { value: 0, timescale: 0, flags: 0x9, epoch: 0 }
    }

    /// Create an indefinite time
    pub fn indefinite() -> (t: Self)
        ensures
            t == (CMTime { value: 0, timescale: 0, flags: 0x3, epoch: 0 }),
    {
        CMTime { value: 0, timescale: 0, flags: 0x3, epoch: 0 }
    }
}

impl Default for CMTime {
    /// The default time is the invalid time.
    fn default() -> (t: Self)
        ensures
            t == invalid_time(),
    {
        CMTime::invalid()
    }
}

impl CMSampleTimingInfo {
    /// Create a new timing info with all times set to invalid
    pub fn new() -> (info: Self)
        ensures
            info.duration == invalid_time(),
            info.presentation_time_stamp == invalid_time(),
            info.decode_time_stamp == invalid_time(),
    {
        CMSampleTimingInfo {
            duration: CMTime::invalid(),
            presentation_time_stamp: CMTime::invalid(),
            decode_time_stamp: CMTime::invalid(),
        }
    }

    /// Create timing info with specific values
    pub fn with_times(
        duration: CMTime,
        presentation_time_stamp: CMTime,
        decode_time_stamp: CMTime,
    ) -> (info: Self)
        ensures
            info == (CMSampleTimingInfo { duration, presentation_time_stamp, decode_time_stamp }),
    {
        CMSampleTimingInfo { duration, presentation_time_stamp, decode_time_stamp }
    }

    /// Check if all timing fields are valid
    pub fn is_valid(&self) -> (b: bool)
        ensures
            b == (time_is_valid(self.duration) && time_is_valid(self.presentation_time_stamp)
                && time_is_valid(self.decode_time_stamp)),
    {
        self.duration.is_valid() && self.presentation_time_stamp.is_valid()
            && self.decode_time_stamp.is_valid()
    }

    /// Check if presentation timestamp is valid
    pub fn has_valid_presentation_time(&self) -> (b: bool)
        ensures
            b == time_is_valid(self.presentation_time_stamp),
    {
        self.presentation_time_stamp.is_valid()
    }

    /// Check if decode timestamp is valid
    pub fn has_valid_decode_time(&self) -> (b: bool)
        ensures
            b == time_is_valid(self.decode_time_stamp),
    {
        self.decode_time_stamp.is_valid()
    }

    /// Check if duration is valid
    pub fn has_valid_duration(&self) -> (b: bool)
        ensures
            b == time_is_valid(self.duration),
    {
        self.duration.is_valid()
    }
}

impl Default for CMSampleTimingInfo {
    /// The default timing info has every time invalid.
    fn default() -> (info: Self)
        ensures
            info.duration == invalid_time(),
            info.presentation_time_stamp == invalid_time(),
            info.decode_time_stamp == invalid_time(),
    {
        CMSampleTimingInfo::new()
    }
}

/// A time made by `CMTime::new` is valid, finite, definite and not
/// rounded.
pub proof fn lemma_new_time_is_finite_and_valid(value: i64, timescale: i32)
    ensures
        ({
            let t = CMTime { value, timescale, flags: 1, epoch: 0 };
            &&& time_is_valid(t)
            &&& !flag_indefinite(t.flags)
            &&& !flag_positive_infinity(t.flags)
            &&& !flag_negative_infinity(t.flags)
            &&& !flag_has_been_rounded(t.flags)
        }),
{
    assert(1u32 & 0x1 != 0 && 1u32 & 0x2 == 0 && 1u32 & 0x4 == 0 && 1u32 & 0x8 == 0
        && 1u32 & 0x10 == 0) by (bit_vector);
}

/// The infinities and the indefinite time are valid, each carries exactly
/// its own marker, and none of them is zero.
pub proof fn lemma_special_times_are_distinct()
    ensures
        flag_valid(0x5u32) && flag_positive_infinity(0x5u32) && !flag_negative_infinity(0x5u32)
            && !flag_indefinite(0x5u32),
        flag_valid(0x9u32) && flag_negative_infinity(0x9u32) && !flag_positive_infinity(0x9u32)
            && !flag_indefinite(0x9u32),
        flag_valid(0x3u32) && flag_indefinite(0x3u32) && !flag_positive_infinity(0x3u32)
            && !flag_negative_infinity(0x3u32),
        !flag_valid(0u32),
{
    assert(0x5u32 & 0x1 != 0 && 0x5u32 & 0x4 != 0 && 0x5u32 & 0x8 == 0 && 0x5u32 & 0x2 == 0) by (bit_vector);
    assert(0x9u32 & 0x1 != 0 && 0x9u32 & 0x8 != 0 && 0x9u32 & 0x4 == 0 && 0x9u32 & 0x2 == 0) by (bit_vector);
    assert(0x3u32 & 0x1 != 0 && 0x3u32 & 0x2 != 0 && 0x3u32 & 0x4 == 0 && 0x3u32 & 0x8 == 0) by (bit_vector);
    assert(0u32 & 0x1 == 0) by (bit_vector);
}

/// Presence bit of the frame status in a frame-info field mask.
pub const FRAME_INFO_STATUS: u32 = 1;

/// Presence bit of the display time.
pub const FRAME_INFO_DISPLAY_TIME: u32 = 2;

/// Presence bit of the scale factor.
pub const FRAME_INFO_SCALE_FACTOR: u32 = 4;

/// Presence bit of the content scale.
pub const FRAME_INFO_CONTENT_SCALE: u32 = 8;

/// Presence bit of the content rectangle.
pub const FRAME_INFO_CONTENT_RECT: u32 = 16;

/// Presence bit of the bounding rectangle.
pub const FRAME_INFO_BOUNDING_RECT: u32 = 32;

/// Presence bit of the screen rectangle.
pub const FRAME_INFO_SCREEN_RECT: u32 = 64;

/// Presence bit of the presenter overlay rectangle.
pub const FRAME_INFO_PRESENTER_OVERLAY_RECT: u32 = 128;

/// `value` when `bit` is set in `fields`.
pub open spec fn field_if<T>(fields: u32, bit: u32, value: T) -> Option<T> {
    if fields & bit != 0 {
        Some(value)
    } else {
        None
    }
}

/// Every frame-info attachment of a sample buffer, generic over the scalar
/// type `F` of scales and the rectangle type `R`. A field is `None` when its
/// attachment was missing.
#[derive(Debug, Clone, PartialEq)]
pub struct FrameInfo<F, R> {
    /// Frame completeness / idle state.
    pub frame_status: Option<SCFrameStatus>,
    /// Mach absolute time the frame was composited.
    pub display_time: Option<u64>,
    /// Display scale.
    pub scale_factor: Option<F>,
    /// Capture scale relative to the source content.
    pub content_scale: Option<F>,
    /// Captured content within the frame.
    pub content_rect: Option<R>,
    /// Bounding rect of all captured windows.
    pub bounding_rect: Option<R>,
    /// Full screen rect.
    pub screen_rect: Option<R>,
    /// Presenter Overlay bounding rect.
    pub presenter_overlay_content_rect: Option<R>,
}

/// `value` when `bit` is set in the presence mask `fields`, else `None`.
pub fn frame_info_field<T>(fields: u32, bit: u32, value: T) -> (r: Option<T>)
    ensures
        r == field_if(fields, bit, value),
{
    if fields & bit != 0 {
        Some(value)
    } else {
        None
    }
}

/// A status read as a single attachment: negative codes carry no status.
pub fn sample_frame_status(raw: i32) -> (status: Option<SCFrameStatus>)
    ensures
        raw < 0 ==> status is None,
        raw >= 0 ==> status == frame_status_of_code(raw),
{
    if raw >= 0 {
        SCFrameStatus::from_raw(raw)
    } else {
        None
    }
}

impl<F, R> FrameInfo<F, R> {
    /// Assemble the frame info the bridge read in one call: `None` when the
    /// sample carries no attachments at all, otherwise each value whose bit
    /// is set in `fields`, and the status decoded from its raw code.
    pub fn decode(
        any: bool,
        fields: u32,
        status: i32,
        display_time: u64,
        scale_factor: F,
        content_scale: F,
        content_rect: R,
        bounding_rect: R,
        screen_rect: R,
        presenter_overlay_rect: R,
    ) -> (info: Option<Self>)
        ensures
            !any ==> info is None,
            any ==> info == Some(
                FrameInfo {
                    frame_status: if fields & FRAME_INFO_STATUS != 0 {
                        frame_status_of_code(status)
                    } else {
                        None
                    },
                    display_time: field_if(fields, FRAME_INFO_DISPLAY_TIME, display_time),
                    scale_factor: field_if(fields, FRAME_INFO_SCALE_FACTOR, scale_factor),
                    content_scale: field_if(fields, FRAME_INFO_CONTENT_SCALE, content_scale),
                    content_rect: field_if(fields, FRAME_INFO_CONTENT_RECT, content_rect),
                    bounding_rect: field_if(fields, FRAME_INFO_BOUNDING_RECT, bounding_rect),
                    screen_rect: field_if(fields, FRAME_INFO_SCREEN_RECT, screen_rect),
                    presenter_overlay_content_rect: field_if(
                        fields,
                        FRAME_INFO_PRESENTER_OVERLAY_RECT,
                        presenter_overlay_rect,
                    ),
                },
            ),
    {
        if !any {
            return None;
        }
        let frame_status = if fields & FRAME_INFO_STATUS != 0 {
            SCFrameStatus::from_raw(status)
        } else {
            None
        };
        Some(
            FrameInfo {
                frame_status,
                display_time: frame_info_field(fields, FRAME_INFO_DISPLAY_TIME, display_time),
                scale_factor: frame_info_field(fields, FRAME_INFO_SCALE_FACTOR, scale_factor),
                content_scale: frame_info_field(fields, FRAME_INFO_CONTENT_SCALE, content_scale),
                content_rect: frame_info_field(fields, FRAME_INFO_CONTENT_RECT, content_rect),
                bounding_rect: frame_info_field(fields, FRAME_INFO_BOUNDING_RECT, bounding_rect),
                screen_rect: frame_info_field(fields, FRAME_INFO_SCREEN_RECT, screen_rect),
                presenter_overlay_content_rect: frame_info_field(
                    fields,
                    FRAME_INFO_PRESENTER_OVERLAY_RECT,
                    presenter_overlay_rect,
                ),
            },
        )
    }
}

/// The answer of a Core Media call that fills out-parameters and reports a
/// status: the filled value with status `0`, the status otherwise.
pub fn status_result<T>(status: i32, value: T) -> (r: Result<T, i32>)
    ensures
        status == 0 ==> r == Ok::<T, i32>(value),
        status != 0 ==> r == Err::<T, i32>(status),
{
    if status == 0 {
        Ok(value)
    } else {
        Err(status)
    }
}

/// Apple's `SCFrameStatus` codes are 0 Complete, 1 Idle, 2 Blank,
/// 3 Suspended, 4 Started and 5 Stopped: `from_raw` decodes code `k` to the
/// `k`-th status of that table and every other number to nothing, and the
/// raw code of each status is its place in the table.
pub proof fn lemma_apple_status_codes()
    ensures
        forall|k: int|
            0 <= k < 6 ==> #[trigger] frame_status_of_code(k as i32) == Some(
                seq![
                    SCFrameStatus::Complete,
                    SCFrameStatus::Idle,
                    SCFrameStatus::Blank,
                    SCFrameStatus::Suspended,
                    SCFrameStatus::Started,
                    SCFrameStatus::Stopped,
                ][k],
            ),
        forall|k: i32| (k < 0 || k > 5) ==> #[trigger] frame_status_of_code(k) is None,
        frame_status_code(SCFrameStatus::Complete) == 0,
        frame_status_code(SCFrameStatus::Idle) == 1,
        frame_status_code(SCFrameStatus::Blank) == 2,
        frame_status_code(SCFrameStatus::Suspended) == 3,
        frame_status_code(SCFrameStatus::Started) == 4,
        frame_status_code(SCFrameStatus::Stopped) == 5,
        forall|s: SCFrameStatus| #[trigger] frame_status_of_code(frame_status_code(s)) == Some(s),
{
    let order = seq![
        SCFrameStatus::Complete,
        SCFrameStatus::Idle,
        SCFrameStatus::Blank,
        SCFrameStatus::Suspended,
        SCFrameStatus::Started,
        SCFrameStatus::Stopped,
    ];
    assert(order[0] == SCFrameStatus::Complete && order[1] == SCFrameStatus::Idle && order[2]
        == SCFrameStatus::Blank && order[3] == SCFrameStatus::Suspended && order[4]
        == SCFrameStatus::Started && order[5] == SCFrameStatus::Stopped);
}

/// The flag bits of the special times: positive infinity (flags `0x5`) is
/// valid and positively infinite and nothing else, negative infinity
/// (`0x9`) valid and negatively infinite only, indefinite (`0x3`) valid and
/// indefinite only; a plain time (`0x1`) is valid only, the invalid time
/// (`0`) nothing, and bit `0x10` alone marks a rounded time.
pub proof fn lemma_special_time_flags()
    ensures
        flag_valid(0x5) && flag_positive_infinity(0x5) && !flag_negative_infinity(0x5)
            && !flag_indefinite(0x5) && !flag_has_been_rounded(0x5),
        flag_valid(0x9) && flag_negative_infinity(0x9) && !flag_positive_infinity(0x9)
            && !flag_indefinite(0x9) && !flag_has_been_rounded(0x9),
        flag_valid(0x3) && flag_indefinite(0x3) && !flag_positive_infinity(0x3)
            && !flag_negative_infinity(0x3) && !flag_has_been_rounded(0x3),
        flag_valid(0x1) && !flag_indefinite(0x1) && !flag_positive_infinity(0x1)
            && !flag_negative_infinity(0x1) && !flag_has_been_rounded(0x1),
        !flag_valid(0) && !flag_indefinite(0) && !flag_positive_infinity(0) && !flag_negative_infinity(0)
            && !flag_has_been_rounded(0),
        flag_has_been_rounded(0x10) && !flag_valid(0x10) && !flag_indefinite(0x10)
            && !flag_positive_infinity(0x10) && !flag_negative_infinity(0x10),
{
    assert(0x5u32 & 0x1u32 != 0 && 0x5u32 & 0x4u32 != 0 && 0x5u32 & 0x8u32 == 0 && 0x5u32 & 0x2u32 == 0
        && 0x5u32 & 0x10u32 == 0) by (bit_vector);
    assert(0x9u32 & 0x1u32 != 0 && 0x9u32 & 0x8u32 != 0 && 0x9u32 & 0x4u32 == 0 && 0x9u32 & 0x2u32 == 0
        && 0x9u32 & 0x10u32 == 0) by (bit_vector);
    assert(0x3u32 & 0x1u32 != 0 && 0x3u32 & 0x2u32 != 0 && 0x3u32 & 0x4u32 == 0 && 0x3u32 & 0x8u32 == 0
        && 0x3u32 & 0x10u32 == 0) by (bit_vector);
    assert(0x1u32 & 0x1u32 != 0 && 0x1u32 & 0x2u32 == 0 && 0x1u32 & 0x4u32 == 0 && 0x1u32 & 0x8u32 == 0
        && 0x1u32 & 0x10u32 == 0) by (bit_vector);
    assert(0u32 & 0x1u32 == 0 && 0u32 & 0x2u32 == 0 && 0u32 & 0x4u32 == 0 && 0u32 & 0x8u32 == 0
        && 0u32 & 0x10u32 == 0) by (bit_vector);
    assert(0x10u32 & 0x10u32 != 0 && 0x10u32 & 0x1u32 == 0 && 0x10u32 & 0x2u32 == 0 && 0x10u32 & 0x4u32
        == 0 && 0x10u32 & 0x8u32 == 0) by (bit_vector);
}

/// The bridge marks which frame-info attachments it read with one bit each,
/// in the order status, display time, scale factor, content scale, content
/// rect, bounding rect, screen rect, presenter overlay rect: bits 0 to 7.
/// A mask with only the status bit yields the status and nothing else.
pub proof fn lemma_frame_info_bits<T>(v: T)
    ensures
        FRAME_INFO_STATUS == 1,
        FRAME_INFO_DISPLAY_TIME == 2,
        FRAME_INFO_SCALE_FACTOR == 4,
        FRAME_INFO_CONTENT_SCALE == 8,
        FRAME_INFO_CONTENT_RECT == 16,
        FRAME_INFO_BOUNDING_RECT == 32,
        FRAME_INFO_SCREEN_RECT == 64,
        FRAME_INFO_PRESENTER_OVERLAY_RECT == 128,
        1u32 & FRAME_INFO_STATUS != 0,
        field_if(1, FRAME_INFO_DISPLAY_TIME, v) is None,
        field_if(1, FRAME_INFO_SCALE_FACTOR, v) is None,
        field_if(1, FRAME_INFO_CONTENT_SCALE, v) is None,
        field_if(1, FRAME_INFO_CONTENT_RECT, v) is None,
        field_if(1, FRAME_INFO_BOUNDING_RECT, v) is None,
        field_if(1, FRAME_INFO_SCREEN_RECT, v) is None,
        field_if(1, FRAME_INFO_PRESENTER_OVERLAY_RECT, v) is None,
{
    assert(1u32 & 1u32 != 0 && 1u32 & 2u32 == 0 && 1u32 & 4u32 == 0 && 1u32 & 8u32 == 0 && 1u32 & 16u32 == 0
        && 1u32 & 32u32 == 0 && 1u32 & 64u32 == 0 && 1u32 & 128u32 == 0) by (bit_vector);
}

} // verus!
