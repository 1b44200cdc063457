//! Decoding of the batched shareable-content snapshot.
//!
//! The bridge fills one scratch buffer per category with packed records and
//! reports how many it wrote; strings live in a shared byte pool and records
//! refer to them by offset and length. The bridge truncates silently at the
//! buffer caps (`count = min(actual, cap)`), so a saturated count is reported
//! as possible truncation rather than swallowed.

use std::collections::HashMap;
use vstd::prelude::*;
use vstd::slice::slice_subrange;
use vstd::string::StringSliceAdditionalSpecFns;
use vstd::utf8::{decode_utf8, encode_utf8_decode_utf8, valid_utf8};

verus! {

broadcast use vstd::std_specs::hash::group_hash_axioms;

/// Capacity, in entries, of the display scratch buffer.
pub const MAX_DISPLAYS: usize = 64;

/// Capacity, in entries, of the window scratch buffer.
pub const MAX_WINDOWS: usize = 4096;

/// Capacity, in entries, of the application scratch buffer.
pub const MAX_APPS: usize = 1024;

/// Capacity, in bytes, of the shared string pool.
pub const STRING_POOL_BYTES: usize = 262144;

/// Which categories of a snapshot may have been cut short by the buffer caps.
///
/// A flag is set when the bridge returned exactly as many entries as the
/// buffer could hold: the real list is at least that long and may be longer.
#[derive(Debug, Default, Clone, Copy, PartialEq, Eq, Structural)]
pub struct SnapshotTruncation {
    /// The display list saturated its cap.
    pub displays: bool,
    /// The window list saturated its cap.
    pub windows: bool,
    /// The application list saturated its cap.
    pub applications: bool,
}

impl SnapshotTruncation {
    /// Whether any category may have been truncated.
    pub fn any(self) -> (b: bool)
        ensures
            b == (self.displays || self.windows || self.applications),
    {
        self.displays || self.windows || self.applications
    }
}

/// Plain data describing one running application.
#[derive(Debug, Clone, PartialEq, Eq)]
pub struct ApplicationSnapshot {
    pub process_id: i32,
    pub bundle_identifier: String,
    pub application_name: String,
}

/// One application record as the bridge packs it: strings are ranges of the
/// shared pool.
#[derive(Debug, Clone, Copy, PartialEq, Eq, Structural)]
pub struct PackedApplication {
    pub process_id: i32,
    pub bundle_id_offset: u32,
    pub bundle_id_length: u32,
    pub app_name_offset: u32,
    pub app_name_length: u32,
}

/// One window record as the bridge packs it, without its frame.
#[derive(Debug, Clone, Copy, PartialEq, Eq, Structural)]
pub struct PackedWindow {
    pub window_id: u32,
    pub window_layer: i32,
    pub is_on_screen: bool,
    pub is_active: bool,
    pub title_offset: u32,
    pub title_length: u32,
    pub owning_app_process_id: i32,
}

/// The decoded data of one window, without its frame.
#[derive(Debug, Clone, PartialEq, Eq)]
pub struct WindowRecord {
    pub window_id: u32,
    pub window_layer: i32,
    pub is_on_screen: bool,
    pub is_active: bool,
    /// The title, or `None` when the window has none or it is unreadable.
    pub title: Option<String>,
    /// Index of the owning application in the same snapshot, if it is there.
    pub owning_app_index: Option<usize>,
}

/// The bytes `[offset, offset + length)` of the pool, when they lie inside it.
pub open spec fn pool_range(pool: Seq<u8>, offset: u32, length: u32) -> Option<Seq<u8>> {
    if offset + length <= pool.len() {
        Some(pool.subrange(offset as int, offset + length))
    } else {
        None
    }
}

/// The bytes of the range when it lies inside the pool and is valid UTF-8.
pub open spec fn pool_utf8(pool: Seq<u8>, offset: u32, length: u32) -> Option<Seq<u8>> {
    match pool_range(pool, offset, length) {
        Some(b) => if valid_utf8(b) {
            Some(b)
        } else {
            None
        },
        None => None,
    }
}

/// The text stored in the range, or the empty text when it is unreadable.
pub open spec fn pool_text(pool: Seq<u8>, offset: u32, length: u32) -> Seq<char> {
    match pool_utf8(pool, offset, length) {
        Some(b) => decode_utf8(b),
        None => Seq::empty(),
    }
}

/// A window title: absent for an empty range and for an unreadable or empty
/// text.
pub open spec fn title_text(pool: Seq<u8>, offset: u32, length: u32) -> Option<Seq<char>> {
    if length == 0 || pool_text(pool, offset, length).len() == 0 {
        None
    } else {
        Some(pool_text(pool, offset, length))
    }
}

/// The view of an optional owned string.
pub open spec fn optional_text(s: Option<String>) -> Option<Seq<char>> {
    match s {
        Some(t) => Some(t@),
        None => None,
    }
}

/// The number of entries a batch call yields, and whether the list may have
/// been truncated.
pub open spec fn batch_outcome(written: isize, cap: usize) -> (usize, bool) {
    if written <= 0 {
        (0, false)
    } else {
        let count = if written < cap { written as usize } else { cap };
        (count, count == cap)
    }
}

/// The process ids of a list of applications, in order.
pub open spec fn process_ids(apps: Seq<ApplicationSnapshot>) -> Seq<i32> {
    apps.map_values(|a: ApplicationSnapshot| a.process_id)
}

/// The last position of `pid` in `pids`: with duplicate ids, the later
/// application wins.
pub open spec fn last_index_of(pids: Seq<i32>, pid: i32) -> Option<int>
    decreases pids.len(),
{
    if pids.len() == 0 {
        None
    } else if pids.last() == pid {
        Some(pids.len() - 1)
    } else {
        last_index_of(pids.drop_last(), pid)
    }
}

/// `last_index_of` as an optional `usize`.
pub open spec fn owner_index(pids: Seq<i32>, pid: i32) -> Option<usize> {
    match last_index_of(pids, pid) {
        Some(i) => Some(i as usize),
        None => None,
    }
}

/// `a` is the decoding of the packed record `p` against `pool`.
pub open spec fn decodes_application(a: ApplicationSnapshot, p: PackedApplication, pool: Seq<u8>) -> bool {
    &&& a.process_id == p.process_id
    &&& a.bundle_identifier@ == pool_text(pool, p.bundle_id_offset, p.bundle_id_length)
    &&& a.application_name@ == pool_text(pool, p.app_name_offset, p.app_name_length)
}

/// `w` is the decoding of the packed record `p` against `pool`, with owners
/// looked up among `pids`.
pub open spec fn decodes_window(w: WindowRecord, p: PackedWindow, pool: Seq<u8>, pids: Seq<i32>) -> bool {
    &&& w.window_id == p.window_id
    &&& w.window_layer == p.window_layer
    &&& w.is_on_screen == p.is_on_screen
    &&& w.is_active == p.is_active
    &&& optional_text(w.title) == title_text(pool, p.title_offset, p.title_length)
    &&& w.owning_app_index == owner_index(pids, p.owning_app_process_id)
}

/// `std::str::from_utf8`: the bytes as a string slice when they are valid
/// UTF-8, `None` otherwise. The slice holds exactly the given bytes.
#[verifier::external_body]
fn utf8_str(bytes: &[u8]) -> (s: Option<&str>)
    ensures
        s is Some <==> valid_utf8(bytes@),
        s matches Some(t) ==> t.spec_bytes() == bytes@,
{
    std::str::from_utf8(bytes).ok()
}

/// Count and truncation flag of a batch call that reported `written` entries
/// into a buffer of `cap` entries.
pub fn batch_count(written: isize, cap: usize) -> (r: (usize, bool))
    ensures
        r == batch_outcome(written, cap),
        r.0 <= cap,
{
    if written <= 0 {
        return (0, false);
    }
    let count: usize = if (written as usize) < cap {
        written as usize
    } else {
        cap
    };
    (count, count == cap)
}

/// Bytes of the pool a batch call reported as written, clamped to the pool.
pub fn pool_used(strings_used: isize) -> (used: usize)
    ensures
        strings_used <= 0 ==> used == 0,
        0 < strings_used < STRING_POOL_BYTES ==> used == strings_used,
        strings_used >= STRING_POOL_BYTES ==> used == STRING_POOL_BYTES,
{
    if strings_used <= 0 {
        0
    } else if (strings_used as usize) < STRING_POOL_BYTES {
        strings_used as usize
    } else {
        STRING_POOL_BYTES
    }
}

/// Zero-copy view of a string in the pool: `None` when the range
/// `[offset, offset + length)` leaves the pool or its bytes are not UTF-8.
pub fn read_str(pool: &[u8], offset: u32, length: u32) -> (s: Option<&str>)
    ensures
        s is Some <==> pool_utf8(pool@, offset, length) is Some,
        s matches Some(t) ==> pool_utf8(pool@, offset, length) == Some(t.spec_bytes()),
{
    let start = offset as usize;
    let n = pool.len();
    let end = match start.checked_add(length as usize) {
        Some(e) => e,
        None => {
            assert(offset + length > n);
            return None;
        },
    };
    if end > n {
        return None;
    }
    let bytes = slice_subrange(pool, start, end);
    utf8_str(bytes)
}

/// The string stored in the pool range, or an empty string when the range is
/// unreadable.
pub fn read_string(pool: &[u8], offset: u32, length: u32) -> (s: String)
    ensures
        s@ == pool_text(pool@, offset, length),
{
    match read_str(pool, offset, length) {
        Some(t) => {
            proof {
                encode_utf8_decode_utf8(t@);
            }
            t.to_owned()
        },
        None => String::new(),
    }
}

/// A window title read from the pool: `None` for an empty range, and for a
/// range that yields no text.
pub fn window_title(pool: &[u8], offset: u32, length: u32) -> (title: Option<String>)
    ensures
        optional_text(title) == title_text(pool@, offset, length),
{
    if length == 0 {
        return None;
    }
    let s = read_string(pool, offset, length);
    if s.as_str().is_empty() {
        None
    } else {
        Some(s)
    }
}

/// Decode one packed application record.
pub fn decode_application(p: &PackedApplication, pool: &[u8]) -> (a: ApplicationSnapshot)
    ensures
        decodes_application(a, *p, pool@),
{
    ApplicationSnapshot {
        process_id: p.process_id,
        bundle_identifier: read_string(pool, p.bundle_id_offset, p.bundle_id_length),
        application_name: read_string(pool, p.app_name_offset, p.app_name_length),
    }
}

/// Decode the application records the bridge wrote, in order.
pub fn decode_applications(packed: &[PackedApplication], pool: &[u8]) -> (apps: Vec<ApplicationSnapshot>)
    ensures
        apps.len() == packed.len(),
        forall|i: int| 0 <= i < packed.len() ==> decodes_application(#[trigger] apps@[i], packed@[i], pool@),
{
    let mut apps: Vec<ApplicationSnapshot> = Vec::new();
    let mut i: usize = 0;
    while i < packed.len()
        invariant
            i <= packed.len(),
            apps.len() == i,
            forall|j: int| 0 <= j < i ==> decodes_application(#[trigger] apps@[j], packed@[j], pool@),
        decreases packed.len() - i,
    {
        let a = decode_application(&packed[i], pool);
        apps.push(a);
        i = i + 1;
    }
    apps
}

/// Map each process id to the index of its last application in `apps`.
fn app_index_map(apps: &[ApplicationSnapshot]) -> (m: HashMap<i32, usize>)
    ensures
        forall|pid: i32| #[trigger] m@.contains_key(pid) <==> last_index_of(process_ids(apps@), pid) is Some,
        forall|pid: i32| m@.contains_key(pid) ==> owner_index(process_ids(apps@), pid) == Some(#[trigger] m@[pid]),
{
    let ghost pids = process_ids(apps@);
    let mut m: HashMap<i32, usize> = HashMap::new();
    let mut i: usize = 0;
    while i < apps.len()
        invariant
            i <= apps.len(),
            pids == process_ids(apps@),
            forall|pid: i32| #[trigger] m@.contains_key(pid) <==> last_index_of(pids.take(i as int), pid) is Some,
            forall|pid: i32|
                m@.contains_key(pid) ==> owner_index(pids.take(i as int), pid) == Some(#[trigger] m@[pid]),
        decreases apps.len() - i,
    {
        let pid = apps[i].process_id;
        m.insert(pid, i);
        proof {
            let next = pids.take(i + 1);
            assert(next.drop_last() =~= pids.take(i as int));
            assert(next.last() == pid);
        }
        i = i + 1;
    }
    proof {
        assert(pids.take(apps.len() as int) =~= pids);
    }
    m
}

/// Decode the window records the bridge wrote, in order, resolving each
/// owner to its application's index in `applications`.
pub fn decode_windows(packed: &[PackedWindow], pool: &[u8], applications: &[ApplicationSnapshot]) -> (windows: Vec<WindowRecord>)
    ensures
        windows.len() == packed.len(),
        forall|i: int|
            0 <= i < packed.len() ==> decodes_window(
                #[trigger] windows@[i],
                packed@[i],
                pool@,
                process_ids(applications@),
            ),
{
    let index = app_index_map(applications);
    let ghost pids = process_ids(applications@);
    let mut windows: Vec<WindowRecord> = Vec::new();
    let mut i: usize = 0;
    while i < packed.len()
        invariant
            i <= packed.len(),
            windows.len() == i,
            pids == process_ids(applications@),
            forall|pid: i32| #[trigger] index@.contains_key(pid) <==> last_index_of(pids, pid) is Some,
            forall|pid: i32| index@.contains_key(pid) ==> owner_index(pids, pid) == Some(#[trigger] index@[pid]),
            forall|j: int| 0 <= j < i ==> decodes_window(#[trigger] windows@[j], packed@[j], pool@, pids),
        decreases packed.len() - i,
    {
        let p = packed[i];
        let title = window_title(pool, p.title_offset, p.title_length);
        let owning_app_index = match index.get(&p.owning_app_process_id) {
            Some(k) => Some(*k),
            None => None,
        };
        windows.push(
            WindowRecord {
                window_id: p.window_id,
                window_layer: p.window_layer,
                is_on_screen: p.is_on_screen,
                is_active: p.is_active,
                title,
                owning_app_index,
            },
        );
        i = i + 1;
    }
    windows
}

/// A window's owner index designates the last application with the
/// window's process id, and no application has that id when it is absent:
/// an owner index is always in range for the applications.
pub proof fn lemma_owner_index_designates_owner(pids: Seq<i32>, pid: i32)
    ensures
        last_index_of(pids, pid) matches Some(k) ==> {
            &&& 0 <= k < pids.len()
            &&& pids[k] == pid
            &&& forall|j: int| k < j < pids.len() ==> pids[j] != pid
        },
        last_index_of(pids, pid) is None ==> forall|j: int| 0 <= j < pids.len() ==> pids[j] != pid,
    decreases pids.len(),
{
    if pids.len() > 0 && pids.last() != pid {
        lemma_owner_index_designates_owner(pids.drop_last(), pid);
        assert forall|j: int| 0 <= j < pids.len() - 1 implies pids.drop_last()[j] == pids[j] by {}
    }
}

/// A batch never yields more entries than its buffer holds, and it is
/// flagged as possibly truncated exactly when it filled the buffer.
pub proof fn lemma_batch_count_is_capped(written: isize, cap: usize)
    ensures
        batch_outcome(written, cap).0 <= cap,
        batch_outcome(written, cap).1 <==> (written > 0 && batch_outcome(written, cap).0 == cap),
        written > 0 && written < cap ==> batch_outcome(written, cap) == (written as usize, false),
{
}

} // verus!
