//! Pixel buffer lock flags and a cursor over locked BGRA pixel data.

use vstd::prelude::*;

verus! {

/// Lock flags for pixel buffers.
#[derive(Debug, Clone, Copy, PartialEq, Eq, Hash, Structural)]
pub enum PixelBufferLockFlags {
    /// Read-only access to the buffer
    ReadOnly,
}

impl PixelBufferLockFlags {
    /// The flag bits as a 64-bit value.
    pub fn as_u64(self) -> (v: u64)
        ensures
            v == 1,
    {
        match self {
            PixelBufferLockFlags::ReadOnly => 1,
        }
    }

    /// The flag bits as the bridge takes them.
    pub fn as_u32(self) -> (v: u32)
        ensures
            v == 1,
    {
        match self {
            PixelBufferLockFlags::ReadOnly => 1,
        }
    }
}

/// Byte offset of pixel `(x, y)` in BGRA data with `bytes_per_row` bytes per
/// row: four bytes per pixel.
pub open spec fn pixel_offset(x: int, y: int, bytes_per_row: int) -> int {
    y * bytes_per_row + x * 4
}

/// Reading pixels out of locked BGRA data.
pub trait PixelBufferCursorExt {
    /// The current read position.
    spec fn position_spec(&self) -> u64;

    /// The bytes read from.
    spec fn data_spec(&self) -> Seq<u8>;

    /// Seek to pixel `(x, y)`; returns the new position.
    fn seek_to_pixel(&mut self, x: usize, y: usize, bytes_per_row: usize) -> (pos: u64)
        requires
            pixel_offset(x as int, y as int, bytes_per_row as int) <= usize::MAX,
        ensures
            pos == pixel_offset(x as int, y as int, bytes_per_row as int),
            final(self).position_spec() == pos,
            final(self).data_spec() == old(self).data_spec(),
    ;

    /// Read the four bytes of one pixel at the current position; `None`
    /// when fewer than four bytes remain.
    fn read_pixel(&mut self) -> (pixel: Option<[u8; 4]>)
        ensures
            old(self).position_spec() + 4 <= old(self).data_spec().len() ==> {
                &&& pixel matches Some(p) && p@ == old(self).data_spec().subrange(
                    old(self).position_spec() as int,
                    old(self).position_spec() + 4,
                )
                &&& final(self).position_spec() == old(self).position_spec() + 4
            },
            old(self).position_spec() + 4 > old(self).data_spec().len() ==> pixel is None,
            final(self).data_spec() == old(self).data_spec(),
    ;
}

/// A read cursor over locked pixel data.
pub struct PixelCursor<'a> {
    data: &'a [u8],
    pos: u64,
}

impl<'a> PixelCursor<'a> {
    /// A cursor at the start of `data`.
    pub fn new(data: &'a [u8]) -> (c: Self)
        ensures
            c.position_spec() == 0,
            c.data_spec() == data@,
    {
        PixelCursor { data, pos: 0 }
    }

    /// The current read position.
    pub fn position(&self) -> (p: u64)
        ensures
            p == self.position_spec(),
    {
        self.pos
    }
}

impl<'a> PixelBufferCursorExt for PixelCursor<'a> {
    closed spec fn position_spec(&self) -> u64 {
        self.pos
    }

    closed spec fn data_spec(&self) -> Seq<u8> {
        self.data@
    }

    fn seek_to_pixel(&mut self, x: usize, y: usize, bytes_per_row: usize) -> (pos: u64) {
        proof {
            vstd::arithmetic::mul::lemma_mul_nonnegative(y as int, bytes_per_row as int);
            assert(y * bytes_per_row <= usize::MAX);
        }
        let p = y * bytes_per_row + x * 4;
        self.pos = p as u64;
        self.pos
    }

    fn read_pixel(&mut self) -> (pixel: Option<[u8; 4]>) {
        let len = self.data.len();
        if self.pos > len as u64 || len as u64 - self.pos < 4 {
            return None;
        }
        let start = self.pos as usize;
        let p: [u8; 4] = [self.data[start], self.data[start + 1], self.data[start + 2], self.data[start + 3]];
        self.pos = self.pos + 4;
        assert(p@ =~= self.data@.subrange(start as int, start + 4));
        Some(p)
    }
}

/// The `paramErr` code that inconsistent plane descriptions are answered with.
pub const PARAM_ERR: i32 = -50;

/// Check the plane descriptions of a planar pixel buffer: the base
/// addresses, widths, heights and bytes per row must describe the same
/// number of planes, which is returned; otherwise `paramErr` (`-50`).
pub fn planar_plane_count(addresses: usize, widths: usize, heights: usize, bytes_per_row: usize) -> (r: Result<
    usize,
    i32,
>)
    ensures
        (addresses == widths && widths == heights && heights == bytes_per_row) ==> r == Ok::<usize, i32>(
            addresses,
        ),
        !(addresses == widths && widths == heights && heights == bytes_per_row) ==> r == Err::<usize, i32>(
            PARAM_ERR,
        ),
{
    if addresses != widths || widths != heights || heights != bytes_per_row {
        Err(PARAM_ERR)
    } else {
        Ok(addresses)
    }
}

/// The answer of a create call that reports a status and hands out the
/// created object: success only with status `0` and an object; otherwise
/// the status is the error.
pub fn creation_result(status: i32, created: bool) -> (r: Result<(), i32>)
    ensures
        (status == 0 && created) ==> r == Ok::<(), i32>(()),
        !(status == 0 && created) ==> r == Err::<(), i32>(status),
{
    if status == 0 && created {
        Ok(())
    } else {
        Err(status)
    }
}

} // verus!
