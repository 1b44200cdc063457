//! `IOSurface` lock options, plane descriptions and the byte ranges of
//! locked surface memory.

use vstd::prelude::*;

verus! {

/// Lock options for `IOSurface`.
#[derive(Debug, Clone, Copy, PartialEq, Eq, Hash, Structural)]
pub enum IOSurfaceLockOptions {
    /// Read-only lock
    ReadOnly,
    /// Avoid synchronization
    AvoidSync,
}

impl IOSurfaceLockOptions {
    /// The option bits the framework takes.
    pub fn as_u32(self) -> (v: u32)
        ensures
            self is ReadOnly ==> v == 1,
            self is AvoidSync ==> v == 2,
    {
        match self {
            IOSurfaceLockOptions::ReadOnly => 1,
            IOSurfaceLockOptions::AvoidSync => 2,
        }
    }
}

/// Properties for a single plane in a multi-planar `IOSurface`.
#[derive(Debug, Clone, Copy, PartialEq, Eq, Structural)]
pub struct PlaneProperties {
    /// Width of this plane in pixels
    pub width: usize,
    /// Height of this plane in pixels
    pub height: usize,
    /// Bytes per row for this plane
    pub bytes_per_row: usize,
    /// Bytes per element for this plane
    pub bytes_per_element: usize,
    /// Offset from the start of the surface allocation
    pub offset: usize,
    /// Size of this plane in bytes
    pub size: usize,
}

/// Plane properties split into one column per field, as the surface
/// creation call takes them.
#[derive(Debug, Clone, PartialEq, Eq)]
pub struct PlaneColumns {
    pub count: usize,
    pub widths: Vec<usize>,
    pub heights: Vec<usize>,
    pub row_bytes: Vec<usize>,
    pub element_bytes: Vec<usize>,
    pub offsets: Vec<usize>,
    pub sizes: Vec<usize>,
}

/// Split plane descriptions into columns; no planes gives empty columns.
pub fn plane_columns(planes: Option<&[PlaneProperties]>) -> (c: PlaneColumns)
    ensures
        planes is None ==> c.count == 0,
        planes matches Some(p) ==> c.count == p@.len(),
        c.widths@.len() == c.count && c.heights@.len() == c.count && c.row_bytes@.len() == c.count
            && c.element_bytes@.len() == c.count && c.offsets@.len() == c.count && c.sizes@.len()
            == c.count,
        planes matches Some(p) ==> forall|i: int|
            0 <= i < p@.len() ==> {
                &&& c.widths@[i] == (#[trigger] p@[i]).width
                &&& c.heights@[i] == p@[i].height
                &&& c.row_bytes@[i] == p@[i].bytes_per_row
                &&& c.element_bytes@[i] == p@[i].bytes_per_element
                &&& c.offsets@[i] == p@[i].offset
                &&& c.sizes@[i] == p@[i].size
            },
{
    let mut c = PlaneColumns {
        count: 0,
        widths: Vec::new(),
        heights: Vec::new(),
        row_bytes: Vec::new(),
        element_bytes: Vec::new(),
        offsets: Vec::new(),
        sizes: Vec::new(),
    };
    if let Some(p) = planes {
        let mut i: usize = 0;
        while i < p.len()
            invariant
                i <= p@.len(),
                c.count == 0,
                c.widths@.len() == i && c.heights@.len() == i && c.row_bytes@.len() == i
                    && c.element_bytes@.len() == i && c.offsets@.len() == i && c.sizes@.len() == i,
                forall|j: int|
                    0 <= j < i ==> {
                        &&& c.widths@[j] == (#[trigger] p@[j]).width
                        &&& c.heights@[j] == p@[j].height
                        &&& c.row_bytes@[j] == p@[j].bytes_per_row
                        &&& c.element_bytes@[j] == p@[j].bytes_per_element
                        &&& c.offsets@[j] == p@[j].offset
                        &&& c.sizes@[j] == p@[j].size
                    },
            decreases p@.len() - i,
        {
            let q = p[i];
            c.widths.push(q.width);
            c.heights.push(q.height);
            c.row_bytes.push(q.bytes_per_row);
            c.element_bytes.push(q.bytes_per_element);
            c.offsets.push(q.offset);
            c.sizes.push(q.size);
            i = i + 1;
        }
        c.count = p.len();
    }
    c
}

/// Length in bytes of a locked region of `height` rows of `bytes_per_row`
/// bytes.
pub fn region_len(height: usize, bytes_per_row: usize) -> (n: usize)
    requires
        height * bytes_per_row <= usize::MAX,
    ensures
        n == height * bytes_per_row,
{
    height * bytes_per_row
}

/// Byte range `(start, len)` of row `row_index` in a region of `height` rows
/// of `bytes_per_row` bytes; `None` past the last row.
pub fn row_range(row_index: usize, height: usize, bytes_per_row: usize) -> (r: Option<(usize, usize)>)
    requires
        height * bytes_per_row <= usize::MAX,
    ensures
        row_index >= height ==> r is None,
        row_index < height ==> r == Some(((row_index * bytes_per_row) as usize, bytes_per_row)),
        r matches Some((start, len)) ==> start + len <= height * bytes_per_row,
{
    if row_index >= height {
        return None;
    }
    proof {
        vstd::arithmetic::mul::lemma_mul_inequality(row_index as int + 1, height as int, bytes_per_row as int);
        vstd::arithmetic::mul::lemma_mul_is_distributive_add_other_way(bytes_per_row as int, row_index as int, 1);
    }
    Some((row_index * bytes_per_row, bytes_per_row))
}

/// Byte range of row `row_index` of a plane: `None` past the plane's last
/// row or when the plane does not exist (`plane_present` false).
pub fn plane_row_range(row_index: usize, plane_height: usize, plane_bytes_per_row: usize, plane_present: bool) -> (r: Option<(usize, usize)>)
    requires
        plane_height * plane_bytes_per_row <= usize::MAX,
    ensures
        row_index >= plane_height || !plane_present ==> r is None,
        row_index < plane_height && plane_present ==> r == Some(
            ((row_index * plane_bytes_per_row) as usize, plane_bytes_per_row),
        ),
{
    if row_index >= plane_height {
        return None;
    }
    if !plane_present {
        return None;
    }
    row_range(row_index, plane_height, plane_bytes_per_row)
}

} // verus!
