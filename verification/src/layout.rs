use vstd::prelude::*;
use crate::errors::CycleError;

verus! {

/// Offset of the handshake flag byte.
pub const FLAG_OFFSET: usize = 0;

/// Offset of the row-count byte.
pub const ROWS_OFFSET: usize = 1;

/// Offset of the column-count byte.
pub const COLUMNS_OFFSET: usize = 2;

/// Offset of the first pixel byte: one flag byte plus two metadata bytes.
pub const PIXEL_OFFSET: usize = 3;

/// Bytes the region must hold for a `rows` by `columns` image: the flag,
/// the two metadata bytes, three pixel bytes per pixel, and three result
/// bytes per row's slot in a result area as large as the pixel area.
pub open spec fn spec_required_bytes(rows: int, columns: int) -> int {
    3 + 6 * (rows * columns)
}

/// Offset of the first byte of the result triple of row `row`, directly
/// after all pixel rows.
pub open spec fn spec_result_base(rows: int, columns: int, row: int) -> int {
    3 + 3 * (rows * columns) + 3 * row
}

/// Offset of the first byte of pixel `col` of row `row`.
pub open spec fn spec_pixel_base(columns: int, row: int, col: int) -> int {
    3 + 3 * (row * columns + col)
}

/// The derived byte offsets for one image shape.
#[derive(Clone, Copy, PartialEq, Eq, Structural, Debug)]
pub struct Layout {
    /// Where the row and column counts start.
    pub metadata_offset: usize,
    /// Where the pixel rows start.
    pub pixel_offset: usize,
    /// Where the result triples start.
    pub result_offset: usize,
    /// How many bytes of the region the image and its results occupy.
    pub required_bytes: usize,
}

/// A pixel count times a small factor stays far below `usize::MAX`, since
/// both dimensions fit in one byte.
pub proof fn lemma_dims_product_bound(rows: int, columns: int)
    by (nonlinear_arith)
    requires
        0 <= rows <= 255,
        0 <= columns <= 255,
    ensures
        0 <= rows * columns <= 65025,
{
}

/// A pixel's linear index lies within the pixel area.
pub proof fn lemma_pixel_index_bound(rows: int, columns: int, row: int, col: int)
    by (nonlinear_arith)
    requires
        0 <= row < rows,
        0 <= col < columns,
    ensures
        0 <= row * columns + col,
        row * columns + col < rows * columns,
{
}

/// With at least one column, there are at least as many pixels as rows,
/// so the result area ends within the pixel-sized area reserved for it.
pub proof fn lemma_rows_le_pixels(rows: int, columns: int)
    by (nonlinear_arith)
    requires
        0 <= rows,
        1 <= columns,
    ensures
        rows <= rows * columns,
{
}

/// Derives the offsets for a `rows` by `columns` image, refusing a shape
/// whose pixels and results would not fit in `capacity` bytes.
pub fn layout_for(rows: u8, columns: u8, capacity: usize) -> (r: Result<Layout, CycleError>)
    ensures
        r is Ok <==> spec_required_bytes(rows as int, columns as int) <= capacity,
        r is Err ==> r->Err_0 == CycleError::OversizeImage,
        r is Ok ==> {
            let l = r->Ok_0;
            &&& l.metadata_offset == ROWS_OFFSET
            &&& l.pixel_offset == PIXEL_OFFSET
            &&& l.result_offset == 3 + 3 * ((rows as int) * (columns as int))
            &&& l.required_bytes == spec_required_bytes(rows as int, columns as int)
        },
{
    proof {
        lemma_dims_product_bound(rows as int, columns as int);
    }
    let pixels: usize = (rows as usize) * (columns as usize);
    let required: usize = 3 + 6 * pixels;
    if required > capacity {
        Err(CycleError::OversizeImage)
    } else {
        Ok(Layout {
            metadata_offset: ROWS_OFFSET,
            pixel_offset: PIXEL_OFFSET,
            result_offset: 3 + 3 * pixels,
            required_bytes: required,
        })
    }
}

} // verus!
