//! The picture: one byte triple for each pixel, in columns.

use vstd::prelude::*;

verus! {

/// `columns` is a picture of the given size: `width` columns of `height`
/// pixels each, so that `columns[x][y]` is the pixel in column `x` and row
/// `y`, the first of each counted from the top-left corner.
pub open spec fn is_picture(columns: Seq<Vec<[u8; 3]>>, width: nat, height: nat) -> bool {
    &&& columns.len() == width
    &&& forall|x: int| 0 <= x < width ==> (#[trigger] columns[x]).len() == height
}

/// Renders a picture pixel by pixel.
///
/// `shade` is called once for each pixel, with the pixel's column and row,
/// column by column and from the top of each column down. What it returns for
/// `(x, y)` stands at `[x][y]` of the picture.
pub fn take_picture<F: Fn(usize, usize) -> [u8; 3]>(width: usize, height: usize, shade: F) -> (columns:
    Vec<Vec<[u8; 3]>>)
    requires
        forall|x: usize, y: usize| x < width && y < height ==> call_requires(shade, (x, y)),
    ensures
        is_picture(columns@, width as nat, height as nat),
        forall|x: usize, y: usize|
            x < width && y < height ==> call_ensures(shade, (x, y), #[trigger] columns[x as int][y as int]),
{
    let mut columns: Vec<Vec<[u8; 3]>> = Vec::new();
    let mut x: usize = 0;
    while x < width
        invariant
            x <= width,
            forall|i: usize, j: usize| i < width && j < height ==> call_requires(shade, (i, j)),
            is_picture(columns@, x as nat, height as nat),
            forall|i: usize, j: usize|
                i < x && j < height ==> call_ensures(shade, (i, j), #[trigger] columns[i as int][j as int]),
        decreases width - x,
    {
        let mut column: Vec<[u8; 3]> = Vec::new();
        let mut y: usize = 0;
        while y < height
            invariant
                x < width,
                y <= height,
                column.len() == y,
                forall|i: usize, j: usize| i < width && j < height ==> call_requires(shade, (i, j)),
                forall|j: usize| j < y ==> call_ensures(shade, (x, j), #[trigger] column[j as int]),
            decreases height - y,
        {
            let pixel = shade(x, y);
            column.push(pixel);
            y += 1;
        }
        columns.push(column);
        x += 1;
    }
    columns
}

} // verus!
