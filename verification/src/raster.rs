//! The picture as an image: pixels laid out by the `image` crate's buffer,
//! ready for an encoder.

use crate::picture::is_picture;
use image::ImageBuffer;
use image::Rgb;
use vstd::prelude::*;

verus! {

/// The colour of the marker that the image carries in its top-left corner.
pub const MARKER: [u8; 3] = [0, 0, 255];

/// An 8-bit RGB image buffer of the `image` crate, an
/// `ImageBuffer<Rgb<u8>, Vec<u8>>`. Nothing inside it is visible to the
/// proofs: what they know of a canvas is what `blank_canvas`, `put_pixel` and
/// `canvas_bytes` state of the crate's methods.
#[verifier::external_body]
pub struct Canvas {
    buffer: ImageBuffer<Rgb<u8>, Vec<u8>>,
}

/// The width and height that a canvas was made with.
pub uninterp spec fn canvas_size(canvas: Canvas) -> (u32, u32);

/// The three channels that a canvas holds at each position `(x, y)`.
pub uninterp spec fn canvas_pixels(canvas: Canvas) -> Map<(u32, u32), Seq<u8>>;

/// Where channel `c` of the pixel in column `x` and row `y` stands in an
/// image of the given width that is stored row by row.
pub open spec fn byte_index(width: int, x: int, y: int, c: int) -> int {
    (y * width + x) * 3 + c
}

/// `ImageBuffer::new`: a buffer of the given size with every channel zero.
/// The call panics where the buffer would be longer than a vector can be,
/// which `requires` leaves out.
#[verifier::external_body]
fn blank_canvas(width: u32, height: u32) -> (canvas: Canvas)
    requires
        3 * width * height <= isize::MAX,
    ensures
        canvas_size(canvas) == (width, height),
        forall|x: u32, y: u32|
            x < width && y < height ==> #[trigger] canvas_pixels(canvas)[(x, y)] == seq![0u8, 0u8, 0u8],
{
    Canvas { buffer: ImageBuffer::new(width, height) }
}

/// `ImageBuffer::put_pixel`: the pixel at `(x, y)` becomes `rgb`; every
/// other pixel and the size stay. The call panics outside the bounds, which
/// `requires` leaves out.
#[verifier::external_body]
fn put_pixel(canvas: &mut Canvas, x: u32, y: u32, rgb: [u8; 3])
    requires
        x < canvas_size(*old(canvas)).0,
        y < canvas_size(*old(canvas)).1,
    ensures
        canvas_size(*final(canvas)) == canvas_size(*old(canvas)),
        canvas_pixels(*final(canvas)) == canvas_pixels(*old(canvas)).insert((x, y), rgb@),
{
    canvas.buffer.put_pixel(x, y, Rgb(rgb));
}

/// `ImageBuffer::into_raw`: the buffer's bytes, three for each pixel, row by
/// row from the top, each row from the left.
#[verifier::external_body]
fn canvas_bytes(canvas: Canvas) -> (bytes: Vec<u8>)
    ensures
        bytes@.len() == 3 * canvas_size(canvas).0 * canvas_size(canvas).1,
        forall|x: u32, y: u32, c: int|
            x < canvas_size(canvas).0 && y < canvas_size(canvas).1 && 0 <= c < 3 ==> #[trigger] bytes@[byte_index(
                canvas_size(canvas).0 as int,
                x as int,
                y as int,
                c,
            )] == canvas_pixels(canvas)[(x, y)][c],
{
    canvas.buffer.into_raw()
}

/// The pixel that the image shows in column `x` and row `y`: the picture's
/// own, but for the marker in the top-left corner.
pub open spec fn shown(columns: Seq<Vec<[u8; 3]>>, x: int, y: int) -> Seq<u8> {
    if x == 0 && y == 0 {
        MARKER@
    } else {
        columns[x][y]@
    }
}

/// The picture can be made into an image: it is not empty, every column is
/// as long as the first, and its size is one that an image can have.
pub open spec fn paintable(columns: Seq<Vec<[u8; 3]>>) -> bool {
    &&& columns.len() > 0
    &&& columns[0].len() > 0
    &&& is_picture(columns, columns.len(), columns[0].len() as nat)
    &&& columns.len() <= u32::MAX
    &&& columns[0].len() <= u32::MAX
    &&& 3 * columns.len() * columns[0].len() <= isize::MAX
}

/// Paints a picture onto a canvas of its size and marks the top-left corner.
fn paint(columns: &Vec<Vec<[u8; 3]>>) -> (canvas: Canvas)
    requires
        paintable(columns@),
    ensures
        canvas_size(canvas) == (columns.len() as u32, columns[0].len() as u32),
        forall|x: u32, y: u32|
            x < columns.len() && y < columns[0].len() ==> #[trigger] canvas_pixels(canvas)[(x, y)]
                == shown(columns@, x as int, y as int),
{
    let width: u32 = columns.len() as u32;
    let height: u32 = columns[0].len() as u32;
    let mut canvas = blank_canvas(width, height);
    let mut x: u32 = 0;
    while x < width
        invariant
            x <= width,
            width == columns.len(),
            height == columns[0].len(),
            is_picture(columns@, width as nat, height as nat),
            canvas_size(canvas) == (width, height),
            forall|i: u32, j: u32|
                i < x && j < height ==> #[trigger] canvas_pixels(canvas)[(i, j)]
                    == columns[i as int][j as int]@,
        decreases width - x,
    {
        let column = &columns[x as usize];
        let mut y: u32 = 0;
        while y < height
            invariant
                x < width,
                y <= height,
                width == columns.len(),
                height == columns[0].len(),
                column == columns[x as int],
                column.len() == height,
                canvas_size(canvas) == (width, height),
                forall|i: u32, j: u32|
                    (i < x && j < height) || (i == x && j < y) ==> #[trigger] canvas_pixels(
                        canvas,
                    )[(i, j)] == columns[i as int][j as int]@,
            decreases height - y,
        {
            put_pixel(&mut canvas, x, y, column[y as usize]);
            y += 1;
        }
        x += 1;
    }
    put_pixel(&mut canvas, 0, 0, MARKER);
    canvas
}

/// The bytes of the image of a picture: three for each pixel, row by row
/// from the top and each row from the left, with the marker in the first
/// pixel.
pub fn image_bytes(columns: &Vec<Vec<[u8; 3]>>) -> (bytes: Vec<u8>)
    requires
        paintable(columns@),
    ensures
        bytes@.len() == 3 * columns.len() * columns[0].len(),
        forall|x: int, y: int, c: int|
            0 <= x < columns.len() && 0 <= y < columns[0].len() && 0 <= c < 3 ==> #[trigger] bytes@[byte_index(
                columns.len() as int,
                x,
                y,
                c,
            )] == shown(columns@, x, y)[c],
{
    let canvas = paint(columns);
    let bytes = canvas_bytes(canvas);
    proof {
        assert forall|x: int, y: int, c: int|
            0 <= x < columns.len() && 0 <= y < columns[0].len() && 0 <= c < 3 implies #[trigger] bytes@[byte_index(
            columns.len() as int,
            x,
            y,
            c,
        )] == shown(columns@, x, y)[c] by {
            let xu = x as u32;
            let yu = y as u32;
            assert(canvas_pixels(canvas)[(xu, yu)] == shown(columns@, xu as int, yu as int));
            assert(bytes@[byte_index(canvas_size(canvas).0 as int, xu as int, yu as int, c)]
                == canvas_pixels(canvas)[(xu, yu)][c]);
        }
    }
    bytes
}

/// Every byte of an image is one channel of one pixel: the byte at `at`
/// belongs to column `(at / 3) % width` and row `(at / 3) / width`, and no
/// other pixel or channel shares it.
pub proof fn lemma_byte_index_is_one_to_one(width: int, height: int, at: int)
    requires
        0 < width,
        0 <= at < 3 * width * height,
    ensures
        0 <= (at / 3) % width < width,
        0 <= (at / 3) / width < height,
        byte_index(width, (at / 3) % width, (at / 3) / width, at % 3) == at,
        forall|x: int, y: int, c: int|
            0 <= x < width && 0 <= c < 3 && byte_index(width, x, y, c) == at ==> x == (at / 3) % width && y
                == (at / 3) / width && c == at % 3,
{
    let pixel = at / 3;
    assert(pixel < width * height) by (nonlinear_arith)
        requires
            at < 3 * width * height,
            pixel == at / 3,
    ;
    assert(0 <= pixel / width < height && pixel == (pixel / width) * width + pixel % width && 0 <= pixel
        % width < width) by (nonlinear_arith)
        requires
            0 <= pixel < width * height,
            0 < width,
    ;
    assert forall|x: int, y: int, c: int|
        0 <= x < width && 0 <= c < 3 && byte_index(width, x, y, c) == at implies x == pixel % width && y
        == pixel / width && c == at % 3 by {
        assert(y * width + x == pixel);
        assert(y == pixel / width && x == pixel % width) by (nonlinear_arith)
            requires
                y * width + x == pixel,
                0 <= x < width,
        ;
    }
}

/// Tells whether a picture can be made into an image.
pub fn is_paintable(columns: &Vec<Vec<[u8; 3]>>) -> (ok: bool)
    ensures
        ok == paintable(columns@),
{
    if columns.len() == 0 {
        return false;
    }
    let width: usize = columns.len();
    let height: usize = columns[0].len();
    if height == 0 || width > 0xffff_ffff || height > 0xffff_ffff {
        return false;
    }
    assert(3 * width * height <= 3 * 0xffff_ffff * 0xffff_ffff) by (nonlinear_arith)
        requires
            width <= 0xffff_ffff,
            height <= 0xffff_ffff,
    ;
    let area: u128 = 3 * (width as u128) * (height as u128);
    if area > isize::MAX as u128 {
        return false;
    }
    let mut x: usize = 1;
    while x < width
        invariant
            1 <= x <= width,
            width == columns.len(),
            height == columns[0].len(),
            forall|i: int| 0 <= i < x ==> (#[trigger] columns[i]).len() == height,
        decreases width - x,
    {
        if columns[x].len() != height {
            return false;
        }
        x += 1;
    }
    true
}

/// The bytes of the image of a picture, where it can be made into one:
/// `None` for an empty picture, for one whose columns differ in length and
/// for one too large for an image.
pub fn checked_image_bytes(columns: &Vec<Vec<[u8; 3]>>) -> (res: Option<Vec<u8>>)
    ensures
        res is Some <==> paintable(columns@),
        res matches Some(bytes) ==> {
            &&& bytes@.len() == 3 * columns.len() * columns[0].len()
            &&& forall|x: int, y: int, c: int|
                0 <= x < columns.len() && 0 <= y < columns[0].len() && 0 <= c < 3 ==> #[trigger] bytes@[byte_index(
                    columns.len() as int,
                    x,
                    y,
                    c,
                )] == shown(columns@, x, y)[c]
        },
{
    if is_paintable(columns) {
        Some(image_bytes(columns))
    } else {
        None
    }
}

} // verus!
