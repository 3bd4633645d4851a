//! Drawing on a pixel buffer of `WIDTH` by `HEIGHT` pixels with four bytes
//! to the pixel.

use vstd::prelude::*;
use line_drawing::Bresenham;
use crate::utils::geometry::Point;
use crate::utils::loader::{frame_key, key_of, Assets};
use crate::{HEIGHT, WIDTH};

verus! {

/// The frames for which there is a sprite.
#[derive(Clone, Copy, Debug, Eq, Hash, PartialEq, Structural)]
pub enum Frame {
    Particle,
}

/// A sprite: a rectangle of pixels that it owns.
#[derive(Debug)]
pub struct Sprite {
    pub width: usize,
    pub height: usize,
    pub pixels: Vec<u8>,
}

impl Sprite {
    /// The sprite of a frame, copied from the assets.
    pub fn new(assets: &Assets, frame: Frame) -> (sprite: Sprite)
        requires
            assets@.contains_key(frame_key(frame)),
        ensures
            sprite.width == assets@[frame_key(frame)].0,
            sprite.height == assets@[frame_key(frame)].1,
            sprite.pixels@ == assets@[frame_key(frame)].2@,
    {
        let key = key_of(&frame);
        let (width, height, pixels) = assets.sprites().get(&key).unwrap();
        Sprite { width: *width, height: *height, pixels: pixels.clone() }
    }
}

/// What can be drawn on the pixel buffer.
pub trait Drawable {
    /// The width in pixels.
    spec fn spec_width(&self) -> usize;

    /// The height in pixels.
    spec fn spec_height(&self) -> usize;

    /// The pixels, row after row.
    spec fn spec_pixels(&self) -> Seq<u8>;

    /// The width in pixels.
    fn width(&self) -> (width: usize)
        ensures
            width == self.spec_width(),
    ;

    /// The height in pixels.
    fn height(&self) -> (height: usize)
        ensures
            height == self.spec_height(),
    ;

    /// The pixels, row after row.
    fn pixels(&self) -> (pixels: &[u8])
        ensures
            pixels@ == self.spec_pixels(),
    ;
}

impl Drawable for Sprite {
    open spec fn spec_width(&self) -> usize {
        self.width
    }

    open spec fn spec_height(&self) -> usize {
        self.height
    }

    open spec fn spec_pixels(&self) -> Seq<u8> {
        self.pixels@
    }

    fn width(&self) -> usize {
        self.width
    }

    fn height(&self) -> usize {
        self.height
    }

    fn pixels(&self) -> &[u8] {
        self.pixels.as_slice()
    }
}

/// The number of bytes in one row of the pixel buffer: four for each of
/// its `WIDTH` pixels.
pub open spec fn row_bytes() -> int {
    2560
}

/// The number of bytes in a pixel buffer: `HEIGHT` rows.
pub open spec fn frame_bytes() -> int {
    1228800
}

/// The two sizes above are those of a buffer of `WIDTH` by `HEIGHT` pixels.
pub proof fn lemma_buffer_sizes()
    ensures
        row_bytes() == WIDTH * 4,
        frame_bytes() == HEIGHT * row_bytes(),
{
}

/// Equal factors give equal products.
proof fn lemma_same_product(a: int, b: int, c: int)
    by (nonlinear_arith)
    requires
        b == c,
    ensures
        a * b == a * c,
{
}

/// Whether a drawable of the given size, with its top-left corner at
/// `dest`, lies wholly on the screen.
pub open spec fn on_screen(dest: Point, width: usize, height: usize) -> bool {
    dest.x + width <= WIDTH && dest.y + height <= HEIGHT
}

/// The byte at position `k` of the buffer after a drawable of the given
/// size was stamped on it in `colour`.  Inside the rectangle of the
/// drawable every byte takes the channel of the colour that falls on it,
/// unless that channel is zero; every other byte stays.
pub open spec fn blit_byte(screen: Seq<u8>, dest: Point, width: usize, height: usize, colour: Seq<u8>, k: int) -> u8 {
    let row = k / row_bytes() - dest.y;
    let offset = k % row_bytes() - dest.x * 4;
    if 0 <= row < height && 0 <= offset < width * 4 && colour[offset % 4] > 0 {
        colour[offset % 4]
    } else {
        screen[k]
    }
}

/// The buffer after a drawable of the given size was stamped on it.
pub open spec fn blitted(screen: Seq<u8>, dest: Point, width: usize, height: usize, colour: Seq<u8>) -> Seq<u8> {
    if on_screen(dest, width, height) {
        Seq::new(screen.len(), |k: int| blit_byte(screen, dest, width, height, colour, k))
    } else {
        screen
    }
}

/// Stamps a drawable on the pixel buffer in a single colour.  A drawable
/// that does not lie wholly on the screen is not drawn.  Channels of the
/// colour that are zero leave the buffer as it is.  The colour is laid out
/// for a row of four pixels, so what is drawn can be four pixels wide at
/// most.
pub fn blit<S>(screen: &mut [u8], dest: &Point, sprite: &S, colour: [u8; 4]) where S: Drawable
    requires
        dest.x + sprite.spec_width() <= usize::MAX,
        dest.y + sprite.spec_height() <= usize::MAX,
        on_screen(*dest, sprite.spec_width(), sprite.spec_height()) && sprite.spec_height() > 0 ==> {
            &&& sprite.spec_width() <= 4
            &&& (dest.y + sprite.spec_height() - 1) * row_bytes() + (dest.x + sprite.spec_width()) * 4 <= old(
                screen,
            )@.len()
        },
    ensures
        final(screen)@ == blitted(old(screen)@, *dest, sprite.spec_width(), sprite.spec_height(), colour@),
{
    let sprite_width = sprite.width();
    let sprite_height = sprite.height();
    if (dest.x + sprite_width > WIDTH as usize) || (dest.y + sprite_height > HEIGHT as usize) {
        return ;
    }
    let width = sprite_width * 4;
    let ghost before = screen@;
    let mut y: usize = 0;
    while y < sprite_height
        invariant
            y <= sprite_height,
            sprite_width == sprite.spec_width(),
            sprite_height == sprite.spec_height(),
            width == sprite_width * 4,
            on_screen(*dest, sprite_width, sprite_height),
            sprite_height > 0 ==> sprite_width <= 4,
            before == old(screen)@,
            screen@.len() == before.len(),
            sprite_height > 0 ==> (dest.y + sprite_height - 1) * row_bytes() + (dest.x + sprite_width) * 4
                <= before.len(),
            forall|k: int|
                0 <= k < before.len() ==> #[trigger] screen@[k] == blit_byte(
                    before,
                    *dest,
                    sprite_width,
                    y,
                    colour@,
                    k,
                ),
        decreases sprite_height - y,
    {
        proof {
            lemma_same_product(dest.y as int, (WIDTH as usize) as int, 640);
            lemma_same_product(y as int, (WIDTH as usize) as int, 640);
        }
        let i = dest.x * 4 + dest.y * WIDTH as usize * 4 + y * WIDTH as usize * 4;
        let mut j: usize = 0;
        while j < width
            invariant
                j <= width,
                y < sprite_height,
                width == sprite_width * 4,
                on_screen(*dest, sprite_width, sprite_height),
                sprite_width <= 4,
                i == dest.x * 4 + (dest.y + y) * row_bytes(),
                screen@.len() == before.len(),
                (dest.y + sprite_height - 1) * row_bytes() + (dest.x + sprite_width) * 4 <= before.len(),
                forall|k: int|
                    0 <= k < before.len() ==> #[trigger] screen@[k] == if i <= k < i + j {
                        blit_byte(before, *dest, sprite_width, (y + 1) as usize, colour@, k)
                    } else {
                        blit_byte(before, *dest, sprite_width, y, colour@, k)
                    },
            decreases width - j,
        {
            let right = colour[j % 4];
            if right > 0 {
                screen[i + j] = right;
            }
            j = j + 1;
        }
        y = y + 1;
    }
}

/// The largest coordinate that an end of a line may have.  With larger
/// ones the differences that the line algorithm forms would not fit the
/// numbers it works with.
pub const MAX_COORDINATE: u64 = 0x3fff_ffff_ffff_ffff;

/// The points of the line from `(x0, y0)` to `(x1, y1)` as the
/// `line_drawing` crate's implementation of Bresenham's algorithm yields
/// them, both ends included.
pub uninterp spec fn bresenham_points(x0: i64, y0: i64, x1: i64, y1: i64) -> Seq<(i64, i64)>;

/// `Bresenham::new`, run to its end.  The algorithm adds and subtracts
/// coordinates and their differences; within the bound none of these
/// leaves the range of `i64`.
#[verifier::external_body]
fn bresenham(x0: i64, y0: i64, x1: i64, y1: i64) -> (points: Vec<(i64, i64)>)
    requires
        0 <= x0 <= MAX_COORDINATE,
        0 <= y0 <= MAX_COORDINATE,
        0 <= x1 <= MAX_COORDINATE,
        0 <= y1 <= MAX_COORDINATE,
    ensures
        points@ == bresenham_points(x0, y0, x1, y1),
{
    Bresenham::new((x0, y0), (x1, y1)).collect()
}

/// The points of the line between two points of the pixel grid.
pub open spec fn segment(from: Point, to: Point) -> Seq<(i64, i64)> {
    bresenham_points(from.x as i64, from.y as i64, to.x as i64, to.y as i64)
}

/// The offset in the buffer of the pixel that `point` is drawn on.  Each
/// coordinate is read as an unsigned number and limited to the screen.
pub open spec fn pixel_offset(point: (i64, i64)) -> int {
    let x = point.0 as usize;
    let y = point.1 as usize;
    let column = if x < WIDTH - 1 {
        x as int
    } else {
        WIDTH - 1
    };
    let row = if y < HEIGHT - 1 {
        y as int
    } else {
        HEIGHT - 1
    };
    column * 4 + row * row_bytes()
}

/// Whether byte `k` of the buffer belongs to the pixel of one of the points.
pub open spec fn covered(points: Seq<(i64, i64)>, k: int) -> bool {
    exists|n: int| 0 <= n < points.len() && #[trigger] pixel_offset(points[n]) == k - k % 4
}

/// The buffer after the pixel of every point was set to `color`.
pub open spec fn plotted(screen: Seq<u8>, points: Seq<(i64, i64)>, color: Seq<u8>) -> Seq<u8> {
    Seq::new(
        screen.len(),
        |k: int|
            if covered(points, k) {
                color[k % 4]
            } else {
                screen[k]
            },
    )
}

/// The buffer after the four bytes from `offset` on were set to `color`.
pub open spec fn with_pixel(screen: Seq<u8>, offset: int, color: Seq<u8>) -> Seq<u8> {
    Seq::new(
        screen.len(),
        |k: int|
            if offset <= k < offset + 4 {
                color[k - offset]
            } else {
                screen[k]
            },
    )
}

/// Sets the pixel that starts at byte `offset` to `color`.
pub fn set_pixel(screen: &mut [u8], offset: usize, color: [u8; 4])
    requires
        offset + 4 <= old(screen)@.len(),
    ensures
        final(screen)@ == with_pixel(old(screen)@, offset as int, color@),
{
    let len = screen.len();
    let mut c: usize = 0;
    while c < 4
        invariant
            c <= 4,
            offset + 4 <= len,
            screen@.len() == len,
            screen@.len() == old(screen)@.len(),
            forall|k: int|
                0 <= k < screen@.len() ==> #[trigger] screen@[k] == if offset <= k < offset + c {
                    color@[k - offset]
                } else {
                    old(screen)@[k]
                },
        decreases 4 - c,
    {
        screen[offset + c] = color[c];
        c = c + 1;
    }
}

/// Plotting one point more sets one pixel more.
proof fn lemma_plot_one_more(screen: Seq<u8>, points: Seq<(i64, i64)>, n: int, color: Seq<u8>)
    requires
        0 <= n < points.len(),
        pixel_offset(points[n]) + 4 <= screen.len(),
    ensures
        with_pixel(plotted(screen, points.take(n), color), pixel_offset(points[n]), color) == plotted(
            screen,
            points.take(n + 1),
            color,
        ),
{
    let more = points.take(n + 1);
    let offset = pixel_offset(points[n]);
    let left = with_pixel(plotted(screen, points.take(n), color), offset, color);
    let right = plotted(screen, more, color);
    assert forall|k: int| 0 <= k < screen.len() implies left[k] == right[k] by {
        if offset <= k < offset + 4 {
            assert(pixel_offset(more[n]) == k - k % 4);
        }
    }
}

/// Sets the pixel of every point to `color`.
pub fn plot(screen: &mut [u8], points: &Vec<(i64, i64)>, color: [u8; 4])
    requires
        points@.len() > 0 ==> old(screen)@.len() >= frame_bytes(),
    ensures
        final(screen)@ == plotted(old(screen)@, points@, color@),
{
    let ghost before = screen@;
    let mut n: usize = 0;
    while n < points.len()
        invariant
            n <= points@.len(),
            before == old(screen)@,
            screen@.len() == before.len(),
            points@.len() > 0 ==> before.len() >= frame_bytes(),
            screen@ == plotted(before, points@.take(n as int), color@),
        decreases points@.len() - n,
    {
        let (px, py) = points[n];
        let ux = px as usize;
        let uy = py as usize;
        let x = if ux < WIDTH as usize - 1 {
            ux
        } else {
            WIDTH as usize - 1
        };
        let y = if uy < HEIGHT as usize - 1 {
            uy
        } else {
            HEIGHT as usize - 1
        };
        proof {
            lemma_same_product(y as int, (WIDTH as usize) as int, 640);
        }
        let i = x * 4 + y * WIDTH as usize * 4;
        proof {
            lemma_plot_one_more(before, points@, n as int, color@);
        }
        set_pixel(screen, i, color);
        n = n + 1;
    }
    assert(points@.take(n as int) =~= points@);
}

/// Draws a line between two points with Bresenham's algorithm.
pub fn line(screen: &mut [u8], p1: &Point, p2: &Point, color: [u8; 4])
    requires
        old(screen)@.len() >= frame_bytes(),
        p1.x <= MAX_COORDINATE,
        p1.y <= MAX_COORDINATE,
        p2.x <= MAX_COORDINATE,
        p2.y <= MAX_COORDINATE,
    ensures
        final(screen)@ == plotted(old(screen)@, segment(*p1, *p2), color@),
{
    let points = bresenham(p1.x as i64, p1.y as i64, p2.x as i64, p2.y as i64);
    plot(screen, &points, color);
}

/// The buffer after the outline of the rectangle with the corners `p1` and
/// `p2` was drawn on it: four lines, which end one pixel short of `p2`.
pub open spec fn outlined(screen: Seq<u8>, p1: Point, p2: Point, color: Seq<u8>) -> Seq<u8> {
    let p2 = Point { x: (p2.x - 1) as usize, y: (p2.y - 1) as usize };
    let p3 = Point { x: p1.x, y: p2.y };
    let p4 = Point { x: p2.x, y: p1.y };
    plotted(
        plotted(plotted(plotted(screen, segment(p1, p3), color), segment(p3, p2), color), segment(p2, p4), color),
        segment(p4, p1),
        color,
    )
}

/// Draws the outline of a rectangle, given by two opposite corners.
pub fn rect(screen: &mut [u8], p1: &Point, p2: &Point, color: [u8; 4])
    requires
        old(screen)@.len() >= frame_bytes(),
        p1.x <= MAX_COORDINATE,
        p1.y <= MAX_COORDINATE,
        1 <= p2.x <= MAX_COORDINATE,
        1 <= p2.y <= MAX_COORDINATE,
    ensures
        final(screen)@ == outlined(old(screen)@, *p1, *p2, color@),
{
    let p2 = Point::new(p2.x - 1, p2.y - 1);
    let p3 = Point::new(p1.x, p2.y);
    let p4 = Point::new(p2.x, p1.y);
    line(screen, p1, &p3, color);
    line(screen, &p3, &p2, color);
    line(screen, &p2, &p4, color);
    line(screen, &p4, p1, color);
}

} // verus!
