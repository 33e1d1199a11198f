use vstd::prelude::*;
use image::{Rgb, RgbImage};

verus! {

/// An 8-bit RGB image held in the image crate's buffer.
#[verifier::external_body]
pub struct Canvas {
    img: RgbImage,
}

/// The row-major RGB samples of a canvas, three per pixel.
pub uninterp spec fn canvas_samples(c: Canvas) -> Seq<u8>;

/// The width in pixels of a canvas.
pub uninterp spec fn canvas_width(c: Canvas) -> nat;

/// The height in pixels of a canvas.
pub uninterp spec fn canvas_height(c: Canvas) -> nat;

/// Relies on image::ImageBuffer::new: a zero-filled buffer of
/// `3 * width * height` samples, which panics only when that length overflows.
#[verifier::external_body]
fn new_canvas(width: u32, height: u32) -> (r: Canvas)
    requires
        3 * width * height <= usize::MAX,
    ensures
        canvas_samples(r) == Seq::new((3 * width * height) as nat, |i: int| 0u8),
        canvas_width(r) == width,
        canvas_height(r) == height,
{
    Canvas { img: RgbImage::new(width, height) }
}

/// Relies on image::ImageBuffer::put_pixel: the pixel `(x, y)` occupies the three
/// samples from `3 * (y * width + x)`; it panics when `x` or `y` is out of bounds.
#[verifier::external_body]
fn put_rgb(c: &mut Canvas, x: u32, y: u32, rgb: [u8; 3])
    requires
        x < canvas_width(*old(c)),
        y < canvas_height(*old(c)),
        3 * (y * canvas_width(*old(c)) + x) + 2 < canvas_samples(*old(c)).len(),
    ensures
        canvas_width(*final(c)) == canvas_width(*old(c)),
        canvas_height(*final(c)) == canvas_height(*old(c)),
        canvas_samples(*final(c)) == canvas_samples(*old(c)).update(
            3 * (y * canvas_width(*old(c)) + x),
            rgb[0],
        ).update(3 * (y * canvas_width(*old(c)) + x) + 1, rgb[1]).update(
            3 * (y * canvas_width(*old(c)) + x) + 2,
            rgb[2],
        ),
{
    c.img.put_pixel(x, y, Rgb(rgb))
}

/// Relies on image::ImageBuffer::into_raw: the samples, as stored.
#[verifier::external_body]
fn canvas_into_raw(c: Canvas) -> (r: Vec<u8>)
    ensures
        r@ == canvas_samples(c),
{
    c.img.into_raw()
}

} // verus!

verus! {

/// Image row that receives scene row `y`: higher `y` is nearer the top.
pub open spec fn spec_image_row(height: int, y: int) -> int {
    height - 1 - y
}

/// First sample of the pixel that scene coordinates `(x, y)` land on.
pub open spec fn sample_offset(width: int, height: int, x: int, y: int) -> int {
    3 * (spec_image_row(height, y) * width + x)
}

/// Position in render order (`x` major, `y` minor) of the pixel stored at
/// row-major index `p` of the image.
pub open spec fn render_position(width: int, height: int, p: int) -> int {
    (p % width) * height + spec_image_row(height, p / width)
}

/// The samples of an image whose pixel colors are listed in render order.
pub open spec fn assembled_samples(width: int, height: int, colors: Seq<[u8; 3]>) -> Seq<u8> {
    Seq::new(
        (3 * width * height) as nat,
        |i: int| colors[render_position(width, height, i / 3)][i % 3],
    )
}

/// Image row of scene row `y`.
pub fn image_row(height: u32, y: u32) -> (r: u32)
    requires
        y < height,
    ensures
        r == spec_image_row(height as int, y as int),
{
    height - 1 - y
}

/// The pixel of render position `k` lies at row-major index `p` of the image, and
/// no other pixel has that position.
proof fn lemma_render_position(width: int, height: int, k: int) -> (p: int)
    requires
        width > 0,
        height > 0,
        0 <= k < width * height,
    ensures
        0 <= p < width * height,
        0 <= k / height < width,
        0 <= k % height < height,
        p == spec_image_row(height, k % height) * width + k / height,
        render_position(width, height, p) == k,
        forall|q: int|
            0 <= q < width * height && render_position(width, height, q) == k ==> q == p,
{
    let x = k / height;
    let y = k % height;
    vstd::arithmetic::div_mod::lemma_fundamental_div_mod(k, height);
    assert(x < width) by (nonlinear_arith)
        requires
            k == height * x + y,
            0 <= y,
            k < width * height,
            height > 0,
    ;
    assert(0 <= x) by (nonlinear_arith)
        requires
            k == height * x + y,
            0 <= y < height,
            k >= 0,
    ;
    let r = height - 1 - y;
    let p = r * width + x;
    assert(0 <= p < width * height) by (nonlinear_arith)
        requires
            p == r * width + x,
            0 <= r < height,
            0 <= x < width,
    ;
    vstd::arithmetic::div_mod::lemma_fundamental_div_mod_converse(p, width, r, x);
    assert(render_position(width, height, p) == x * height + y);
    assert(x * height + y == k) by (nonlinear_arith)
        requires
            k == height * x + y,
    ;
    assert forall|q: int|
        0 <= q < width * height && render_position(width, height, q) == k implies q == p by {
        let c = q % width;
        let rq = q / width;
        vstd::arithmetic::div_mod::lemma_fundamental_div_mod(q, width);
        assert(0 <= rq < height) by (nonlinear_arith)
            requires
                q == width * rq + c,
                0 <= c < width,
                0 <= q < width * height,
        ;
        vstd::arithmetic::div_mod::lemma_fundamental_div_mod_converse(
            k,
            height,
            c,
            height - 1 - rq,
        );
        assert(q == rq * width + c) by (nonlinear_arith)
            requires
                q == width * rq + c,
        ;
    }
    p
}

/// Every row-major pixel index has a render position inside the image.
proof fn lemma_render_position_bound(width: int, height: int, p: int)
    requires
        width > 0,
        height > 0,
        0 <= p < width * height,
    ensures
        0 <= render_position(width, height, p) < width * height,
{
    let c = p % width;
    let r = p / width;
    vstd::arithmetic::div_mod::lemma_fundamental_div_mod(p, width);
    assert(0 <= r < height) by (nonlinear_arith)
        requires
            p == width * r + c,
            0 <= c < width,
            0 <= p < width * height,
    ;
    assert(0 <= c * height + (height - 1 - r) < width * height) by (nonlinear_arith)
        requires
            0 <= c < width,
            0 <= r < height,
    ;
}

/// The image being rendered: a `width` by `height` RGB canvas that takes
/// pixels in scene coordinates, with row 0 at the bottom of the scene.
pub struct Film {
    width: u32,
    height: u32,
    canvas: Canvas,
}

impl Film {
    pub closed spec fn wf(&self) -> bool {
        &&& self.width > 0
        &&& self.height > 0
        &&& canvas_width(self.canvas) == self.width
        &&& canvas_height(self.canvas) == self.height
        &&& canvas_samples(self.canvas).len() == 3 * self.width * self.height
    }

    pub closed spec fn spec_width(&self) -> nat {
        self.width as nat
    }

    pub closed spec fn spec_height(&self) -> nat {
        self.height as nat
    }

    /// Row-major RGB samples, row 0 at the top of the image.
    pub closed spec fn samples(&self) -> Seq<u8> {
        canvas_samples(self.canvas)
    }

    /// A black film.
    pub fn new(width: u32, height: u32) -> (r: Film)
        requires
            width > 0,
            height > 0,
            3 * width * height <= usize::MAX,
        ensures
            r.wf(),
            r.spec_width() == width,
            r.spec_height() == height,
            r.samples() == Seq::new((3 * width * height) as nat, |i: int| 0u8),
    {
        Film { width, height, canvas: new_canvas(width, height) }
    }

    pub fn width(&self) -> (r: u32)
        ensures
            r == self.spec_width(),
    {
        self.width
    }

    pub fn height(&self) -> (r: u32)
        ensures
            r == self.spec_height(),
    {
        self.height
    }

    /// Stores the color of scene pixel `(x, y)` at image row `height - 1 - y`.
    pub fn put(&mut self, x: u32, y: u32, rgb: [u8; 3])
        requires
            old(self).wf(),
            x < old(self).spec_width(),
            y < old(self).spec_height(),
        ensures
            final(self).wf(),
            final(self).spec_width() == old(self).spec_width(),
            final(self).spec_height() == old(self).spec_height(),
            final(self).samples() == old(self).samples().update(
                sample_offset(old(self).spec_width() as int, old(self).spec_height() as int, x as int, y as int),
                rgb[0],
            ).update(
                sample_offset(old(self).spec_width() as int, old(self).spec_height() as int, x as int, y as int)
                    + 1,
                rgb[1],
            ).update(
                sample_offset(old(self).spec_width() as int, old(self).spec_height() as int, x as int, y as int)
                    + 2,
                rgb[2],
            ),
    {
        let row = image_row(self.height, y);
        proof {
            let w = self.width as int;
            let h = self.height as int;
            assert(3 * (row * w + x) + 2 < 3 * w * h) by (nonlinear_arith)
                requires
                    0 <= row < h,
                    0 <= x < w,
            ;
        }
        put_rgb(&mut self.canvas, x, row, rgb);
    }

    /// The samples, row-major, row 0 at the top.
    pub fn into_samples(self) -> (r: Vec<u8>)
        ensures
            r@ == self.samples(),
    {
        canvas_into_raw(self.canvas)
    }
}

/// Builds the image from pixel colors listed in render order: entry `k` is the
/// color of scene pixel `(k / height, k % height)`.
pub fn assemble(width: u32, height: u32, colors: &Vec<[u8; 3]>) -> (r: Vec<u8>)
    requires
        width > 0,
        height > 0,
        3 * width * height <= usize::MAX,
        colors@.len() == width * height,
    ensures
        r@ == assembled_samples(width as int, height as int, colors@),
{
    let mut film = Film::new(width, height);
    let n: usize = colors.len();
    let w = Ghost(width as int);
    let h = Ghost(height as int);
    let mut k: usize = 0;
    assert(3 * w@ * h@ == 3 * (w@ * h@)) by (nonlinear_arith);
    assert forall|i: int| 0 <= i < 3 * w@ * h@ implies #[trigger] film.samples()[i] == 0u8
        && 0 <= render_position(w@, h@, i / 3) by {
        lemma_render_position_bound(w@, h@, i / 3);
    }
    while k < n
        invariant
            film.wf(),
            film.spec_width() == width,
            film.spec_height() == height,
            n == colors@.len(),
            n == w@ * h@,
            w@ == width,
            h@ == height,
            0 <= k <= n,
            film.samples().len() == 3 * w@ * h@,
            3 * w@ * h@ == 3 * (w@ * h@),
            forall|i: int|
                0 <= i < 3 * w@ * h@ ==> #[trigger] film.samples()[i] == if render_position(
                    w@,
                    h@,
                    i / 3,
                ) < k {
                    colors@[render_position(w@, h@, i / 3)][i % 3]
                } else {
                    0u8
                },
        decreases n - k,
    {
        let ghost p = lemma_render_position(w@, h@, k as int);
        let x: u32 = (k / height as usize) as u32;
        let y: u32 = (k % height as usize) as u32;
        let ghost before = film.samples();
        film.put(x, y, colors[k]);
        proof {
            assert(sample_offset(w@, h@, x as int, y as int) == 3 * p);
            assert forall|i: int| 0 <= i < 3 * w@ * h@ implies #[trigger] film.samples()[i] == if render_position(
                w@,
                h@,
                i / 3,
            ) < k + 1 {
                colors@[render_position(w@, h@, i / 3)][i % 3]
            } else {
                0u8
            } by {
                lemma_render_position_bound(w@, h@, i / 3);
                if i / 3 == p {
                    assert(i == 3 * p || i == 3 * p + 1 || i == 3 * p + 2);
                } else {
                    assert(i != 3 * p && i != 3 * p + 1 && i != 3 * p + 2);
                    assert(film.samples()[i] == before[i]);
                    assert(render_position(w@, h@, i / 3) != k);
                }
            }
        }
        k += 1;
    }
    proof {
        assert forall|i: int| 0 <= i < 3 * w@ * h@ implies #[trigger] render_position(w@, h@, i / 3) < k by {
            lemma_render_position_bound(w@, h@, i / 3);
        }
    }
    let r = film.into_samples();
    assert(r@ =~= assembled_samples(width as int, height as int, colors@));
    r
}

} // verus!
