//! The rasterizer: allocate a zero-initialized (transparent) pixel buffer of
//! exactly the target dimensions and paint the scaled document into it, node
//! by node in document order, later nodes over earlier ones. A failure aborts
//! the whole render; no partial image is handed out.

use crate::document::{
    has_text_nodes, is_text_node, node_bounds, node_color, transparent, Node, Rect, Rgba,
    VectorDocument,
};
use crate::size::{ScaleFactors, TargetDimensions};
use vstd::pervasive::VecAdditionalExecFns;
use vstd::prelude::*;

verus! {

/// Largest pixel dimension the rasterizer will allocate on either axis;
/// anything above it is treated as a pathological request.
pub const MAX_RASTER_DIMENSION: u32 = 0xffff;

/// Why a render was aborted.
#[derive(Clone, Copy, PartialEq, Eq, Structural, Debug)]
pub enum RasterError {
    /// The target has a zero or pathologically large dimension.
    AllocationFailed,
    /// A node of the document cannot be rasterized.
    RenderFailure,
}

/// Whether a pixel buffer of these dimensions can be allocated.
pub open spec fn dims_allocatable(t: TargetDimensions) -> bool {
    &&& 1 <= t.width <= MAX_RASTER_DIMENSION
    &&& 1 <= t.height <= MAX_RASTER_DIMENSION
}

/// `floor(v * num / den)`: a document-space coordinate taken to pixel space.
pub open spec fn scale_floor(v: int, num: int, den: int) -> int {
    (v * num) / den
}

/// Whether pixel `(px, py)` of the target lies inside the scaled image of
/// the box `b`: the half-open span from the scaled low edge to the scaled
/// high edge, on each axis.
pub open spec fn rect_covers(b: Rect, s: ScaleFactors, px: int, py: int) -> bool {
    &&& scale_floor(b.x as int, s.x_num as int, s.x_den as int) <= px < scale_floor(
        b.x + b.width,
        s.x_num as int,
        s.x_den as int,
    )
    &&& scale_floor(b.y as int, s.y_num as int, s.y_den as int) <= py < scale_floor(
        b.y + b.height,
        s.y_num as int,
        s.y_den as int,
    )
}

/// A buffer of `len` transparent pixels.
pub open spec fn blank(len: int) -> Seq<Rgba> {
    Seq::new(len as nat, |i: int| transparent())
}

/// One node painted over a buffer of row-major pixels with row width `tw`:
/// every pixel the node's scaled bounds cover takes the node's color, every
/// other pixel keeps what was under it.
pub open spec fn paint_node_spec(buf: Seq<Rgba>, n: Node, tw: int, s: ScaleFactors) -> Seq<Rgba> {
    Seq::new(
        buf.len(),
        |j: int|
            if rect_covers(node_bounds(n), s, j % tw, j / tw) {
                node_color(n)
            } else {
                buf[j]
            },
    )
}

/// The buffer after the first `k` nodes have been painted, in order, over a
/// transparent `tw * th` buffer.
pub open spec fn paint_upto(nodes: Seq<Node>, k: int, tw: int, th: int, s: ScaleFactors) -> Seq<
    Rgba,
>
    decreases k,
{
    if k <= 0 {
        blank(tw * th)
    } else {
        paint_node_spec(paint_upto(nodes, k - 1, tw, th, s), nodes[k - 1], tw, s)
    }
}

/// The complete render of a node list at the given target size and scale.
pub open spec fn rendered_pixels(nodes: Seq<Node>, tw: int, th: int, s: ScaleFactors) -> Seq<
    Rgba,
> {
    paint_upto(nodes, nodes.len() as int, tw, th, s)
}

/// The color of the last node in the list whose scaled bounds cover the
/// pixel, or transparent when no node covers it.
pub open spec fn last_cover_color(nodes: Seq<Node>, s: ScaleFactors, px: int, py: int) -> Rgba
    decreases nodes.len(),
{
    if nodes.len() <= 0 {
        transparent()
    } else if rect_covers(node_bounds(nodes[nodes.len() - 1]), s, px, py) {
        node_color(nodes[nodes.len() - 1])
    } else {
        last_cover_color(nodes.drop_last(), s, px, py)
    }
}

/// Painting any prefix of the node list keeps the buffer at its full size.
proof fn lemma_paint_upto_len(nodes: Seq<Node>, k: int, tw: int, th: int, s: ScaleFactors)
    requires
        tw >= 0,
        th >= 0,
    ensures
        paint_upto(nodes, k, tw, th, s).len() == tw * th,
    decreases k,
{
    assert(tw * th >= 0) by (nonlinear_arith)
        requires
            tw >= 0,
            th >= 0,
    ;
    if k > 0 {
        lemma_paint_upto_len(nodes, k - 1, tw, th, s);
    }
}

/// After the first `k` nodes are painted, a pixel holds the color of the
/// last of those nodes that covers it, else transparent.
proof fn lemma_painter_order(nodes: Seq<Node>, k: int, tw: int, th: int, s: ScaleFactors, j: int)
    requires
        0 < tw,
        0 <= th,
        0 <= k <= nodes.len(),
        0 <= j < tw * th,
    ensures
        paint_upto(nodes, k, tw, th, s)[j] == last_cover_color(nodes.take(k), s, j % tw, j / tw),
    decreases k,
{
    if k == 0 {
        assert(nodes.take(0).len() == 0);
    } else {
        lemma_painter_order(nodes, k - 1, tw, th, s, j);
        lemma_paint_upto_len(nodes, k - 1, tw, th, s);
        assert(nodes.take(k).drop_last() =~= nodes.take(k - 1));
        assert(nodes.take(k)[k - 1] == nodes[k - 1]);
    }
}

/// Paint order: every rendered pixel holds the color of the last node in
/// document order whose scaled bounds cover it — later nodes paint over
/// earlier ones — and a pixel no node covers stays transparent, as the
/// buffer was allocated.
pub proof fn lemma_rendered_pixel_is_last_cover(
    nodes: Seq<Node>,
    tw: int,
    th: int,
    s: ScaleFactors,
    j: int,
)
    requires
        0 < tw,
        0 <= th,
        0 <= j < tw * th,
    ensures
        rendered_pixels(nodes, tw, th, s)[j] == last_cover_color(nodes, s, j % tw, j / tw),
{
    lemma_painter_order(nodes, nodes.len() as int, tw, th, s, j);
    assert(nodes.take(nodes.len() as int) =~= nodes);
}

/// A grid of RGBA pixels in row-major order, written by exactly one render
/// pass and read out afterwards.
#[derive(Clone, PartialEq, Eq, Debug)]
pub struct PixelBuffer {
    width: u32,
    height: u32,
    pixels: Vec<Rgba>,
}

impl PixelBuffer {
    /// Pixel width of the buffer.
    pub closed spec fn spec_width(&self) -> u32 {
        self.width
    }

    /// Pixel height of the buffer.
    pub closed spec fn spec_height(&self) -> u32 {
        self.height
    }

    /// The pixels, row-major.
    pub closed spec fn spec_pixels(&self) -> Seq<Rgba> {
        self.pixels@
    }

    /// A buffer is well formed when its dimensions are allocatable and it
    /// holds exactly one pixel per grid cell.
    pub open spec fn wf(&self) -> bool {
        &&& 1 <= self.spec_width() <= MAX_RASTER_DIMENSION
        &&& 1 <= self.spec_height() <= MAX_RASTER_DIMENSION
        &&& self.spec_pixels().len() == self.spec_width() * self.spec_height()
    }

    /// Pixel width of the buffer.
    pub fn width(&self) -> (w: u32)
        ensures
            w == self.spec_width(),
    {
        self.width
    }

    /// Pixel height of the buffer.
    pub fn height(&self) -> (h: u32)
        ensures
            h == self.spec_height(),
    {
        self.height
    }

    /// The pixel at column `x` of row `y`.
    pub fn pixel(&self, x: u32, y: u32) -> (p: Rgba)
        requires
            self.wf(),
            x < self.spec_width(),
            y < self.spec_height(),
        ensures
            p == self.spec_pixels()[y as int * self.spec_width() as int + x as int],
    {
        proof {
            assert((y as int) * (self.width as int) + (x as int) < (self.height as int) * (
            self.width as int) && (self.height as int) * (self.width as int) <= 0xffff * 0xffff)
                by (nonlinear_arith)
                requires
                    y < self.height,
                    x < self.width,
                    1 <= self.width <= 0xffff,
                    self.height <= 0xffff,
            ;
        }
        let idx: usize = (y as usize) * (self.width as usize) + (x as usize);
        self.pixels[idx]
    }
}

/// `round(c * a / 255)`: one straight color channel scaled by its alpha.
/// The result never exceeds the alpha, so the four channels of a scaled
/// pixel form a valid premultiplied pixel.
pub open spec fn premultiplied_channel(c: u8, a: u8) -> u8 {
    ((c as int * a as int + 127) / 255) as u8
}

/// A pixel taken from straight to premultiplied form: each color channel is
/// scaled by the alpha, the alpha itself is kept.
pub open spec fn premultiplied(p: Rgba) -> Rgba {
    Rgba {
        red: premultiplied_channel(p.red, p.alpha),
        green: premultiplied_channel(p.green, p.alpha),
        blue: premultiplied_channel(p.blue, p.alpha),
        alpha: p.alpha,
    }
}

/// A pixel sequence taken pointwise to premultiplied form.
pub open spec fn premultiplied_pixels(pixels: Seq<Rgba>) -> Seq<Rgba> {
    pixels.map(|i: int, p: Rgba| premultiplied(p))
}

/// A pixel sequence flattened to RGBA bytes, four per pixel, in channel
/// order red, green, blue, alpha.
pub open spec fn rgba_bytes(pixels: Seq<Rgba>) -> Seq<u8> {
    Seq::new(
        4 * pixels.len(),
        |j: int|
            {
                let p = pixels[j / 4];
                if j % 4 == 0 {
                    p.red
                } else if j % 4 == 1 {
                    p.green
                } else if j % 4 == 2 {
                    p.blue
                } else {
                    p.alpha
                }
            },
    )
}

/// One channel scaled by its alpha, exactly as `premultiplied_channel`.
fn premultiply_channel(c: u8, a: u8) -> (r: u8)
    ensures
        r == premultiplied_channel(c, a),
{
    proof {
        assert(0 <= (c as int) * (a as int) <= 255 * 255) by (nonlinear_arith)
            requires
                0 <= c <= 255,
                0 <= a <= 255,
        ;
    }
    (((c as u32) * (a as u32) + 127) / 255) as u8
}

/// One pixel taken to premultiplied form, exactly as `premultiplied`.
fn premultiply(p: &Rgba) -> (r: Rgba)
    ensures
        r == premultiplied(*p),
{
    Rgba {
        red: premultiply_channel(p.red, p.alpha),
        green: premultiply_channel(p.green, p.alpha),
        blue: premultiply_channel(p.blue, p.alpha),
        alpha: p.alpha,
    }
}

impl PixelBuffer {
    /// The pixels premultiplied and flattened to RGBA bytes, row-major, four
    /// bytes per pixel: the grid form the PNG encoder takes.
    pub(crate) fn premultiplied_rgba_bytes(&self) -> (b: Vec<u8>)
        requires
            self.wf(),
        ensures
            b@ == rgba_bytes(premultiplied_pixels(self.spec_pixels())),
            b@.len() == 4 * self.spec_width() * self.spec_height(),
    {
        let n = self.pixels.len();
        let mut b: Vec<u8> = Vec::new();
        let mut i: usize = 0;
        while i < n
            invariant
                i <= n,
                n == self.pixels.len(),
                b@.len() == 4 * i,
                forall|j: int|
                    0 <= j < 4 * i ==> b@[j] == rgba_bytes(premultiplied_pixels(self.pixels@))[j],
            decreases n - i,
        {
            let p = premultiply(&self.pixels[i]);
            b.push(p.red);
            b.push(p.green);
            b.push(p.blue);
            b.push(p.alpha);
            proof {
                let k = i as int;
                assert((4 * k) / 4 == k && (4 * k) % 4 == 0);
                assert((4 * k + 1) / 4 == k && (4 * k + 1) % 4 == 1);
                assert((4 * k + 2) / 4 == k && (4 * k + 2) % 4 == 2);
                assert((4 * k + 3) / 4 == k && (4 * k + 3) % 4 == 3);
            }
            i = i + 1;
        }
        proof {
            assert(b@ =~= rgba_bytes(premultiplied_pixels(self.pixels@)));
            assert(4 * ((self.width as int) * (self.height as int)) == 4 * (self.width as int) * (
            self.height as int)) by (nonlinear_arith);
        }
        b
    }
}

/// Scale a document-space coordinate to pixel space, exactly.
fn scale_floor_exec(v: u64, num: u32, den: u32) -> (r: u128)
    requires
        den > 0,
    ensures
        r == scale_floor(v as int, num as int, den as int),
{
    proof {
        assert((v as int) * (num as int) < u128::MAX as int) by (nonlinear_arith)
            requires
                v <= u64::MAX,
                num <= u32::MAX,
        ;
        assert((v as int) * (num as int) >= 0) by (nonlinear_arith)
            requires
                v >= 0,
                num >= 0,
        ;
    }
    ((v as u128) * (num as u128)) / (den as u128)
}

/// Whether pixel `(px, py)` lies inside the scaled image of the box `b`.
fn rect_covers_exec(b: &Rect, s: &ScaleFactors, px: u32, py: u32) -> (r: bool)
    requires
        s.x_den > 0,
        s.y_den > 0,
    ensures
        r == rect_covers(*b, *s, px as int, py as int),
{
    let x0 = scale_floor_exec(b.x as u64, s.x_num, s.x_den);
    let x1 = scale_floor_exec(b.x as u64 + b.width as u64, s.x_num, s.x_den);
    let y0 = scale_floor_exec(b.y as u64, s.y_num, s.y_den);
    let y1 = scale_floor_exec(b.y as u64 + b.height as u64, s.y_num, s.y_den);
    x0 <= px as u128 && (px as u128) < x1 && y0 <= py as u128 && (py as u128) < y1
}

/// Paint one node over the whole buffer, pixel by pixel in row-major order.
fn paint_node(pixels: &mut Vec<Rgba>, node: &Node, tw: u32, th: u32, s: &ScaleFactors)
    requires
        old(pixels)@.len() == tw * th,
        1 <= tw <= MAX_RASTER_DIMENSION,
        1 <= th <= MAX_RASTER_DIMENSION,
        s.x_den > 0,
        s.y_den > 0,
    ensures
        final(pixels)@ == paint_node_spec(old(pixels)@, *node, tw as int, *s),
{
    let (bounds, color): (&Rect, &Rgba) = match node {
        Node::Shape { bounds, color } => (bounds, color),
        Node::Text { bounds, color, .. } => (bounds, color),
        Node::Outline { bounds, color, .. } => (bounds, color),
    };
    proof {
        assert((tw as int) * (th as int) <= 0xffff * 0xffff) by (nonlinear_arith)
            requires
                tw <= 0xffff,
                th <= 0xffff,
        ;
    }
    let total: u32 = tw * th;
    let mut j: u32 = 0;
    while j < total
        invariant
            total == tw * th,
            pixels@.len() == total,
            old(pixels)@.len() == total,
            1 <= tw,
            s.x_den > 0,
            s.y_den > 0,
            node_bounds(*node) == *bounds,
            node_color(*node) == *color,
            forall|k: int|
                0 <= k < j ==> pixels@[k] == paint_node_spec(old(pixels)@, *node, tw as int, *s)[k],
            forall|k: int| j <= k < total ==> pixels@[k] == old(pixels)@[k],
        decreases total - j,
    {
        let px = j % tw;
        let py = j / tw;
        if rect_covers_exec(bounds, s, px, py) {
            pixels.set(j as usize, *color);
        }
        j = j + 1;
    }
    proof {
        assert(pixels@ =~= paint_node_spec(old(pixels)@, *node, tw as int, *s));
    }
}

/// Render the (text-resolved) document into a freshly allocated transparent
/// buffer of exactly the target dimensions, scaling every node by the given
/// per-axis ratios and painting in document order.
///
/// Fails with `AllocationFailed` when the target has a zero or pathologically
/// large dimension, and with `RenderFailure` when an unresolved text
/// placeholder remains, since such a node cannot be rasterized; either way
/// the whole render is aborted.
pub fn render(doc: &VectorDocument, target: &TargetDimensions, scale: &ScaleFactors) -> (r: Result<
    PixelBuffer,
    RasterError,
>)
    requires
        scale.x_den > 0,
        scale.y_den > 0,
    ensures
        (r == Err::<PixelBuffer, RasterError>(RasterError::AllocationFailed) <==> !dims_allocatable(
            *target,
        )),
        (r == Err::<PixelBuffer, RasterError>(RasterError::RenderFailure) <==> (dims_allocatable(
            *target,
        ) && has_text_nodes(doc.nodes@))),
        (r is Ok <==> (dims_allocatable(*target) && !has_text_nodes(doc.nodes@))),
        (r matches Ok(buf) ==> {
            &&& buf.wf()
            &&& buf.spec_width() == target.width
            &&& buf.spec_height() == target.height
            &&& buf.spec_pixels() == rendered_pixels(
                doc.nodes@,
                target.width as int,
                target.height as int,
                *scale,
            )
        }),
{
    let tw = target.width;
    let th = target.height;
    if tw < 1 || tw > MAX_RASTER_DIMENSION || th < 1 || th > MAX_RASTER_DIMENSION {
        return Err(RasterError::AllocationFailed);
    }
    let n = doc.nodes.len();
    let mut i: usize = 0;
    while i < n
        invariant
            n == doc.nodes.len(),
            dims_allocatable(*target),
            forall|k: int| 0 <= k < i ==> !is_text_node(doc.nodes@[k]),
        decreases n - i,
    {
        match &doc.nodes[i] {
            Node::Text { .. } => {
                proof {
                    assert(is_text_node(doc.nodes@[i as int]));
                    assert(has_text_nodes(doc.nodes@));
                }
                return Err(RasterError::RenderFailure);
            },
            _ => {},
        }
        i = i + 1;
    }
    proof {
        assert(!has_text_nodes(doc.nodes@));
    }
    proof {
        assert(tw * th <= 0xffff * 0xffff) by (nonlinear_arith)
            requires
                tw <= 0xffff,
                th <= 0xffff,
        ;
    }
    let total: u32 = tw * th;
    let mut pixels: Vec<Rgba> = Vec::new();
    let mut j: u32 = 0;
    while j < total
        invariant
            j <= total,
            pixels@.len() == j,
            forall|k: int| 0 <= k < j ==> pixels@[k] == transparent(),
        decreases total - j,
    {
        pixels.push(Rgba { red: 0, green: 0, blue: 0, alpha: 0 });
        j = j + 1;
    }
    proof {
        assert(pixels@ =~= blank(tw as int * th as int));
    }
    let mut i: usize = 0;
    while i < n
        invariant
            i <= n,
            n == doc.nodes.len(),
            total == tw * th,
            1 <= tw <= MAX_RASTER_DIMENSION,
            1 <= th <= MAX_RASTER_DIMENSION,
            scale.x_den > 0,
            scale.y_den > 0,
            pixels@.len() == total,
            pixels@ == paint_upto(doc.nodes@, i as int, tw as int, th as int, *scale),
        decreases n - i,
    {
        paint_node(&mut pixels, &doc.nodes[i], tw, th, scale);
        i = i + 1;
    }
    Ok(PixelBuffer { width: tw, height: th, pixels })
}

} // verus!
