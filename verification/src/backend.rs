//! Host-facing calls: discovering the fonts installed on the machine,
//! parsing SVG markup into a document tree, shaping its text against the
//! host fonts, and encoding a finished pixel grid as PNG bytes.

use crate::raster::{premultiplied_pixels, rgba_bytes, PixelBuffer, MAX_RASTER_DIMENSION};
use vstd::prelude::*;

verus! {

#[verifier::external_type_specification]
#[verifier::external_body]
pub struct ExSvgTree(usvg::Tree);

#[verifier::external_type_specification]
#[verifier::external_body]
pub struct ExFontDatabase(usvg::fontdb::Database);

/// Whether the markup parses as SVG under the default parsing options.
pub uninterp spec fn svg_parse_ok(data: Seq<u8>) -> bool;

/// The parsed document's intrinsic width in whole pixels.
pub uninterp spec fn svg_px_width(data: Seq<u8>) -> u32;

/// The parsed document's intrinsic height in whole pixels.
pub uninterp spec fn svg_px_height(data: Seq<u8>) -> u32;

/// Relies on usvg::Tree::from_data under usvg::Options::default, and on
/// usvg::Size::to_int_size: whether the markup parses, and its intrinsic
/// size rounded to whole pixels and floored at one pixel on each axis, are
/// functions of the bytes alone (the default options name no resource
/// directory, so nothing outside the bytes is consulted).
#[verifier::external_body]
pub(crate) fn parse_svg_tree(data: &[u8]) -> (r: Option<(usvg::Tree, u32, u32)>)
    ensures
        r is Some <==> svg_parse_ok(data@),
        r matches Some(t) ==> {
            &&& t.1 == svg_px_width(data@)
            &&& t.2 == svg_px_height(data@)
            &&& t.1 >= 1
            &&& t.2 >= 1
        },
{
    let opt = usvg::Options::default();
    let tree = <usvg::Tree as usvg::TreeParsing>::from_data(data, &opt).ok()?;
    let size = tree.size.to_int_size();
    let (w, h) = (size.width(), size.height());
    Some((tree, w, h))
}

/// Relies on usvg::Tree::convert_text: replaces the tree's text nodes in
/// place with outline paths shaped against the given font database.
#[verifier::external_body]
pub(crate) fn convert_text_tree(tree: &mut usvg::Tree, db: &usvg::fontdb::Database) {
    usvg::TreeTextToPath::convert_text(tree, db);
}

/// Relies on usvg::fontdb::Database::new: an empty font database.
#[verifier::external_body]
pub(crate) fn new_font_database() -> usvg::fontdb::Database {
    usvg::fontdb::Database::new()
}

/// Relies on usvg::fontdb::Database::load_system_fonts: reads the host's
/// font directories into the database. What it finds depends on the machine;
/// finding nothing is the degraded empty-catalog mode, not an error.
#[verifier::external_body]
pub(crate) fn load_system_fonts(db: &mut usvg::fontdb::Database) {
    db.load_system_fonts();
}

/// Relies on usvg::fontdb::Database::faces: the first family name of each
/// face, in the database's order. The contents depend on the machine.
#[verifier::external_body]
pub(crate) fn font_family_names(db: &usvg::fontdb::Database) -> Vec<String> {
    db.faces().filter_map(|f| f.families.first().map(|fam| fam.0.clone())).collect()
}

/// The PNG encoding of a grid of RGBA bytes, as the encoder produces it.
pub uninterp spec fn png_bytes_of(data: Seq<u8>, width: u32, height: u32) -> Seq<u8>;

/// Relies on tiny_skia::Pixmap::from_vec and Pixmap::encode_png: the bytes
/// are taken as a premultiplied RGBA grid of the given dimensions and encoded
/// as a PNG stream, which always opens with the fixed eight-byte PNG
/// signature. The encoding depends on the bytes and dimensions alone, and it
/// succeeds on every admitted input: the dimensions fit the encoder's row
/// limit, the length matches the grid, and the writer targets a byte vector.
#[verifier::external_body]
pub(crate) fn encode_rgba_png(data: Vec<u8>, width: u32, height: u32) -> (r: Option<Vec<u8>>)
    requires
        1 <= width <= MAX_RASTER_DIMENSION,
        1 <= height <= MAX_RASTER_DIMENSION,
        data@.len() == 4 * width * height,
    ensures
        r is Some,
        r matches Some(b) ==> {
            &&& b@ == png_bytes_of(data@, width, height)
            &&& b@.len() >= 8
            &&& b@[0] == 137u8
            &&& b@[1] == 80u8
            &&& b@[2] == 78u8
            &&& b@[3] == 71u8
        },
{
    let size = tiny_skia::IntSize::from_wh(width, height)?;
    let pixmap = tiny_skia::Pixmap::from_vec(data, size)?;
    pixmap.encode_png().ok()
}

/// Parse SVG markup, shape its text against the given font database, and
/// report the tree together with its intrinsic pixel size, which is at least
/// one pixel on each axis. Succeeds exactly when the markup parses; text
/// shaping never fails and does not change the intrinsic size.
pub fn prepare_svg(data: &[u8], db: &usvg::fontdb::Database) -> (r: Option<(usvg::Tree, u32, u32)>)
    ensures
        r is Some <==> svg_parse_ok(data@),
        r matches Some(t) ==> {
            &&& t.1 == svg_px_width(data@)
            &&& t.2 == svg_px_height(data@)
            &&& t.1 >= 1
            &&& t.2 >= 1
        },
{
    match parse_svg_tree(data) {
        None => None,
        Some((mut tree, w, h)) => {
            convert_text_tree(&mut tree, db);
            Some((tree, w, h))
        },
    }
}

/// Build the host's font database and the catalog of its family names: the
/// database shapes text in SVG trees, the catalog answers family lookups.
/// An empty result is the degraded no-font mode, not an error.
pub fn load_host_fonts() -> (usvg::fontdb::Database, crate::fonts::FontCatalog) {
    let mut db = new_font_database();
    load_system_fonts(&mut db);
    let names = font_family_names(&db);
    let catalog = crate::fonts::FontCatalog::build(names);
    (db, catalog)
}

impl PixelBuffer {
    /// Encode the buffer as PNG bytes: the pixels are premultiplied — the
    /// form the encoder takes — and flattened row-major. Encoding a
    /// well-formed buffer always succeeds.
    pub fn encode_png(&self) -> (r: Option<Vec<u8>>)
        requires
            self.wf(),
        ensures
            r is Some,
            r matches Some(b) ==> {
                &&& b@ == png_bytes_of(
                    rgba_bytes(premultiplied_pixels(self.spec_pixels())),
                    self.spec_width(),
                    self.spec_height(),
                )
                &&& b@.len() >= 8
                &&& b@[0] == 137u8
                &&& b@[1] == 80u8
                &&& b@[2] == 78u8
                &&& b@[3] == 71u8
            },
    {
        let bytes = self.premultiplied_rgba_bytes();
        encode_rgba_png(bytes, self.width(), self.height())
    }
}

} // verus!
