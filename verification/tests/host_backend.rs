use mathimg::backend::{load_host_fonts, prepare_svg};
use mathimg::document::{Node, Rect, Rgba, VectorDocument};
use mathimg::raster::render;
use mathimg::size::{ScaleFactors, TargetDimensions};

#[test]
fn encode_png_produces_a_png_stream() {
    let doc = VectorDocument {
        width: 2,
        height: 2,
        nodes: vec![Node::Shape {
            bounds: Rect { x: 0, y: 0, width: 1, height: 1 },
            color: Rgba { red: 255, green: 0, blue: 0, alpha: 255 },
        }],
    };
    let target = TargetDimensions { width: 2, height: 2 };
    let scale = ScaleFactors { x_num: 2, x_den: 2, y_num: 2, y_den: 2 };
    let buf = render(&doc, &target, &scale).unwrap();
    let png = buf.encode_png().unwrap();
    assert_eq!(&png[..8], &[137, 80, 78, 71, 13, 10, 26, 10]);

    // Decode it back with the raster library and check the painted pixel.
    let pixmap = tiny_skia::Pixmap::decode_png(&png).unwrap();
    assert_eq!(pixmap.width(), 2);
    assert_eq!(pixmap.height(), 2);
    let px = pixmap.pixel(0, 0).unwrap();
    assert_eq!((px.red(), px.green(), px.blue(), px.alpha()), (255, 0, 0, 255));
    let empty = pixmap.pixel(1, 1).unwrap();
    assert_eq!(empty.alpha(), 0);
}

#[test]
fn encode_png_premultiplies_semi_transparent_pixels() {
    let doc = VectorDocument {
        width: 2,
        height: 2,
        nodes: vec![Node::Shape {
            bounds: Rect { x: 0, y: 0, width: 1, height: 1 },
            color: Rgba { red: 255, green: 0, blue: 0, alpha: 128 },
        }],
    };
    let target = TargetDimensions { width: 2, height: 2 };
    let scale = ScaleFactors { x_num: 2, x_den: 2, y_num: 2, y_den: 2 };
    let buf = render(&doc, &target, &scale).unwrap();
    let png = buf.encode_png().unwrap();

    // The straight color (255, 0, 0, 128) survives the encoder's
    // premultiplied form: decoding yields the premultiplied (128, 0, 0, 128).
    let pixmap = tiny_skia::Pixmap::decode_png(&png).unwrap();
    let px = pixmap.pixel(0, 0).unwrap();
    assert_eq!((px.red(), px.green(), px.blue(), px.alpha()), (128, 0, 0, 128));
}

#[test]
fn prepare_svg_reports_intrinsic_size() {
    let (db, _) = load_host_fonts();
    let svg = b"<svg xmlns='http://www.w3.org/2000/svg' width='100' height='50'><rect x='0' y='0' width='10' height='10' fill='red'/></svg>";
    let (_, w, h) = prepare_svg(svg, &db).unwrap();
    assert_eq!((w, h), (100, 50));
}

#[test]
fn prepare_svg_rejects_malformed_markup() {
    let (db, _) = load_host_fonts();
    assert!(prepare_svg(b"this is not svg", &db).is_none());
}

#[test]
fn host_fonts_catalog_falls_back_consistently() {
    let (_db, catalog) = load_host_fonts();
    // Whatever the host offers, an unknown family resolves to the fallback
    // face of a non-empty catalog and to nothing in the degraded empty mode.
    let r = catalog.lookup(&String::from("NoSuchFamilyName"));
    if catalog.face_count() == 0 {
        assert_eq!(r, None);
    } else {
        assert_eq!(r, Some(0));
    }
}
