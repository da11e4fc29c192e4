use mathimg::document::{Node, Rect, Rgba, VectorDocument};
use mathimg::fonts::FontCatalog;
use mathimg::text::resolve_text;

fn rect(x: u32, y: u32, w: u32, h: u32) -> Rect {
    Rect { x, y, width: w, height: h }
}

fn black() -> Rgba {
    Rgba { red: 0, green: 0, blue: 0, alpha: 255 }
}

fn catalog() -> FontCatalog {
    FontCatalog::build(vec![String::from("Serif"), String::from("Mono"), String::from("Serif")])
}

#[test]
fn lookup_finds_first_matching_family() {
    let c = catalog();
    assert_eq!(c.face_count(), 3);
    assert_eq!(c.lookup(&String::from("Mono")), Some(1));
    assert_eq!(c.lookup(&String::from("Serif")), Some(0));
}

#[test]
fn lookup_falls_back_to_first_face() {
    let c = catalog();
    assert_eq!(c.lookup(&String::from("Nope")), Some(0));
}

#[test]
fn lookup_in_empty_catalog_finds_nothing() {
    let c = FontCatalog::build(Vec::new());
    assert_eq!(c.face_count(), 0);
    assert_eq!(c.lookup(&String::from("Serif")), None);
}

#[test]
fn resolve_replaces_text_in_place() {
    let mut doc = VectorDocument {
        width: 100,
        height: 50,
        nodes: vec![
            Node::Shape { bounds: rect(0, 0, 10, 10), color: black() },
            Node::Text { family: String::from("Mono"), bounds: rect(1, 2, 3, 4), color: black() },
            Node::Text { family: String::from("Nope"), bounds: rect(5, 6, 7, 8), color: black() },
        ],
    };
    resolve_text(&mut doc, &catalog());
    assert_eq!(doc.width, 100);
    assert_eq!(doc.height, 50);
    assert_eq!(
        doc.nodes,
        vec![
            Node::Shape { bounds: rect(0, 0, 10, 10), color: black() },
            Node::Outline { face: Some(1), bounds: rect(1, 2, 3, 4), color: black() },
            Node::Outline { face: Some(0), bounds: rect(5, 6, 7, 8), color: black() },
        ]
    );
}

#[test]
fn resolve_with_empty_catalog_degrades_to_no_face() {
    let mut doc = VectorDocument {
        width: 10,
        height: 10,
        nodes: vec![Node::Text {
            family: String::from("Serif"),
            bounds: rect(0, 0, 1, 1),
            color: black(),
        }],
    };
    resolve_text(&mut doc, &FontCatalog::build(Vec::new()));
    assert_eq!(
        doc.nodes,
        vec![Node::Outline { face: None, bounds: rect(0, 0, 1, 1), color: black() }]
    );
}

#[test]
fn resolving_twice_equals_resolving_once() {
    let base = VectorDocument {
        width: 100,
        height: 50,
        nodes: vec![
            Node::Text { family: String::from("Mono"), bounds: rect(1, 2, 3, 4), color: black() },
            Node::Shape { bounds: rect(0, 0, 10, 10), color: black() },
            Node::Text { family: String::from("Nope"), bounds: rect(5, 6, 7, 8), color: black() },
        ],
    };
    let c = catalog();
    let mut once = base.clone();
    resolve_text(&mut once, &c);
    let mut twice = base;
    resolve_text(&mut twice, &c);
    resolve_text(&mut twice, &c);
    assert_eq!(once, twice);
}
