//! Text resolution: walk the document in node order and replace every text
//! placeholder in place with an outline node shaped by the font catalog.
//! Resolving a document with no remaining text nodes is a no-op, so the pass
//! is idempotent; it never changes the intrinsic size.

use crate::document::{has_text_nodes, is_text_node, Node, VectorDocument};
use crate::fonts::{spec_lookup, FontCatalog};
use vstd::prelude::*;

verus! {

/// The face identifier a family resolves to, in the document's own terms.
pub open spec fn spec_face(cat: Seq<Seq<char>>, fam: Seq<char>) -> Option<usize> {
    match spec_lookup(cat, fam) {
        Some(i) => Some(i as usize),
        None => None,
    }
}

/// What one resolution pass makes of a single node: a text placeholder
/// becomes an outline node with the looked-up face and the same bounds and
/// color; every other node is untouched.
pub open spec fn resolve_node_spec(n: Node, cat: Seq<Seq<char>>) -> Node {
    match n {
        Node::Text { family, bounds, color } => Node::Outline {
            face: spec_face(cat, family@),
            bounds,
            color,
        },
        _ => n,
    }
}

/// What one resolution pass makes of a whole node list, in document order.
pub open spec fn resolved_nodes(nodes: Seq<Node>, cat: Seq<Seq<char>>) -> Seq<Node> {
    nodes.map(|i: int, n: Node| resolve_node_spec(n, cat))
}

/// A resolution pass leaves no text placeholder behind.
pub proof fn lemma_resolved_has_no_text(nodes: Seq<Node>, cat: Seq<Seq<char>>)
    ensures
        !has_text_nodes(resolved_nodes(nodes, cat)),
{
    assert forall|i: int| 0 <= i < resolved_nodes(nodes, cat).len() implies !is_text_node(
        resolved_nodes(nodes, cat)[i],
    ) by {
        assert(resolved_nodes(nodes, cat)[i] == resolve_node_spec(nodes[i], cat));
    }
}

/// Text resolution is idempotent: a second pass over an already-resolved
/// node list returns it unchanged, so running the resolver twice produces
/// the same final node set as running it once.
pub proof fn lemma_text_resolution_idempotent(nodes: Seq<Node>, cat: Seq<Seq<char>>)
    ensures
        resolved_nodes(resolved_nodes(nodes, cat), cat) == resolved_nodes(nodes, cat),
{
    let once = resolved_nodes(nodes, cat);
    assert forall|i: int| 0 <= i < once.len() implies resolved_nodes(once, cat)[i] == once[i] by {
        assert(once[i] == resolve_node_spec(nodes[i], cat));
    }
    assert(resolved_nodes(once, cat) =~= once);
}

/// Resolve one node against the catalog.
fn resolve_node(node: Node, catalog: &FontCatalog) -> (r: Node)
    ensures
        r == resolve_node_spec(node, catalog.families()),
{
    match node {
        Node::Text { family, bounds, color } => {
            let face = catalog.lookup(&family);
            Node::Outline { face, bounds, color }
        },
        other => other,
    }
}

/// Replace every text placeholder of the document, in document order, with
/// the outline node the catalog resolves it to. Non-text nodes and the
/// intrinsic size are untouched, and no text node remains afterwards.
pub fn resolve_text(doc: &mut VectorDocument, catalog: &FontCatalog)
    ensures
        final(doc).width == old(doc).width,
        final(doc).height == old(doc).height,
        final(doc).nodes@ == resolved_nodes(old(doc).nodes@, catalog.families()),
        !has_text_nodes(final(doc).nodes@),
{
    let ghost orig: Seq<Node> = doc.nodes@;
    let mut resolved: Vec<Node> = Vec::new();
    while doc.nodes.len() > 0
        invariant
            resolved.len() <= orig.len(),
            doc.nodes@ == orig.subrange(resolved.len() as int, orig.len() as int),
            forall|j: int|
                0 <= j < resolved.len() ==> resolved@[j] == resolve_node_spec(
                    orig[j],
                    catalog.families(),
                ),
            doc.width == old(doc).width,
            doc.height == old(doc).height,
        decreases doc.nodes.len(),
    {
        let ghost k = resolved.len() as int;
        let node = doc.nodes.remove(0);
        proof {
            assert(node == orig[k]);
            assert(doc.nodes@ =~= orig.subrange(k + 1, orig.len() as int));
        }
        let new_node = resolve_node(node, catalog);
        resolved.push(new_node);
    }
    doc.nodes = resolved;
    proof {
        assert(doc.nodes@ =~= resolved_nodes(orig, catalog.families()));
        lemma_resolved_has_no_text(orig, catalog.families());
    }
}

} // verus!
