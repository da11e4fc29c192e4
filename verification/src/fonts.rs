//! The font catalog: an immutable index of the font faces discovered on the
//! host, consulted by text resolution. Built once per invocation; an empty
//! catalog is a valid degraded mode, not an error.

use vstd::prelude::*;

verus! {

/// The first face at or after position `k` whose family name equals `fam`.
pub open spec fn first_match_from(cat: Seq<Seq<char>>, fam: Seq<char>, k: int) -> Option<int>
    decreases cat.len() - k,
{
    if k < 0 || k >= cat.len() {
        None
    } else if cat[k] == fam {
        Some(k)
    } else {
        first_match_from(cat, fam, k + 1)
    }
}

/// The face a family resolves to: the first face with that family name,
/// else the fallback face 0 when the catalog is non-empty, else none.
pub open spec fn spec_lookup(cat: Seq<Seq<char>>, fam: Seq<char>) -> Option<int> {
    match first_match_from(cat, fam, 0) {
        Some(i) => Some(i),
        None => if cat.len() > 0 {
            Some(0)
        } else {
            None
        },
    }
}

/// An immutable index of available font faces. Each entry is a family name;
/// the entry's position is the face identifier. Face 0, when present, doubles
/// as the fallback face for families the catalog does not know.
#[derive(Clone, Debug)]
pub struct FontCatalog {
    faces: Vec<String>,
}

impl FontCatalog {
    /// The indexed family names, by face identifier.
    pub closed spec fn families(&self) -> Seq<Seq<char>> {
        self.faces@.map(|i: int, s: String| s@)
    }

    /// Build the catalog from the font family names discovered on the host,
    /// in discovery order. An empty list yields the degraded empty catalog.
    pub fn build(faces: Vec<String>) -> (c: FontCatalog)
        ensures
            c.families() == faces@.map(|i: int, s: String| s@),
    {
        FontCatalog { faces }
    }

    /// How many faces the catalog indexes.
    pub fn face_count(&self) -> (n: usize)
        ensures
            n == self.families().len(),
    {
        self.faces.len()
    }

    /// Resolve a family name to a face identifier: the first face with that
    /// family name, else the fallback face 0 of a non-empty catalog, else
    /// none (the degraded empty-catalog mode).
    pub fn lookup(&self, family: &String) -> (r: Option<usize>)
        ensures
            match r {
                Some(i) => spec_lookup(self.families(), family@) == Some(i as int),
                None => spec_lookup(self.families(), family@) is None,
            },
    {
        let n = self.faces.len();
        let mut i: usize = 0;
        while i < n
            invariant
                0 <= i <= n,
                n == self.faces.len(),
                first_match_from(self.families(), family@, 0) == first_match_from(
                    self.families(),
                    family@,
                    i as int,
                ),
            decreases n - i,
        {
            if self.faces[i] == *family {
                return Some(i);
            }
            i = i + 1;
        }
        if n > 0 {
            Some(0)
        } else {
            None
        }
    }
}

} // verus!
