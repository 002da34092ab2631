//! The three recognized element kinds and the classification of element
//! names, by case-insensitive ASCII comparison against the literal names
//! "node", "way" and "relation".

use vstd::prelude::*;

verus! {

/// One of the three recognized OSM element kinds.
#[derive(Clone, Copy, PartialEq, Eq, Structural, Debug, Hash)]
pub enum OsmTag {
    Node,
    Way,
    Relation,
}

/// ASCII lower-casing of a single byte: 'A'..='Z' maps to 'a'..='z',
/// every other byte is unchanged.
pub open spec fn lower(b: u8) -> u8 {
    if 65 <= b && b <= 90 {
        (b + 32) as u8
    } else {
        b
    }
}

/// Case-insensitive ASCII equality of two byte sequences.
pub open spec fn eq_ignore_case(a: Seq<u8>, b: Seq<u8>) -> bool {
    a.len() == b.len() && forall|i: int| 0 <= i < a.len() ==> lower(a[i]) == lower(b[i])
}

/// The byte sequence of the literal name "node".
pub open spec fn node_name() -> Seq<u8> {
    seq![110u8, 111u8, 100u8, 101u8]
}

/// The byte sequence of the literal name "way".
pub open spec fn way_name() -> Seq<u8> {
    seq![119u8, 97u8, 121u8]
}

/// The byte sequence of the literal name "relation".
pub open spec fn relation_name() -> Seq<u8> {
    seq![114u8, 101u8, 108u8, 97u8, 116u8, 105u8, 111u8, 110u8]
}

/// Classification of an element name: `Some` of the kind whose literal name
/// it equals up to ASCII case, `None` for every other name.  The three
/// literal names are mutually exclusive, so at most one branch can match.
pub open spec fn classify(name: Seq<u8>) -> Option<OsmTag> {
    if eq_ignore_case(name, node_name()) {
        Some(OsmTag::Node)
    } else if eq_ignore_case(name, way_name()) {
        Some(OsmTag::Way)
    } else if eq_ignore_case(name, relation_name()) {
        Some(OsmTag::Relation)
    } else {
        None
    }
}

/// ASCII lower-casing of a single byte, executable form.
fn lower_byte(b: u8) -> (r: u8)
    ensures
        r == lower(b),
{
    if b >= 65 && b <= 90 {
        b + 32
    } else {
        b
    }
}

/// Case-insensitive ASCII comparison of two byte slices.
fn eq_ignore_ascii(a: &[u8], b: &[u8]) -> (r: bool)
    ensures
        r == eq_ignore_case(a@, b@),
{
    if a.len() != b.len() {
        return false;
    }
    let mut i: usize = 0;
    while i < a.len()
        invariant
            0 <= i <= a@.len(),
            a@.len() == b@.len(),
            forall|j: int| 0 <= j < i ==> lower(a@[j]) == lower(b@[j]),
        decreases a@.len() - i,
    {
        if lower_byte(a[i]) != lower_byte(b[i]) {
            return false;
        }
        i = i + 1;
    }
    true
}

impl OsmTag {
    /// Classify a raw element name, as a fallible conversion into the
    /// taxonomy: an unrecognized name is the expected `Err` branch, carrying
    /// no information beyond the failure itself.
    pub fn try_from(value: &[u8]) -> (r: Result<OsmTag, bool>)
        ensures
            r == (match classify(value@) {
                Some(t) => Result::<OsmTag, bool>::Ok(t),
                None => Result::<OsmTag, bool>::Err(false),
            }),
    {
        let node: [u8; 4] = [110, 111, 100, 101];
        let way: [u8; 3] = [119, 97, 121];
        let relation: [u8; 8] = [114, 101, 108, 97, 116, 105, 111, 110];
        proof {
            assert(node@ =~= node_name());
            assert(way@ =~= way_name());
            assert(relation@ =~= relation_name());
        }
        if eq_ignore_ascii(value, node.as_slice()) {
            Ok(OsmTag::Node)
        } else if eq_ignore_ascii(value, way.as_slice()) {
            Ok(OsmTag::Way)
        } else if eq_ignore_ascii(value, relation.as_slice()) {
            Ok(OsmTag::Relation)
        } else {
            Err(false)
        }
    }
}

} // verus!
