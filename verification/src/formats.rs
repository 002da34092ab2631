//! The input resolver: which of the two supported container formats a file
//! path names, decided by its suffix alone.

use vstd::prelude::*;
use vstd::string::StringSliceAdditionalSpecFns;

verus! {

/// The two supported container formats: plain XML text, or the same text in
/// a bzip2 envelope.
#[derive(Clone, Copy, PartialEq, Eq, Structural, Debug)]
pub enum FileFormats {
    XML,
    BZIP2,
}

/// Whether `s` ends with `suffix`.
pub open spec fn ends_with(s: Seq<u8>, suffix: Seq<u8>) -> bool {
    suffix.len() <= s.len() && s.subrange(s.len() - suffix.len(), s.len() as int) == suffix
}

/// The byte sequence of the compressed-container suffix "osm.bz2".
pub open spec fn bz2_suffix() -> Seq<u8> {
    seq![111u8, 115u8, 109u8, 46u8, 98u8, 122u8, 50u8]
}

/// The byte sequence of the plain-text suffix "osm".
pub open spec fn osm_suffix() -> Seq<u8> {
    seq![111u8, 115u8, 109u8]
}

/// Format resolution over the bytes of a path: "osm.bz2" wins over "osm",
/// and a path that ends with neither is unsupported.
pub open spec fn resolve_bytes(path: Seq<u8>) -> Result<FileFormats, bool> {
    if ends_with(path, bz2_suffix()) {
        Ok(FileFormats::BZIP2)
    } else if ends_with(path, osm_suffix()) {
        Ok(FileFormats::XML)
    } else {
        Err(false)
    }
}

/// Whether the byte slice `s` ends with `suffix`.
fn ends_with_bytes(s: &[u8], suffix: &[u8]) -> (r: bool)
    ensures
        r == ends_with(s@, suffix@),
{
    if suffix.len() > s.len() {
        return false;
    }
    let start: usize = s.len() - suffix.len();
    let mut i: usize = 0;
    while i < suffix.len()
        invariant
            s@.len() <= usize::MAX,
            suffix@.len() <= s@.len(),
            start == s@.len() - suffix@.len(),
            0 <= i <= suffix@.len(),
            forall|j: int| 0 <= j < i ==> s@[start + j] == suffix@[j],
        decreases suffix@.len() - i,
    {
        if s[start + i] != suffix[i] {
            return false;
        }
        i = i + 1;
    }
    proof {
        assert(s@.subrange(s@.len() - suffix@.len(), s@.len() as int) =~= suffix@);
    }
    true
}

impl FileFormats {
    /// Resolve the container format from the textual form of a path: a pure
    /// function of the path's suffix.
    pub fn try_from(path: &str) -> (r: Result<FileFormats, bool>)
        ensures
            r == resolve_bytes(path.spec_bytes()),
    {
        let bytes = path.as_bytes();
        let bz2: [u8; 7] = [111, 115, 109, 46, 98, 122, 50];
        let osm: [u8; 3] = [111, 115, 109];
        proof {
            assert(bz2@ =~= bz2_suffix());
            assert(osm@ =~= osm_suffix());
        }
        if ends_with_bytes(bytes, bz2.as_slice()) {
            Ok(FileFormats::BZIP2)
        } else if ends_with_bytes(bytes, osm.as_slice()) {
            Ok(FileFormats::XML)
        } else {
            Err(false)
        }
    }

    /// Resolve the container format from a path that may have no textual
    /// form at all: such a path is unsupported, like any unrecognized
    /// suffix.
    pub fn resolve(path: Option<&str>) -> (r: Result<FileFormats, bool>)
        ensures
            r == (match path {
                Some(p) => resolve_bytes(p.spec_bytes()),
                None => Result::<FileFormats, bool>::Err(false),
            }),
    {
        match path {
            Some(p) => Self::try_from(p),
            None => Err(false),
        }
    }
}

} // verus!
