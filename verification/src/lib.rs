//! A structural census of OSM map documents.
//!
//! The library classifies the element names of an XML event stream into the
//! three recognized OSM kinds (node, way, relation) or a catch-all set of
//! other names, and keeps start/end counts per kind.  Input may be plain XML
//! or a bzip2-compressed stream of the same XML.

use vstd::prelude::*;

pub mod census;
pub mod compress;
pub mod formats;
pub mod laws;
pub mod markup;
pub mod tags;

pub use census::Census;
pub use census::TagInfo;
pub use census::XmlEvent;
pub use formats::FileFormats;
pub use tags::OsmTag;

verus! {

/// The one fatal-error representation of a run: the markup was malformed,
/// or the compressed container could not be inflated.  Either aborts the
/// run with no partial census.
#[derive(Clone, Copy, PartialEq, Eq, Structural, Debug)]
pub enum OsmError {
    Malformed,
    Decompress,
}

} // verus!
