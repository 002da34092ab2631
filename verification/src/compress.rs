//! The decoding adapter for the compressed container: bzip2 inflates the
//! envelope, and the inflated bytes go through the plain-text path.

use vstd::prelude::*;

use crate::census::{Census, CensusV};
use crate::formats::FileFormats;
use crate::markup::{census_of_xml, doc_events, doc_ok};
use crate::OsmError;

verus! {

/// What bzip2 decompression yields on a given compressed byte sequence.
pub uninterp spec fn inflate_of(data: Seq<u8>) -> Seq<u8>;

/// Whether a byte sequence is a valid bzip2 envelope, one that inflates
/// without error.
pub uninterp spec fn bz_ok(data: Seq<u8>) -> bool;

/// Relies on bzip2::read::BzDecoder: inflating an in-memory byte stream is
/// deterministic, so both the outcome and the inflated bytes are functions
/// of the bytes alone; `None` stands for any decompression error.
#[verifier::external_body]
fn bz_inflate(data: &[u8]) -> (r: Option<Vec<u8>>)
    ensures
        r is Some <==> bz_ok(data@),
        r matches Some(v) ==> v@ == inflate_of(data@),
{
    let mut decoder = bzip2::read::BzDecoder::new(data);
    let mut out = Vec::new();
    match std::io::Read::read_to_end(&mut decoder, &mut out) {
        Ok(_) => Some(out),
        Err(_) => None,
    }
}

/// The census of a bzip2-compressed XML document: a valid envelope is
/// inflated and the inflated bytes are processed exactly as plain text
/// would be, so the two paths agree document for document.  A broken
/// envelope aborts the run before any event is read.
pub fn census_of_bz2(data: &[u8]) -> (r: Result<Census, OsmError>)
    ensures
        (bz_ok(data@) && doc_ok(inflate_of(data@))) ==> (r matches Ok(c) && c.wf() && c@
            == CensusV::init().run(doc_events(inflate_of(data@)))),
        (bz_ok(data@) && !doc_ok(inflate_of(data@))) ==> (r matches Err(e) && e
            == OsmError::Malformed),
        !bz_ok(data@) ==> (r matches Err(e) && e == OsmError::Decompress),
{
    match bz_inflate(data) {
        Some(plain) => census_of_xml(plain.as_slice()),
        None => Err(OsmError::Decompress),
    }
}

/// The format dispatch: one run over a whole document already in memory,
/// down the plain or the decompressing path as the resolved format says.
pub fn census_of_document(format: FileFormats, data: &[u8]) -> (r: Result<Census, OsmError>)
    ensures
        format == FileFormats::XML ==> {
            &&& doc_ok(data@) ==> (r matches Ok(c) && c.wf() && c@ == CensusV::init().run(
                doc_events(data@),
            ))
            &&& !doc_ok(data@) ==> (r matches Err(e) && e == OsmError::Malformed)
        },
        format == FileFormats::BZIP2 ==> {
            &&& (bz_ok(data@) && doc_ok(inflate_of(data@))) ==> (r matches Ok(c) && c.wf() && c@
                == CensusV::init().run(doc_events(inflate_of(data@))))
            &&& (bz_ok(data@) && !doc_ok(inflate_of(data@))) ==> (r matches Err(e) && e
                == OsmError::Malformed)
            &&& !bz_ok(data@) ==> (r matches Err(e) && e == OsmError::Decompress)
        },
{
    match format {
        FileFormats::XML => census_of_xml(data),
        FileFormats::BZIP2 => census_of_bz2(data),
    }
}

} // verus!
