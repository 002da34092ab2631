//! The streaming markup reader: quick_xml drives the byte-to-event side,
//! the verified loop here drives the census from the first event to
//! end-of-stream.
//!
//! Parsing an in-memory byte slice involves no I/O, chance or time, so what
//! the reader yields is a function of the bytes alone.  Two names stand for
//! that function — whether the document parses cleanly, and which structural
//! events it holds — and two more carry them through the reader's states, so
//! that the whole-run census below is pinned to the document's own events.

use vstd::prelude::*;

use crate::census::{Census, CensusV, EventV, XmlEvent};
use crate::OsmError;

verus! {

/// quick_xml's streaming reader, opaque to the verifier: a value of it is
/// only ever created and advanced through the functions below.
#[verifier::external_type_specification]
#[verifier::external_body]
#[verifier::reject_recursive_types(R)]
pub struct ExReader<R>(quick_xml::Reader<R>);

/// Whether the default reader runs over these bytes from start to
/// end-of-stream without a parse error.
pub uninterp spec fn doc_ok(data: Seq<u8>) -> bool;

/// The structural events the default reader emits for these bytes, up to
/// but not including the terminal end-of-stream event; meaningful for a
/// document that parses cleanly.
pub uninterp spec fn doc_events(data: Seq<u8>) -> Seq<EventV>;

/// Whether the rest of a reader's input parses cleanly to end-of-stream.
pub uninterp spec fn tail_ok(reader: quick_xml::Reader<&[u8]>) -> bool;

/// The structural events a reader will still emit before its terminal
/// end-of-stream event; meaningful while its tail parses cleanly.
pub uninterp spec fn events_left(reader: quick_xml::Reader<&[u8]>) -> Seq<EventV>;

/// How much of its slice a reader has not yet consumed.
pub uninterp spec fn bytes_left(reader: quick_xml::Reader<&[u8]>) -> nat;

/// Relies on quick_xml::Reader::from_reader: builds a streaming reader over
/// the given bytes with the default configuration (end names checked, empty
/// elements not expanded).  A fresh reader's future is the whole document's:
/// its tail parses cleanly exactly when the document does, and it has the
/// document's events still to emit.
#[verifier::external_body]
fn reader_from_bytes<'a>(data: &'a [u8]) -> (r: quick_xml::Reader<&'a [u8]>)
    ensures
        tail_ok(r) == doc_ok(data@),
        tail_ok(r) ==> events_left(r) == doc_events(data@),
{
    quick_xml::Reader::from_reader(data)
}

/// Relies on quick_xml::Reader::read_event_into: returns the document's next
/// event, its name reduced to the local part; `None` stands for any parse
/// error.  Parsing a slice is deterministic, so the outcome follows the
/// reader's state: while the tail parses cleanly the remaining events come
/// back one by one and then the end-of-stream event; an end-of-stream event
/// comes only that way; a parse error ahead does not go away; and — empty
/// text suppressed and empty elements not expanded in the default
/// configuration — every event before end-of-stream consumes at least one
/// byte of the slice.
#[verifier::external_body]
fn next_event(reader: &mut quick_xml::Reader<&[u8]>) -> (r: Option<XmlEvent>)
    ensures
        (r matches Some(ev) && !(ev@ is Eof)) ==> bytes_left(*final(reader)) < bytes_left(
            *old(reader),
        ),
        tail_ok(*old(reader)) ==> r is Some,
        (tail_ok(*old(reader)) && events_left(*old(reader)).len() > 0) ==> (r matches Some(ev)
            && ev@ == events_left(*old(reader))[0] && !(ev@ is Eof) && tail_ok(*final(reader))
            && events_left(*final(reader)) == events_left(*old(reader)).drop_first()),
        (tail_ok(*old(reader)) && events_left(*old(reader)).len() == 0) ==> (r matches Some(ev)
            && ev@ is Eof),
        (r matches Some(ev) && ev@ is Eof) ==> tail_ok(*old(reader)) && events_left(
            *old(reader),
        ).len() == 0,
        (r matches Some(ev) && tail_ok(*final(reader))) ==> tail_ok(*old(reader)),
{
    let mut buf = Vec::new();
    match reader.read_event_into(&mut buf) {
        Ok(quick_xml::events::Event::Start(b)) => Some(
            XmlEvent::Start(b.name().local_name().into_inner().as_bytes().to_vec()),
        ),
        Ok(quick_xml::events::Event::End(b)) => Some(
            XmlEvent::End(b.name().local_name().into_inner().as_bytes().to_vec()),
        ),
        Ok(quick_xml::events::Event::Empty(b)) => Some(
            XmlEvent::Empty(b.name().local_name().into_inner().as_bytes().to_vec()),
        ),
        Ok(quick_xml::events::Event::Eof) => Some(XmlEvent::Eof),
        Ok(_) => Some(XmlEvent::Other),
        Err(_) => None,
    }
}

/// The census of a whole XML document: a document that parses cleanly folds
/// the classifier over exactly its events; the first parse error aborts the
/// run with no partial census.
pub fn census_of_xml(data: &[u8]) -> (r: Result<Census, OsmError>)
    ensures
        doc_ok(data@) ==> (r matches Ok(c) && c.wf() && c@ == CensusV::init().run(
            doc_events(data@),
        )),
        !doc_ok(data@) ==> (r matches Err(e) && e == OsmError::Malformed),
{
    let mut reader = reader_from_bytes(data);
    let mut census = Census::new();
    let ghost mut trace: Seq<EventV> = Seq::empty();
    loop
        invariant
            census.wf(),
            census@ == CensusV::init().run(trace),
            tail_ok(reader) == doc_ok(data@),
            doc_ok(data@) ==> trace + events_left(reader) == doc_events(data@),
        decreases bytes_left(reader),
    {
        let ghost pre = reader;
        match next_event(&mut reader) {
            None => {
                return Err(OsmError::Malformed);
            },
            Some(ev) => {
                let cont = census.process_event(&ev);
                if !cont {
                    proof {
                        assert(tail_ok(pre) && events_left(pre).len() == 0);
                        assert(trace + events_left(pre) =~= trace);
                    }
                    return Ok(census);
                }
                proof {
                    crate::census::lemma_run_push(CensusV::init(), trace, ev@);
                    if doc_ok(data@) {
                        assert(trace.push(ev@) + events_left(pre).drop_first() =~= trace
                            + events_left(pre));
                    }
                    trace = trace.push(ev@);
                }
            },
        }
    }
}

} // verus!
