use osm_census::compress::census_of_bz2;
use osm_census::compress::census_of_document;
use osm_census::markup::census_of_xml;
use osm_census::Census;
use osm_census::FileFormats;
use osm_census::OsmError;
use osm_census::OsmTag;
use osm_census::XmlEvent;

fn counts(c: &Census) -> [u64; 6] {
    [
        c.node.starts,
        c.node.ends,
        c.way.starts,
        c.way.ends,
        c.relation.starts,
        c.relation.ends,
    ]
}

#[test]
fn classify_case_variants_match() {
    assert_eq!(OsmTag::try_from(b"node"), Ok(OsmTag::Node));
    assert_eq!(OsmTag::try_from(b"Node"), Ok(OsmTag::Node));
    assert_eq!(OsmTag::try_from(b"NODE"), Ok(OsmTag::Node));
    assert_eq!(OsmTag::try_from(b"way"), Ok(OsmTag::Way));
    assert_eq!(OsmTag::try_from(b"wAy"), Ok(OsmTag::Way));
    assert_eq!(OsmTag::try_from(b"RELATION"), Ok(OsmTag::Relation));
    assert_eq!(OsmTag::try_from(b"relation"), Ok(OsmTag::Relation));
}

#[test]
fn classify_rejects_non_ascii_case_folding() {
    // "nÖde" in UTF-8: only ASCII case folding applies, so this is "other".
    let name = "n\u{d6}de".as_bytes();
    assert_eq!(OsmTag::try_from(name), Err(false));
    // Other unrecognized names fall through as well.
    assert_eq!(OsmTag::try_from(b"nodes"), Err(false));
    assert_eq!(OsmTag::try_from(b""), Err(false));
    assert_eq!(OsmTag::try_from(b"foo"), Err(false));
}

#[test]
fn format_dispatch() {
    assert_eq!(FileFormats::try_from("map.osm"), Ok(FileFormats::XML));
    assert_eq!(FileFormats::try_from("map.osm.bz2"), Ok(FileFormats::BZIP2));
    assert_eq!(FileFormats::try_from("map.txt"), Err(false));
    assert_eq!(FileFormats::resolve(Some("map.osm")), Ok(FileFormats::XML));
    assert_eq!(FileFormats::resolve(None), Err(false));
}

#[test]
fn format_dispatch_is_a_suffix_check() {
    // The convention is a suffix check on the textual path, nothing more.
    assert_eq!(FileFormats::try_from("osm"), Ok(FileFormats::XML));
    assert_eq!(FileFormats::try_from("archive.osm.bz2"), Ok(FileFormats::BZIP2));
    assert_eq!(FileFormats::try_from("map.osm.bz"), Err(false));
    assert_eq!(FileFormats::try_from(""), Err(false));
    // Case matters here, unlike in tag classification.
    assert_eq!(FileFormats::try_from("map.OSM"), Err(false));
}

#[test]
fn empty_document_reports_all_zero() {
    let c = census_of_xml(b"").expect("empty input parses");
    assert_eq!(counts(&c), [0, 0, 0, 0, 0, 0]);
    assert!(c.others.is_empty());
}

#[test]
fn mixed_content() {
    let c = census_of_xml(b"<node/><way></way><foo/>").expect("well-formed");
    assert_eq!(c.node.starts, 1);
    assert_eq!(c.node.ends, 1);
    assert_eq!(c.way.starts, 1);
    assert_eq!(c.way.ends, 1);
    assert_eq!(c.relation.starts, 0);
    assert_eq!(c.relation.ends, 0);
    assert_eq!(c.others, vec!["foo".to_string()]);
}

#[test]
fn self_closing_equals_start_end() {
    let a = census_of_xml(b"<node/>").expect("well-formed");
    let b = census_of_xml(b"<node></node>").expect("well-formed");
    assert_eq!(counts(&a), counts(&b));
    assert_eq!(a.others, b.others);
    assert_eq!(counts(&a), [1, 1, 0, 0, 0, 0]);
}

#[test]
fn other_names_deduplicate() {
    let c = census_of_xml(b"<foo/><foo></foo><bar/>").expect("well-formed");
    assert_eq!(counts(&c), [0, 0, 0, 0, 0, 0]);
    assert_eq!(c.others, vec!["foo".to_string(), "bar".to_string()]);
}

#[test]
fn nested_and_ignored_content() {
    let doc = b"<?xml version=\"1.0\"?><osm><node id=\"1\">text<tag/></node><way/></osm>";
    let c = census_of_xml(doc).expect("well-formed");
    assert_eq!(counts(&c), [1, 1, 1, 1, 0, 0]);
    assert_eq!(
        c.others,
        vec!["osm".to_string(), "tag".to_string()]
    );
}

#[test]
fn namespace_prefix_is_stripped() {
    let c = census_of_xml(b"<ns:node xmlns:ns=\"u\"></ns:node>").expect("well-formed");
    assert_eq!(counts(&c), [1, 1, 0, 0, 0, 0]);
    assert!(c.others.is_empty());
}

#[test]
fn case_insensitive_counting() {
    let c = census_of_xml(b"<NODE></NODE><Way/>").expect("well-formed");
    assert_eq!(counts(&c), [1, 1, 1, 1, 0, 0]);
    assert!(c.others.is_empty());
}

#[test]
fn malformed_input_aborts() {
    // A start element closed by the wrong name is flagged by the reader;
    // the run must abort with no partial census.
    assert!(matches!(
        census_of_xml(b"<node></way>"),
        Err(OsmError::Malformed)
    ));
}

fn bz2_compress(data: &[u8]) -> Vec<u8> {
    let mut encoder = bzip2::read::BzEncoder::new(data, bzip2::Compression::default());
    let mut out = Vec::new();
    std::io::Read::read_to_end(&mut encoder, &mut out).expect("compression succeeds");
    out
}

#[test]
fn compressed_equals_plain() {
    let doc: &[u8] = b"<osm><node/><node/><way></way><relation/><strange/></osm>";
    let packed = bz2_compress(doc);
    let plain = census_of_xml(doc).expect("well-formed");
    let inflated = census_of_bz2(&packed).expect("valid envelope");
    assert_eq!(counts(&plain), counts(&inflated));
    assert_eq!(plain.others, inflated.others);
}

#[test]
fn document_dispatch_by_format() {
    let doc: &[u8] = b"<node/>";
    let packed = bz2_compress(doc);
    let plain = census_of_document(FileFormats::XML, doc).expect("well-formed");
    let inflated = census_of_document(FileFormats::BZIP2, &packed).expect("valid envelope");
    assert_eq!(counts(&plain), [1, 1, 0, 0, 0, 0]);
    assert_eq!(counts(&inflated), [1, 1, 0, 0, 0, 0]);
}

#[test]
fn broken_envelope_aborts() {
    assert!(matches!(
        census_of_bz2(b"this is not a bzip2 stream"),
        Err(OsmError::Decompress)
    ));
}

#[test]
fn event_by_event_processing() {
    let mut c = Census::new();
    assert!(c.process_event(&XmlEvent::Start(b"node".to_vec())));
    assert!(c.process_event(&XmlEvent::Other));
    assert!(c.process_event(&XmlEvent::Empty(b"way".to_vec())));
    assert!(c.process_event(&XmlEvent::End(b"NODE".to_vec())));
    assert!(!c.process_event(&XmlEvent::Eof));
    assert_eq!(counts(&c), [1, 1, 1, 1, 0, 0]);
    assert!(c.others.is_empty());
}

#[test]
fn tally_reports_unobserved_kinds_as_zero() {
    let c = census_of_xml(b"<node/>").expect("well-formed");
    let node = c.tally(OsmTag::Node);
    assert_eq!((node.starts, node.ends), (1, 1));
    let relation = c.tally(OsmTag::Relation);
    assert_eq!((relation.starts, relation.ends), (0, 0));
}

#[test]
fn register_tag_decodes_invalid_bytes_lossily() {
    let mut c = Census::new();
    c.register_tag(true, b"\xfffoo");
    c.register_tag(false, b"\xfffoo");
    assert_eq!(c.others, vec!["\u{fffd}foo".to_string()]);
    assert_eq!(counts(&c), [0, 0, 0, 0, 0, 0]);
}
