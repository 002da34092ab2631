//! The tag classifier and accumulator: the census of a document's element
//! names.  A run folds a stream of structural events into per-kind start/end
//! counts and a deduplicated set of all other element names seen.

use vstd::prelude::*;

use crate::tags::{classify, OsmTag};

verus! {

/// One structural event of a markup document, as the census sees it: the
/// three element shapes carry the element's local name (namespace prefix
/// already stripped), `Eof` ends the stream, and `Other` stands for anything
/// the census ignores (text, comments, processing instructions, ...).
#[derive(Debug, Clone, PartialEq, Eq)]
pub enum XmlEvent {
    Start(Vec<u8>),
    End(Vec<u8>),
    Empty(Vec<u8>),
    Eof,
    Other,
}

/// The mathematical form of an event: names as byte sequences.
pub enum EventV {
    Start(Seq<u8>),
    End(Seq<u8>),
    Empty(Seq<u8>),
    Eof,
    Other,
}

impl View for XmlEvent {
    type V = EventV;

    open spec fn view(&self) -> EventV {
        match self {
            XmlEvent::Start(n) => EventV::Start(n@),
            XmlEvent::End(n) => EventV::End(n@),
            XmlEvent::Empty(n) => EventV::Empty(n@),
            XmlEvent::Eof => EventV::Eof,
            XmlEvent::Other => EventV::Other,
        }
    }
}

/// The start/end counters of one recognized element kind.
#[derive(Clone, Copy, PartialEq, Eq, Structural, Debug)]
pub struct TagInfo {
    pub starts: u64,
    pub ends: u64,
}

impl Default for TagInfo {
    /// A fresh tally: both counters at zero.
    fn default() -> (r: TagInfo)
        ensures
            r.starts == 0,
            r.ends == 0,
    {
        TagInfo { starts: 0, ends: 0 }
    }
}

/// The mathematical form of a tally.
#[verifier::ext_equal]
pub struct TallyV {
    pub starts: int,
    pub ends: int,
}

/// An increment that sticks at the largest counter value instead of wrapping;
/// every reachable count is far below that bound.
pub open spec fn bump(n: int) -> int {
    if n < u64::MAX {
        n + 1
    } else {
        n
    }
}

impl TallyV {
    /// Both counters at zero.
    pub open spec fn zero() -> TallyV {
        TallyV { starts: 0, ends: 0 }
    }

    /// One more element of this kind opened.
    pub open spec fn bump_starts(self) -> TallyV {
        TallyV { starts: bump(self.starts), ends: self.ends }
    }

    /// One more element of this kind closed.
    pub open spec fn bump_ends(self) -> TallyV {
        TallyV { starts: self.starts, ends: bump(self.ends) }
    }
}

/// What decoding a byte sequence lossily to text yields: invalid sequences
/// become replacement characters, so every name decodes to some string.
pub uninterp spec fn lossy_decode(bytes: Seq<u8>) -> Seq<char>;

/// Whether every byte of a sequence is ASCII.
pub open spec fn is_ascii_seq(bytes: Seq<u8>) -> bool {
    forall|i: int| 0 <= i < bytes.len() ==> bytes[i] <= 127
}

/// The bytes of an ASCII sequence, read one character each.
pub open spec fn ascii_chars(bytes: Seq<u8>) -> Seq<char> {
    bytes.map_values(|b: u8| b as char)
}

/// Relies on String::from_utf8_lossy: the decoding is a function of the
/// bytes alone, and valid UTF-8 — so in particular plain ASCII — passes
/// through unchanged.
#[verifier::external_body]
fn to_lossy_string(bytes: &[u8]) -> (s: String)
    ensures
        s@ == lossy_decode(bytes@),
        is_ascii_seq(bytes@) ==> s@ == ascii_chars(bytes@),
{
    String::from_utf8_lossy(bytes).into_owned()
}

/// The mathematical state of a census: one tally per recognized kind, plus
/// the set of decoded names of every unrecognized element seen.
#[verifier::ext_equal]
pub struct CensusV {
    pub node: TallyV,
    pub way: TallyV,
    pub relation: TallyV,
    pub others: Set<Seq<char>>,
}

impl CensusV {
    /// The state before any event: all counters zero, no other names.
    pub open spec fn init() -> CensusV {
        CensusV {
            node: TallyV::zero(),
            way: TallyV::zero(),
            relation: TallyV::zero(),
            others: Set::empty(),
        }
    }

    /// The tally of one kind.
    pub open spec fn tally_of(self, kind: OsmTag) -> TallyV {
        match kind {
            OsmTag::Node => self.node,
            OsmTag::Way => self.way,
            OsmTag::Relation => self.relation,
        }
    }

    /// This state with the tally of one kind replaced.
    pub open spec fn with_tally(self, kind: OsmTag, t: TallyV) -> CensusV {
        match kind {
            OsmTag::Node => CensusV { node: t, ..self },
            OsmTag::Way => CensusV { way: t, ..self },
            OsmTag::Relation => CensusV { relation: t, ..self },
        }
    }

    /// Recording one observation of a name: a recognized kind bumps its
    /// start counter (`add`) or its end counter (`!add`); any other name is
    /// added, decoded, to the set of other names.
    pub open spec fn record(self, add: bool, name: Seq<u8>) -> CensusV {
        match classify(name) {
            Some(kind) => {
                let t = self.tally_of(kind);
                self.with_tally(kind, if add { t.bump_starts() } else { t.bump_ends() })
            },
            None => CensusV { others: self.others.insert(lossy_decode(name)), ..self },
        }
    }

    /// One transition of the classifier: a start records an opening, an end
    /// a closing, a self-closing element both at once; end-of-stream and
    /// ignored events change nothing.
    pub open spec fn step(self, ev: EventV) -> CensusV {
        match ev {
            EventV::Start(name) => self.record(true, name),
            EventV::End(name) => self.record(false, name),
            EventV::Empty(name) => self.record(true, name).record(false, name),
            EventV::Eof => self,
            EventV::Other => self,
        }
    }

    /// A whole run: the fold of `step` over an event sequence.
    pub open spec fn run(self, evs: Seq<EventV>) -> CensusV
        decreases evs.len(),
    {
        if evs.len() == 0 {
            self
        } else {
            self.step(evs[0]).run(evs.drop_first())
        }
    }
}

/// Extending a run by one event steps its final state once.
pub proof fn lemma_run_push(c: CensusV, evs: Seq<EventV>, ev: EventV)
    ensures
        c.run(evs.push(ev)) == c.run(evs).step(ev),
    decreases evs.len(),
{
    if evs.len() == 0 {
        assert(evs.push(ev)[0] == ev);
        assert(evs.push(ev).drop_first() =~= evs);
        assert(c.run(evs.push(ev)) == c.step(ev).run(evs));
        assert(c.step(ev).run(evs) == c.step(ev));
        assert(c.run(evs) == c);
    } else {
        assert(evs.push(ev)[0] == evs[0]);
        assert(evs.push(ev).drop_first() =~= evs.drop_first().push(ev));
        lemma_run_push(c.step(evs[0]), evs.drop_first(), ev);
    }
}

/// The census of one run: per-kind tallies plus the distinct names of every
/// element that matched no kind, in the order first encountered.
#[derive(Debug, Clone)]
pub struct Census {
    pub node: TagInfo,
    pub way: TagInfo,
    pub relation: TagInfo,
    pub others: Vec<String>,
}

impl View for Census {
    type V = CensusV;

    open spec fn view(&self) -> CensusV {
        CensusV {
            node: TallyV { starts: self.node.starts as int, ends: self.node.ends as int },
            way: TallyV { starts: self.way.starts as int, ends: self.way.ends as int },
            relation: TallyV {
                starts: self.relation.starts as int,
                ends: self.relation.ends as int,
            },
            others: self.names(),
        }
    }
}

impl Census {
    /// The set of other names held, as decoded strings.
    pub open spec fn names(self) -> Set<Seq<char>> {
        Set::new(
            |n: Seq<char>|
                exists|i: int| 0 <= i < self.others@.len() && #[trigger] self.others@[i]@ == n,
        )
    }

    /// The list of other names holds no duplicates: it is a set.
    pub open spec fn wf(self) -> bool {
        forall|i: int, j: int|
            0 <= i < j < self.others@.len() ==> #[trigger] self.others@[i]@ != #[trigger] self.others@[j]@
    }

    /// An empty census: all counters zero, no other names.
    pub fn new() -> (c: Census)
        ensures
            c.wf(),
            c@ == CensusV::init(),
    {
        let c = Census {
            node: TagInfo::default(),
            way: TagInfo::default(),
            relation: TagInfo::default(),
            others: Vec::new(),
        };
        proof {
            assert(c.names() =~= Set::<Seq<char>>::empty());
        }
        c
    }

    /// Add a name to the set of other names, once: a name already present
    /// is left alone.
    fn insert_other(&mut self, name: String)
        requires
            old(self).wf(),
        ensures
            final(self).wf(),
            final(self)@ == (CensusV {
                others: old(self)@.others.insert(name@),
                ..old(self)@
            }),
    {
        let mut i: usize = 0;
        while i < self.others.len()
            invariant
                old(self).wf(),
                *self == *old(self),
                0 <= i <= self.others@.len(),
                forall|j: int| 0 <= j < i ==> #[trigger] self.others@[j]@ != name@,
            decreases self.others@.len() - i,
        {
            let held: &String = &self.others[i];
            if held.eq(&name) {
                proof {
                    assert(self.others@[i as int]@ == name@);
                    assert(old(self).names().contains(name@));
                    assert(old(self).names().insert(name@) =~= old(self).names());
                    assert(self@ =~= (CensusV {
                        others: old(self)@.others.insert(name@),
                        ..old(self)@
                    }));
                }
                return ;
            }
            i = i + 1;
        }
        self.others.push(name);
        proof {
            let pre = old(self)@.others;
            assert forall|n: Seq<char>| self.names().contains(n) implies pre.insert(
                name@,
            ).contains(n) by {
                let k = choose|k: int|
                    0 <= k < self.others@.len() && #[trigger] self.others@[k]@ == n;
                if k < old(self).others@.len() {
                    assert(old(self).others@[k]@ == n);
                }
            }
            assert forall|n: Seq<char>| pre.insert(name@).contains(n) implies self.names()
                .contains(n) by {
                if n == name@ {
                    assert(self.others@[self.others@.len() - 1]@ == n);
                } else {
                    let k = choose|k: int|
                        0 <= k < old(self).others@.len() && #[trigger] old(self).others@[k]@ == n;
                    assert(self.others@[k]@ == n);
                }
            }
            assert(self.names() =~= pre.insert(name@));
        }
    }

    /// Bump one counter of one tally.
    fn bump_tally(t: &mut TagInfo, add: bool)
        ensures
            add ==> final(t).starts == bump(old(t).starts as int) && final(t).ends == old(t).ends,
            !add ==> final(t).ends == bump(old(t).ends as int) && final(t).starts == old(t).starts,
    {
        if add {
            if t.starts < u64::MAX {
                t.starts = t.starts + 1;
            }
        } else {
            if t.ends < u64::MAX {
                t.ends = t.ends + 1;
            }
        }
    }

    /// Record one observation of a raw element name: a recognized kind bumps
    /// its start (`add`) or end (`!add`) counter, any other name joins the
    /// set of other names.
    pub fn register_tag(&mut self, add: bool, tag: &[u8])
        requires
            old(self).wf(),
        ensures
            final(self).wf(),
            final(self)@ == old(self)@.record(add, tag@),
    {
        match OsmTag::try_from(tag) {
            Ok(kind) => {
                match kind {
                    OsmTag::Node => Self::bump_tally(&mut self.node, add),
                    OsmTag::Way => Self::bump_tally(&mut self.way, add),
                    OsmTag::Relation => Self::bump_tally(&mut self.relation, add),
                }
                proof {
                    assert(self@ =~= old(self)@.record(add, tag@));
                }
            },
            Err(_) => {
                let name = to_lossy_string(tag);
                self.insert_other(name);
                proof {
                    assert(self@ =~= old(self)@.record(add, tag@));
                }
            },
        }
    }

    /// The final counters of one kind, read at end-of-stream; a kind never
    /// observed reports zeroes, not absence.
    pub fn tally(&self, kind: OsmTag) -> (t: TagInfo)
        ensures
            t.starts as int == self@.tally_of(kind).starts,
            t.ends as int == self@.tally_of(kind).ends,
    {
        match kind {
            OsmTag::Node => self.node,
            OsmTag::Way => self.way,
            OsmTag::Relation => self.relation,
        }
    }

    /// Process one event: the census transitions by `step`, and the result
    /// says whether the stream goes on (`false` exactly at end-of-stream).
    pub fn process_event(&mut self, ev: &XmlEvent) -> (cont: bool)
        requires
            old(self).wf(),
        ensures
            final(self).wf(),
            final(self)@ == old(self)@.step(ev@),
            cont == !(ev@ is Eof),
    {
        match ev {
            XmlEvent::Start(n) => {
                self.register_tag(true, n.as_slice());
                true
            },
            XmlEvent::End(n) => {
                self.register_tag(false, n.as_slice());
                true
            },
            XmlEvent::Empty(n) => {
                self.register_tag(true, n.as_slice());
                self.register_tag(false, n.as_slice());
                true
            },
            XmlEvent::Eof => false,
            XmlEvent::Other => true,
        }
    }
}

} // verus!
