//! The laws of the classifier, each proved once and for all states, names
//! and events.

use vstd::prelude::*;

use crate::census::{lossy_decode, CensusV, EventV};
use crate::tags::{classify, eq_ignore_case, lower, OsmTag};

verus! {

/// Exhaustive classification: one recorded name is accounted for in exactly
/// one place.  A recognized name changes exactly one counter of exactly its
/// own kind's tally and leaves the other names alone; an unrecognized name
/// joins the other names and leaves every tally alone.
pub proof fn lemma_exhaustive_classification(c: CensusV, add: bool, name: Seq<u8>)
    ensures
        classify(name) is Some ==> c.record(add, name).others == c.others,
        classify(name) is None ==> c.record(add, name).others == c.others.insert(
            lossy_decode(name),
        ),
        classify(name) is None ==> forall|k: OsmTag|
            c.record(add, name).tally_of(k) == c.tally_of(k),
        classify(name) matches Some(kind) ==> forall|k: OsmTag|
            k != kind ==> c.record(add, name).tally_of(k) == c.tally_of(k),
        classify(name) matches Some(kind) ==> c.record(add, name).tally_of(kind) == (if add {
            c.tally_of(kind).bump_starts()
        } else {
            c.tally_of(kind).bump_ends()
        }),
{
}

/// Self-closing equivalence: an empty element for a name steps the census
/// exactly as a start for that name followed by an end for it.
pub proof fn lemma_self_closing_equivalence(c: CensusV, name: Seq<u8>)
    ensures
        c.step(EventV::Empty(name)) == c.step(EventV::Start(name)).step(EventV::End(name)),
{
}

/// Idempotent set membership: recording an unrecognized name again, whether
/// on the start or the end side, changes nothing; after the first record
/// the set of other names holds the name.
pub proof fn lemma_other_insert_idempotent(c: CensusV, first: bool, again: bool, name: Seq<u8>)
    requires
        classify(name) is None,
    ensures
        c.record(first, name).record(again, name) == c.record(first, name),
        c.record(first, name).others.contains(lossy_decode(name)),
{
    assert(c.record(first, name).record(again, name).others =~= c.record(first, name).others);
    assert(c.record(first, name).record(again, name) =~= c.record(first, name));
}

/// Append-only accumulators: no step removes an other name, and no step
/// decreases a counter.
pub proof fn lemma_step_append_only(c: CensusV, ev: EventV)
    ensures
        c.others.subset_of(c.step(ev).others),
        forall|k: OsmTag| #![auto] c.tally_of(k).starts <= c.step(ev).tally_of(k).starts,
        forall|k: OsmTag| #![auto] c.tally_of(k).ends <= c.step(ev).tally_of(k).ends,
{
}

/// A name equal to another up to ASCII case classifies the same way.
pub proof fn lemma_classify_case_insensitive(a: Seq<u8>, b: Seq<u8>)
    requires
        eq_ignore_case(a, b),
    ensures
        classify(a) == classify(b),
{
    lemma_eq_ignore_case_congruent(a, b, crate::tags::node_name());
    lemma_eq_ignore_case_congruent(a, b, crate::tags::way_name());
    lemma_eq_ignore_case_congruent(a, b, crate::tags::relation_name());
}

/// Two names equal up to ASCII case agree on every case-insensitive
/// comparison.
proof fn lemma_eq_ignore_case_congruent(a: Seq<u8>, b: Seq<u8>, l: Seq<u8>)
    requires
        eq_ignore_case(a, b),
    ensures
        eq_ignore_case(a, l) == eq_ignore_case(b, l),
{
    if eq_ignore_case(a, l) {
        assert forall|i: int| 0 <= i < b.len() implies lower(b[i]) == lower(l[i]) by {
            assert(lower(a[i]) == lower(b[i]));
            assert(lower(a[i]) == lower(l[i]));
        }
    }
    if eq_ignore_case(b, l) {
        assert forall|i: int| 0 <= i < a.len() implies lower(a[i]) == lower(l[i]) by {
            assert(lower(a[i]) == lower(b[i]));
            assert(lower(b[i]) == lower(l[i]));
        }
    }
}

} // verus!
