//! The speaker roster: an insertion-ordered map from internal voice name
//! to speaker, filled once at setup and read for every lookup.
//!
//! The map itself is the outside crate's; this module declares it and
//! gives its contents a name, `roster_entries`, over which the wrappers
//! state what `insert` and the value listing do.

use vstd::prelude::*;
use crate::aivoice::Speaker;

verus! {

#[verifier::external_type_specification]
#[verifier::external_body]
#[verifier::reject_recursive_types(K)]
#[verifier::reject_recursive_types(V)]
#[verifier::reject_recursive_types(S)]
pub struct ExIndexMap<K, V, S>(indexmap::IndexMap<K, V, S>);

/// The key-value pairs the roster holds, in insertion order.
pub uninterp spec fn roster_entries(m: indexmap::IndexMap<String, Speaker>) -> Seq<(Seq<char>, Speaker)>;

/// No two entries share a key; the map maintains this at all times.
pub open spec fn roster_keys_unique(es: Seq<(Seq<char>, Speaker)>) -> bool {
    forall|i: int, j: int| 0 <= i < j < es.len() ==> (#[trigger] es[i]).0 != (#[trigger] es[j]).0
}

/// Whether some entry carries the given key.
pub open spec fn roster_has_key(es: Seq<(Seq<char>, Speaker)>, key: Seq<char>) -> bool {
    exists|i: int| 0 <= i < es.len() && (#[trigger] es[i]).0 == key
}

/// The index of the entry carrying the given key.
pub open spec fn roster_index_of(es: Seq<(Seq<char>, Speaker)>, key: Seq<char>) -> int {
    choose|i: int| 0 <= i < es.len() && (#[trigger] es[i]).0 == key
}

/// Relies on `IndexMap::new`: the new map holds nothing.
#[verifier::external_body]
pub fn roster_new() -> (m: indexmap::IndexMap<String, Speaker>)
    ensures
        roster_entries(m) == Seq::<(Seq<char>, Speaker)>::empty(),
{
    indexmap::IndexMap::new()
}

/// Relies on `IndexMap::insert`: a present key keeps its place and takes
/// the new value, the old value coming back; an absent key is appended
/// last. Keys stay unique either way.
#[verifier::external_body]
pub fn roster_insert(
    m: &mut indexmap::IndexMap<String, Speaker>,
    key: String,
    value: Speaker,
) -> (prev: Option<Speaker>)
    ensures
        roster_keys_unique(roster_entries(*old(m))) ==> roster_keys_unique(
            roster_entries(*final(m)),
        ),
        roster_has_key(roster_entries(*old(m)), key@) ==> {
            let es = roster_entries(*old(m));
            let i = roster_index_of(es, key@);
            &&& roster_entries(*final(m)) == es.update(i, (key@, value))
            &&& prev == Some(es[i].1)
        },
        !roster_has_key(roster_entries(*old(m)), key@) ==> {
            &&& roster_entries(*final(m)) == roster_entries(*old(m)).push((key@, value))
            &&& prev == None::<Speaker>
        },
{
    m.insert(key, value)
}

/// The speakers a roster's entries carry, in order.
pub open spec fn entry_speakers(es: Seq<(Seq<char>, Speaker)>) -> Seq<Speaker> {
    Seq::new(es.len(), |i: int| es[i].1)
}

/// Relies on `IndexMap::values`: the values in insertion order, cloned
/// out into a plain vector.
#[verifier::external_body]
pub fn roster_values(m: &indexmap::IndexMap<String, Speaker>) -> (r: Vec<Speaker>)
    ensures
        r@ == entry_speakers(roster_entries(*m)),
{
    m.values().cloned().collect()
}

/// One insertion's effect on the entries: a present key keeps its place
/// and takes the new value, an absent key is appended last.
pub open spec fn spec_insert_entry(
    es: Seq<(Seq<char>, Speaker)>,
    key: Seq<char>,
    value: Speaker,
) -> Seq<(Seq<char>, Speaker)> {
    if roster_has_key(es, key) {
        es.update(roster_index_of(es, key), (key, value))
    } else {
        es.push((key, value))
    }
}

/// The roster built from a speaker list, each speaker keyed by its
/// internal voice name, first to last.
pub open spec fn spec_roster_of(ss: Seq<Speaker>, upto: int) -> Seq<(Seq<char>, Speaker)>
    decreases upto,
{
    if upto <= 0 {
        Seq::empty()
    } else {
        spec_insert_entry(
            spec_roster_of(ss, upto - 1),
            ss[upto - 1].internal_name@,
            ss[upto - 1],
        )
    }
}

/// Fills a fresh roster with the given speakers, each under its internal
/// voice name: a later speaker with a name already present replaces the
/// earlier one in place, as the map's insertion does.
pub fn build_roster(speakers: Vec<Speaker>) -> (m: indexmap::IndexMap<String, Speaker>)
    ensures
        roster_entries(m) == spec_roster_of(speakers@, speakers@.len() as int),
        roster_keys_unique(roster_entries(m)),
{
    let ghost all = speakers@;
    let mut rest = speakers;
    let total = rest.len();
    let mut m = roster_new();
    let mut i: usize = 0;
    proof {
        assert(roster_keys_unique(roster_entries(m)));
        assert(rest@ =~= all.subrange(i as int, all.len() as int));
    }
    while rest.len() > 0
        invariant
            total == all.len(),
            i <= total,
            i + rest@.len() == all.len(),
            rest@ == all.subrange(i as int, all.len() as int),
            roster_entries(m) == spec_roster_of(all, i as int),
            roster_keys_unique(roster_entries(m)),
        decreases rest@.len(),
    {
        let sp = rest.remove(0);
        proof {
            assert(sp == all[i as int]);
        }
        let key = sp.internal_name.clone();
        roster_insert(&mut m, key, sp);
        proof {
            assert(rest@ =~= all.subrange(i as int + 1, all.len() as int));
        }
        i = i + 1;
    }
    proof {
        assert(i == all.len());
    }
    m
}

/// The internal voice name of the first enumerated speaker — the voice
/// the shared preset is first created with — or `None` on an empty
/// roster.
pub fn first_voice_name(m: &indexmap::IndexMap<String, Speaker>) -> (r: Option<String>)
    ensures
        match r {
            Some(name) => roster_entries(*m).len() > 0 && name
                == roster_entries(*m)[0].1.internal_name,
            None => roster_entries(*m).len() == 0,
        },
{
    let values = roster_values(m);
    if values.len() == 0 {
        None
    } else {
        Some(values[0].internal_name.clone())
    }
}

} // verus!
