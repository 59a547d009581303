use vstd::prelude::*;
use indexmap::IndexMap;

verus! {

#[verifier::external_type_specification]
#[verifier::external_body]
#[verifier::reject_recursive_types(K)]
#[verifier::reject_recursive_types(V)]
#[verifier::reject_recursive_types(S)]
pub struct ExIndexMap<K, V, S>(IndexMap<K, V, S>);

/// The entries of a label map, in their order: each key with its value.
pub uninterp spec fn label_entries(m: IndexMap<String, String>) -> Seq<(Seq<char>, Seq<char>)>;

/// Whether `key` is among the keys of `entries`.
pub open spec fn has_key(entries: Seq<(Seq<char>, Seq<char>)>, key: Seq<char>) -> bool {
    exists|i: int| 0 <= i < entries.len() && entries[i].0 == key
}

/// The entries after an insertion: a key already there keeps its place and
/// takes the new value; a new key goes last.
pub open spec fn insert_entry(
    entries: Seq<(Seq<char>, Seq<char>)>,
    key: Seq<char>,
    value: Seq<char>,
) -> Seq<(Seq<char>, Seq<char>)> {
    if has_key(entries, key) {
        let i = choose|i: int| 0 <= i < entries.len() && entries[i].0 == key;
        entries.update(i, (key, value))
    } else {
        entries.push((key, value))
    }
}

/// The entries of a label set given as pairs, in order: later pairs override
/// the value of an earlier one with the same key, which keeps its place.
pub open spec fn labels_of(pairs: Seq<(Seq<char>, Seq<char>)>) -> Seq<(Seq<char>, Seq<char>)>
    decreases pairs.len(),
{
    if pairs.len() == 0 {
        seq![]
    } else {
        insert_entry(labels_of(pairs.drop_last()), pairs.last().0, pairs.last().1)
    }
}

pub open spec fn pair_views(pairs: Seq<(String, String)>) -> Seq<(Seq<char>, Seq<char>)> {
    pairs.map_values(|p: (String, String)| (p.0@, p.1@))
}

/// Relies on `IndexMap::new`: a new map is empty.
#[verifier::external_body]
fn empty_labels() -> (r: IndexMap<String, String>)
    ensures
        label_entries(r) == Seq::<(Seq<char>, Seq<char>)>::empty(),
{
    IndexMap::new()
}

/// Relies on `IndexMap::insert`: an equivalent key already in the map keeps
/// its place in the order and takes the new value; otherwise the pair goes
/// last. `String` keys are equivalent exactly when their text is equal.
#[verifier::external_body]
fn insert_label(m: &mut IndexMap<String, String>, key: String, value: String)
    ensures
        label_entries(*final(m)) == insert_entry(label_entries(*old(m)), key@, value@),
{
    m.insert(key, value);
}

/// Relies on `IndexMap::iter`: the entries come out in the map's order.
#[verifier::external_body]
fn label_pairs(m: &IndexMap<String, String>) -> (r: Vec<(String, String)>)
    ensures
        pair_views(r@) == label_entries(*m),
{
    m.iter().map(|(k, v)| (k.clone(), v.clone())).collect()
}

/// The label set of `--label` pairs, in the order of their first appearance;
/// a key given again takes the later value.
pub fn label_map(pairs: &Vec<(String, String)>) -> (r: IndexMap<String, String>)
    ensures
        label_entries(r) == labels_of(pair_views(pairs@)),
{
    let mut m = empty_labels();
    let mut i: usize = 0;
    while i < pairs.len()
        invariant
            i <= pairs@.len(),
            label_entries(m) == labels_of(pair_views(pairs@).take(i as int)),
        decreases pairs@.len() - i,
    {
        proof {
            let next = pair_views(pairs@).take(i + 1);
            assert(next.drop_last() =~= pair_views(pairs@).take(i as int));
            assert(next.last() == (pairs@[i as int].0@, pairs@[i as int].1@));
        }
        insert_label(&mut m, pairs[i].0.clone(), pairs[i].1.clone());
        i = i + 1;
    }
    proof {
        assert(pair_views(pairs@).take(pairs@.len() as int) =~= pair_views(pairs@));
    }
    m
}

/// The label set of an optional list of `--label` pairs: empty where none
/// was given.
pub fn label_map_of(pairs: &Option<Vec<(String, String)>>) -> (r: IndexMap<String, String>)
    ensures
        label_entries(r) == match pairs {
            Some(p) => labels_of(pair_views(p@)),
            None => Seq::<(Seq<char>, Seq<char>)>::empty(),
        },
{
    match pairs {
        Some(p) => label_map(p),
        None => empty_labels(),
    }
}

/// The entries of a label set, in order.
pub fn label_list(m: &IndexMap<String, String>) -> (r: Vec<(String, String)>)
    ensures
        pair_views(r@) == label_entries(*m),
{
    label_pairs(m)
}

} // verus!
