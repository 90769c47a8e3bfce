//! The mathematical model of a faction dictionary.
//!
//! A dictionary is held as a vector of `(insult, retort)` pairs whose keys
//! are pairwise distinct, and is modelled as a sequence of pairs of
//! character sequences.

use vstd::prelude::*;

verus! {

/// The model of one dictionary: each entry pairs an insult with its retort.
pub type DictModel = Seq<(Seq<char>, Seq<char>)>;

/// The model of a vector of entries.
pub open spec fn view_entries(s: Seq<(String, String)>) -> DictModel {
    s.map_values(|p: (String, String)| (p.0@, p.1@))
}

/// The model of a vector of plain phrases.
pub open spec fn view_strings(s: Seq<String>) -> Seq<Seq<char>> {
    s.map_values(|x: String| x@)
}

/// No two entries of the dictionary share a key.
pub open spec fn keys_distinct(d: DictModel) -> bool {
    forall|i: int, j: int| 0 <= i < j < d.len() ==> d[i].0 != d[j].0
}

/// Some entry of the dictionary has this key.
pub open spec fn dict_has(d: DictModel, k: Seq<char>) -> bool {
    exists|i: int| 0 <= i < d.len() && d[i].0 == k
}

/// The retort that the dictionary maps this key to. Meaningful only when
/// `dict_has(d, k)` holds; with distinct keys it is the unique such value.
pub open spec fn dict_at(d: DictModel, k: Seq<char>) -> Seq<char> {
    let i = choose|i: int| 0 <= i < d.len() && d[i].0 == k;
    d[i].1
}

/// Exact, case-sensitive lookup: the retort for the key, or absence.
pub open spec fn dict_lookup(d: DictModel, k: Seq<char>) -> Option<Seq<char>> {
    if dict_has(d, k) {
        Some(dict_at(d, k))
    } else {
        None
    }
}

/// Every retort of the dictionary is a non-empty phrase.
pub open spec fn dict_values_nonempty(d: DictModel) -> bool {
    forall|i: int| 0 <= i < d.len() ==> d[i].1.len() > 0
}

/// The keys of the dictionary, in entry order.
pub open spec fn dict_keys(d: DictModel) -> Seq<Seq<char>> {
    d.map_values(|p: (Seq<char>, Seq<char>)| p.0)
}

/// The model of a vector of borrowed phrases.
pub open spec fn view_refs(s: Seq<&String>) -> Seq<Seq<char>> {
    s.map_values(|x: &String| x@)
}

/// Appends every key of the dictionary, in entry order.
pub(crate) fn collect_keys<'a>(dict: &'a Vec<(String, String)>, dst: &mut Vec<&'a String>)
    ensures
        view_refs(final(dst)@) == view_refs(old(dst)@) + dict_keys(view_entries(dict@)),
{
    let ghost base = view_refs(dst@);
    let ghost ks = dict_keys(view_entries(dict@));
    let mut i: usize = 0;
    proof {
        assert(view_refs(dst@) =~= base + ks.take(0));
    }
    while i < dict.len()
        invariant
            i <= dict.len(),
            ks == dict_keys(view_entries(dict@)),
            view_refs(dst@) == base + ks.take(i as int),
        decreases dict.len() - i,
    {
        let ghost pre = dst@;
        dst.push(&dict[i].0);
        proof {
            let full = base + ks.take(i as int + 1);
            assert(view_refs(pre).len() == pre.len());
            assert forall|k: int| 0 <= k < full.len() implies view_refs(dst@)[k] == full[k] by {
                if k < pre.len() {
                    assert(view_refs(pre)[k] == pre[k]@);
                } else {
                    assert(dst@[k]@ == dict@[i as int].0@);
                }
            }
            assert(view_refs(dst@) =~= full);
        }
        i += 1;
    }
    proof {
        assert(view_refs(dst@) =~= base + ks);
    }
}

/// With distinct keys, every entry whose key is `k` holds `dict_at(d, k)`.
pub proof fn lemma_dict_at_entry(d: DictModel, k: Seq<char>, i: int)
    requires
        keys_distinct(d),
        0 <= i < d.len(),
        d[i].0 == k,
    ensures
        dict_has(d, k),
        dict_at(d, k) == d[i].1,
{
    let j = choose|j: int| 0 <= j < d.len() && d[j].0 == k;
    if i < j {
        assert(d[i].0 != d[j].0);
    } else if j < i {
        assert(d[j].0 != d[i].0);
    }
}

/// Relies on str's `PartialEq`: two string slices are equal exactly when
/// their character sequences are.
#[verifier::external_body]
pub(crate) fn str_eq(a: &str, b: &str) -> (r: bool)
    ensures
        r == (a@ == b@),
{
    a == b
}

/// Finds the retort paired with `insult` in the dictionary, by exact,
/// case-sensitive string match.
pub(crate) fn retort_from<'a>(insult: &str, dict: &'a Vec<(String, String)>) -> (r: Option<&'a str>)
    requires
        keys_distinct(view_entries(dict@)),
    ensures
        match r {
            Some(v) => dict_has(view_entries(dict@), insult@) && v@ == dict_at(
                view_entries(dict@),
                insult@,
            ),
            None => !dict_has(view_entries(dict@), insult@),
        },
{
    let ghost d = view_entries(dict@);
    let mut i: usize = 0;
    while i < dict.len()
        invariant
            i <= dict.len(),
            d == view_entries(dict@),
            keys_distinct(d),
            forall|j: int| 0 <= j < i ==> d[j].0 != insult@,
        decreases dict.len() - i,
    {
        if str_eq(dict[i].0.as_str(), insult) {
            proof {
                lemma_dict_at_entry(d, insult@, i as int);
            }
            return Some(dict[i].1.as_str());
        }
        i += 1;
    }
    None
}

/// True exactly when no two entries of the vector share a key.
pub fn keys_are_distinct(dict: &Vec<(String, String)>) -> (r: bool)
    ensures
        r == keys_distinct(view_entries(dict@)),
{
    let ghost d = view_entries(dict@);
    let mut i: usize = 0;
    while i < dict.len()
        invariant
            i <= dict.len(),
            d == view_entries(dict@),
            forall|p: int, q: int| 0 <= p < i && p < q < d.len() ==> d[p].0 != d[q].0,
        decreases dict.len() - i,
    {
        let mut j: usize = i + 1;
        while j < dict.len()
            invariant
                i < j <= dict.len(),
                d == view_entries(dict@),
                forall|p: int, q: int| 0 <= p < i && p < q < d.len() ==> d[p].0 != d[q].0,
                forall|q: int| i < q < j ==> d[i as int].0 != d[q].0,
            decreases dict.len() - j,
        {
            if str_eq(dict[i].0.as_str(), dict[j].0.as_str()) {
                proof {
                    assert(d[i as int].0 == d[j as int].0);
                }
                return false;
            }
            j += 1;
        }
        i += 1;
    }
    true
}

} // verus!
