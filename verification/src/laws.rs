//! Properties of resolution, stated and proved once for every registry.

use vstd::prelude::*;
use crate::dict::{DictModel, dict_at, dict_has, dict_values_nonempty};
use crate::registry::{InsultsModel, captain_rottingham_admonition, sword_master_admonition};

verus! {

/// An insult known to some faction always has a retort, and `is_retort`
/// accepts exactly that retort for it.
pub proof fn lemma_known_insult_has_retort(v: InsultsModel, k: Seq<char>)
    requires
        dict_has(v.monkey_island1, k) || dict_has(v.sword_master, k) || dict_has(
            v.monkey_island3,
            k,
        ) || dict_has(v.captain_rottingham, k) || dict_has(v.monkey_island4, k),
    ensures
        v.retort_spec(k) is Some,
        v.is_retort_spec(k, v.retort_spec(k)->Some_0),
{
}

/// An insult known to no faction has no retort.
pub proof fn lemma_unknown_insult_has_no_retort(v: InsultsModel, k: Seq<char>)
    requires
        !dict_has(v.monkey_island1, k),
        !dict_has(v.sword_master, k),
        !dict_has(v.monkey_island3, k),
        !dict_has(v.captain_rottingham, k),
        !dict_has(v.monkey_island4, k),
    ensures
        v.retort_spec(k) is None,
{
}

/// A sword master insult put to the first island's faction always draws the
/// fixed admonishment, never a retort mapped by any dictionary entry.
pub proof fn lemma_sword_master_insult_admonished(v: InsultsModel, k: Seq<char>)
    requires
        dict_has(v.sword_master, k),
    ensures
        v.mi1_retort_spec(k) == Some(sword_master_admonition()),
{
}

/// One of Captain Rottingham's insults put to the third island's faction
/// always draws that faction's fixed admonishment.
pub proof fn lemma_captain_rottingham_insult_admonished(v: InsultsModel, k: Seq<char>)
    requires
        dict_has(v.captain_rottingham, k),
    ensures
        v.mi3_retort_spec(k) == Some(captain_rottingham_admonition()),
{
}

/// The retort a dictionary maps a present key to is one of its entries'
/// values, so it is non-empty whenever all of those are.
proof fn lemma_dict_at_nonempty(d: DictModel, k: Seq<char>)
    requires
        dict_has(d, k),
        dict_values_nonempty(d),
    ensures
        dict_at(d, k).len() > 0,
{
    let i = choose|i: int| 0 <= i < d.len() && d[i].0 == k;
    assert(d[i].1.len() > 0);
}

/// Resolution with fallback never hands back an empty phrase, provided
/// every retort and every fallback phrase of the data is non-empty: the
/// result is either the true retort of a known insult or a member of the
/// fallback pool, and each of those is non-empty.
pub proof fn lemma_resolution_nonempty(v: InsultsModel, k: Seq<char>, r: Seq<char>)
    requires
        forall|i: int| 0 <= i < v.failed_retorts.len() ==> v.failed_retorts[i].len() > 0,
        dict_values_nonempty(v.monkey_island1),
        dict_values_nonempty(v.sword_master),
        dict_values_nonempty(v.monkey_island3),
        dict_values_nonempty(v.captain_rottingham),
        dict_values_nonempty(v.monkey_island4),
        (v.retort_spec(k) matches Some(x) && r == x) || (v.retort_spec(k) is None
            && v.failed_retorts.contains(r)),
    ensures
        r.len() > 0,
{
    reveal_strlit("That's not fair, you're using the Sword Master's insults!");
    reveal_strlit("That's not fair, you're using Captain Rottingham's insults!");
    if v.retort_spec(k) is Some {
        if dict_has(v.sword_master, k) {
            lemma_dict_at_nonempty(v.sword_master, k);
        } else if dict_has(v.monkey_island1, k) {
            lemma_dict_at_nonempty(v.monkey_island1, k);
        } else if dict_has(v.captain_rottingham, k) {
            lemma_dict_at_nonempty(v.captain_rottingham, k);
        } else if dict_has(v.monkey_island3, k) {
            lemma_dict_at_nonempty(v.monkey_island3, k);
        } else {
            lemma_dict_at_nonempty(v.monkey_island4, k);
        }
    }
}

/// Resolution is pure: two results of `retort` for the same registry and
/// the same insult are identical.
pub proof fn lemma_retort_deterministic(
    v: InsultsModel,
    k: Seq<char>,
    r1: Option<Seq<char>>,
    r2: Option<Seq<char>>,
)
    requires
        r1 == v.retort_spec(k),
        r2 == v.retort_spec(k),
    ensures
        r1 == r2,
{
}

} // verus!
