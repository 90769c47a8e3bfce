//! The insult registry: five faction dictionaries and the fallback phrases.

use vstd::prelude::*;
use crate::dict::{
    DictModel, collect_keys, dict_has, dict_keys, dict_lookup, keys_distinct, retort_from,
    view_entries, view_refs, view_strings,
};
use crate::sampling::draw_index;

verus! {

/// The registry. Built once from decoded data and read-only thereafter.
///
/// Resolution priority, highest first: the sword master, then the first
/// island's faction (whose lookups are overridden by the sword master's
/// insults), then the third island's faction (overridden by Captain
/// Rottingham's insults), then Captain Rottingham, then the fourth
/// island's faction.
pub struct Insults {
    failed_retorts: Vec<String>,
    monkey_island1: Vec<(String, String)>,
    sword_master: Vec<(String, String)>,
    monkey_island3: Vec<(String, String)>,
    captain_rottingham: Vec<(String, String)>,
    monkey_island4: Vec<(String, String)>,
}

/// The mathematical content of a registry.
pub ghost struct InsultsModel {
    pub failed_retorts: Seq<Seq<char>>,
    pub monkey_island1: DictModel,
    pub sword_master: DictModel,
    pub monkey_island3: DictModel,
    pub captain_rottingham: DictModel,
    pub monkey_island4: DictModel,
}

impl View for Insults {
    type V = InsultsModel;

    closed spec fn view(&self) -> InsultsModel {
        InsultsModel {
            failed_retorts: view_strings(self.failed_retorts@),
            monkey_island1: view_entries(self.monkey_island1@),
            sword_master: view_entries(self.sword_master@),
            monkey_island3: view_entries(self.monkey_island3@),
            captain_rottingham: view_entries(self.captain_rottingham@),
            monkey_island4: view_entries(self.monkey_island4@),
        }
    }
}

/// The admonishment returned when a sword master insult reaches the first
/// island's lookup.
pub open spec fn sword_master_admonition() -> Seq<char> {
    "That's not fair, you're using the Sword Master's insults!"@
}

/// The admonishment returned when one of Captain Rottingham's insults
/// reaches the third island's lookup.
pub open spec fn captain_rottingham_admonition() -> Seq<char> {
    "That's not fair, you're using Captain Rottingham's insults!"@
}

/// The first of two optional results, if present, else the second.
pub open spec fn first_some(a: Option<Seq<char>>, b: Option<Seq<char>>) -> Option<Seq<char>> {
    if a is Some {
        a
    } else {
        b
    }
}

impl InsultsModel {
    /// Every dictionary has pairwise distinct keys.
    pub open spec fn wf(self) -> bool {
        &&& keys_distinct(self.monkey_island1)
        &&& keys_distinct(self.sword_master)
        &&& keys_distinct(self.monkey_island3)
        &&& keys_distinct(self.captain_rottingham)
        &&& keys_distinct(self.monkey_island4)
    }

    /// Plain lookup in the sword master's dictionary.
    pub open spec fn sword_master_retort_spec(self, k: Seq<char>) -> Option<Seq<char>> {
        dict_lookup(self.sword_master, k)
    }

    /// Lookup for the first island's faction: a sword master insult yields
    /// the fixed admonishment, anything else the faction's own retort.
    pub open spec fn mi1_retort_spec(self, k: Seq<char>) -> Option<Seq<char>> {
        if dict_has(self.sword_master, k) {
            Some(sword_master_admonition())
        } else {
            dict_lookup(self.monkey_island1, k)
        }
    }

    /// Lookup for the third island's faction: one of Captain Rottingham's
    /// insults yields the fixed admonishment, anything else the faction's
    /// own retort.
    pub open spec fn mi3_retort_spec(self, k: Seq<char>) -> Option<Seq<char>> {
        if dict_has(self.captain_rottingham, k) {
            Some(captain_rottingham_admonition())
        } else {
            dict_lookup(self.monkey_island3, k)
        }
    }

    /// Plain lookup in Captain Rottingham's dictionary.
    pub open spec fn captain_rottingham_retort_spec(self, k: Seq<char>) -> Option<Seq<char>> {
        dict_lookup(self.captain_rottingham, k)
    }

    /// Plain lookup in the fourth island's dictionary.
    pub open spec fn mi4_retort_spec(self, k: Seq<char>) -> Option<Seq<char>> {
        dict_lookup(self.monkey_island4, k)
    }

    /// Global resolution: the factions are tried in priority order and the
    /// first present result wins.
    pub open spec fn retort_spec(self, k: Seq<char>) -> Option<Seq<char>> {
        first_some(
            self.sword_master_retort_spec(k),
            first_some(
                self.mi1_retort_spec(k),
                first_some(
                    self.mi3_retort_spec(k),
                    first_some(self.captain_rottingham_retort_spec(k), self.mi4_retort_spec(k)),
                ),
            ),
        )
    }

    /// The insult is known and maps exactly to this retort.
    pub open spec fn is_retort_spec(self, k: Seq<char>, c: Seq<char>) -> bool {
        self.retort_spec(k) == Some(c)
    }

    /// All insults, faction by faction in the fixed enumeration order.
    pub open spec fn all_insults(self) -> Seq<Seq<char>> {
        dict_keys(self.monkey_island1) + dict_keys(self.sword_master) + dict_keys(
            self.monkey_island3,
        ) + dict_keys(self.captain_rottingham) + dict_keys(self.monkey_island4)
    }
}

/// The view of an optional borrowed phrase.
pub open spec fn opt_view(o: Option<&str>) -> Option<Seq<char>> {
    match o {
        Some(s) => Some(s@),
        None => None,
    }
}

impl Insults {
    /// Builds the registry from already decoded data. Each dictionary must
    /// have pairwise distinct keys, as a mapping read from a structured
    /// document does.
    pub fn from_parts(
        failed_retorts: Vec<String>,
        monkey_island1: Vec<(String, String)>,
        sword_master: Vec<(String, String)>,
        monkey_island3: Vec<(String, String)>,
        captain_rottingham: Vec<(String, String)>,
        monkey_island4: Vec<(String, String)>,
    ) -> (r: Insults)
        requires
            keys_distinct(view_entries(monkey_island1@)),
            keys_distinct(view_entries(sword_master@)),
            keys_distinct(view_entries(monkey_island3@)),
            keys_distinct(view_entries(captain_rottingham@)),
            keys_distinct(view_entries(monkey_island4@)),
        ensures
            r@.wf(),
            r@.failed_retorts == view_strings(failed_retorts@),
            r@.monkey_island1 == view_entries(monkey_island1@),
            r@.sword_master == view_entries(sword_master@),
            r@.monkey_island3 == view_entries(monkey_island3@),
            r@.captain_rottingham == view_entries(captain_rottingham@),
            r@.monkey_island4 == view_entries(monkey_island4@),
    {
        Insults {
            failed_retorts,
            monkey_island1,
            sword_master,
            monkey_island3,
            captain_rottingham,
            monkey_island4,
        }
    }

    /// The pool of fallback phrases, as loaded.
    pub fn failed_retorts(&self) -> (r: &[String])
        ensures
            view_strings(r@) == self@.failed_retorts,
    {
        self.failed_retorts.as_slice()
    }

    /// Retort to a sword master insult.
    pub fn sword_master_retort<'a>(&'a self, insult: &str) -> (r: Option<&'a str>)
        requires
            self@.wf(),
        ensures
            opt_view(r) == self@.sword_master_retort_spec(insult@),
    {
        retort_from(insult, &self.sword_master)
    }

    /// Retort to one of Captain Rottingham's insults.
    pub fn captain_rottingham_retort<'a>(&'a self, insult: &str) -> (r: Option<&'a str>)
        requires
            self@.wf(),
        ensures
            opt_view(r) == self@.captain_rottingham_retort_spec(insult@),
    {
        retort_from(insult, &self.captain_rottingham)
    }

    /// Retort to an insult of the first island's faction.
    ///
    /// Returns the fixed admonishment if the insult belongs to the sword
    /// master, whether or not this faction also knows it.
    pub fn mi1_retort<'a>(&'a self, insult: &str) -> (r: Option<&'a str>)
        requires
            self@.wf(),
        ensures
            opt_view(r) == self@.mi1_retort_spec(insult@),
    {
        match self.sword_master_retort(insult) {
            Some(_) => Some("That's not fair, you're using the Sword Master's insults!"),
            None => retort_from(insult, &self.monkey_island1),
        }
    }

    /// Retort to an insult of the third island's faction.
    ///
    /// Returns the fixed admonishment if the insult belongs to Captain
    /// Rottingham, whether or not this faction also knows it.
    pub fn mi3_retort<'a>(&'a self, insult: &str) -> (r: Option<&'a str>)
        requires
            self@.wf(),
        ensures
            opt_view(r) == self@.mi3_retort_spec(insult@),
    {
        match self.captain_rottingham_retort(insult) {
            Some(_) => Some("That's not fair, you're using Captain Rottingham's insults!"),
            None => retort_from(insult, &self.monkey_island3),
        }
    }

    /// Retort to an insult of the fourth island's faction.
    pub fn mi4_retort<'a>(&'a self, insult: &str) -> (r: Option<&'a str>)
        requires
            self@.wf(),
        ensures
            opt_view(r) == self@.mi4_retort_spec(insult@),
    {
        retort_from(insult, &self.monkey_island4)
    }

    /// Correctly retort to an insult, if there is a retort: the factions
    /// are tried in priority order and the first present result wins.
    pub fn retort<'a>(&'a self, insult: &str) -> (r: Option<&'a str>)
        requires
            self@.wf(),
        ensures
            opt_view(r) == self@.retort_spec(insult@),
    {
        match self.sword_master_retort(insult) {
            Some(x) => Some(x),
            None => match self.mi1_retort(insult) {
                Some(x) => Some(x),
                None => match self.mi3_retort(insult) {
                    Some(x) => Some(x),
                    None => match self.captain_rottingham_retort(insult) {
                        Some(x) => Some(x),
                        None => self.mi4_retort(insult),
                    },
                },
            },
        }
    }

    /// True exactly when the insult is known and `retort` maps it to this
    /// candidate.
    pub fn is_retort(&self, insult: &str, retort: &str) -> (r: bool)
        requires
            self@.wf(),
        ensures
            r == self@.is_retort_spec(insult@, retort@),
    {
        match self.retort(insult) {
            Some(x) => crate::dict::str_eq(x, retort),
            None => false,
        }
    }

    /// Correctly retort to an insult, with fallback to a random failed
    /// retort when no faction knows it.
    pub fn retort_or_rand_fail<'a>(&'a self, insult: &str, rng: &mut rand::rngs::StdRng) -> (r:
        &'a str)
        requires
            self@.wf(),
            self@.retort_spec(insult@) is None ==> self@.failed_retorts.len() > 0,
        ensures
            self@.retort_spec(insult@) matches Some(v) ==> r@ == v,
            self@.retort_spec(insult@) is None ==> self@.failed_retorts.contains(r@),
    {
        match self.retort(insult) {
            Some(x) => x,
            None => self.rand_failed_retort(rng),
        }
    }

    /// Uniformly samples one of the fallback phrases.
    pub fn rand_failed_retort<'a>(&'a self, rng: &mut rand::rngs::StdRng) -> (r: &'a str)
        requires
            self@.failed_retorts.len() > 0,
        ensures
            self@.failed_retorts.contains(r@),
    {
        let i = draw_index(rng, self.failed_retorts.len());
        let r = self.failed_retorts[i].as_str();
        proof {
            assert(self@.failed_retorts[i as int] == r@);
        }
        r
    }

    /// The insults of the first island's faction.
    pub fn mi1_insults<'a>(&'a self) -> (r: Vec<&'a String>)
        ensures
            view_refs(r@) == dict_keys(self@.monkey_island1),
    {
        let mut res: Vec<&String> = Vec::new();
        collect_keys(&self.monkey_island1, &mut res);
        proof {
            assert(view_refs(res@) =~= dict_keys(self@.monkey_island1));
        }
        res
    }

    /// The insults of the sword master.
    pub fn sword_master_insults<'a>(&'a self) -> (r: Vec<&'a String>)
        ensures
            view_refs(r@) == dict_keys(self@.sword_master),
    {
        let mut res: Vec<&String> = Vec::new();
        collect_keys(&self.sword_master, &mut res);
        proof {
            assert(view_refs(res@) =~= dict_keys(self@.sword_master));
        }
        res
    }

    /// The insults of the third island's faction.
    pub fn monkey_island3_insults<'a>(&'a self) -> (r: Vec<&'a String>)
        ensures
            view_refs(r@) == dict_keys(self@.monkey_island3),
    {
        let mut res: Vec<&String> = Vec::new();
        collect_keys(&self.monkey_island3, &mut res);
        proof {
            assert(view_refs(res@) =~= dict_keys(self@.monkey_island3));
        }
        res
    }

    /// The insults of Captain Rottingham.
    pub fn captain_rottingham_insults<'a>(&'a self) -> (r: Vec<&'a String>)
        ensures
            view_refs(r@) == dict_keys(self@.captain_rottingham),
    {
        let mut res: Vec<&String> = Vec::new();
        collect_keys(&self.captain_rottingham, &mut res);
        proof {
            assert(view_refs(res@) =~= dict_keys(self@.captain_rottingham));
        }
        res
    }

    /// The insults of the fourth island's faction.
    pub fn monkey_island4_insults<'a>(&'a self) -> (r: Vec<&'a String>)
        ensures
            view_refs(r@) == dict_keys(self@.monkey_island4),
    {
        let mut res: Vec<&String> = Vec::new();
        collect_keys(&self.monkey_island4, &mut res);
        proof {
            assert(view_refs(res@) =~= dict_keys(self@.monkey_island4));
        }
        res
    }

    /// All insults, faction by faction in the fixed enumeration order.
    /// Phrases known to several factions appear once per faction.
    pub fn insults<'a>(&'a self) -> (r: Vec<&'a String>)
        ensures
            view_refs(r@) == self@.all_insults(),
    {
        let mut res = self.mi1_insults();
        collect_keys(&self.sword_master, &mut res);
        collect_keys(&self.monkey_island3, &mut res);
        collect_keys(&self.captain_rottingham, &mut res);
        collect_keys(&self.monkey_island4, &mut res);
        proof {
            assert(view_refs(res@) =~= self@.all_insults());
        }
        res
    }

    /// Uniformly samples one phrase from the combined insult list. A phrase
    /// that several factions know is accordingly more likely to be drawn.
    pub fn rand_insult<'a>(&'a self, rng: &mut rand::rngs::StdRng) -> (r: &'a String)
        requires
            self@.all_insults().len() > 0,
        ensures
            self@.all_insults().contains(r@),
    {
        let all = self.insults();
        let i = draw_index(rng, all.len());
        let r = all[i];
        proof {
            assert(self@.all_insults()[i as int] == r@);
        }
        r
    }
}

} // verus!
