use insults::dict::keys_are_distinct;
use insults::registry::Insults;
use rand::SeedableRng;

const SWORD_MASTER_ADMONITION: &str =
    "That's not fair, you're using the Sword Master's insults!";
const CAPTAIN_ADMONITION: &str =
    "That's not fair, you're using Captain Rottingham's insults!";

fn pairs(entries: &[(&str, &str)]) -> Vec<(String, String)> {
    entries
        .iter()
        .map(|(k, v)| (k.to_string(), v.to_string()))
        .collect()
}

fn phrases(list: &[&str]) -> Vec<String> {
    list.iter().map(|s| s.to_string()).collect()
}

fn sample_registry() -> Insults {
    Insults::from_parts(
        phrases(&["How appropriate. You fight like a cow."]),
        pairs(&[(
            "Have you stopped wearing diapers yet?",
            "Why, did you want to borrow one?",
        )]),
        pairs(&[(
            "My tongue is sharper than any sword.",
            "First you'd better stop waving it like a feather-duster.",
        )]),
        pairs(&[(
            "Would you like to be buried, or cremated?",
            "With you around, I'd rather be fumigated.",
        )]),
        pairs(&[(
            "My skills with a sword are virtually unmatched!",
            "You're right, they are purely virtual.",
        )]),
        pairs(&[(
            "Hey, look over there!",
            "Yeah, yeah I know: it's a three headed monkey.",
        )]),
    )
}

#[test]
fn test_all() {
    let mi = sample_registry();

    assert_eq!(mi.mi1_retort("You're lazy!"), None);
    assert_eq!(
        mi.mi1_retort("Have you stopped wearing diapers yet?"),
        Some("Why, did you want to borrow one?")
    );

    assert_eq!(mi.mi3_retort("You're lazy!"), None);
    assert_eq!(
        mi.mi3_retort("Would you like to be buried, or cremated?"),
        Some("With you around, I'd rather be fumigated.")
    );

    assert_eq!(mi.mi4_retort("You're lazy!"), None);
    assert_eq!(
        mi.mi4_retort("Hey, look over there!"),
        Some("Yeah, yeah I know: it's a three headed monkey.")
    );

    assert_eq!(mi.retort("You're lazy!"), None);
    assert_eq!(
        mi.retort("Have you stopped wearing diapers yet?"),
        Some("Why, did you want to borrow one?")
    );

    assert_eq!(mi.retort("You're lazy!"), None);
    assert_eq!(
        mi.retort("Would you like to be buried, or cremated?"),
        Some("With you around, I'd rather be fumigated.")
    );

    assert_eq!(mi.retort("You're lazy!"), None);
    assert_eq!(
        mi.retort("Hey, look over there!"),
        Some("Yeah, yeah I know: it's a three headed monkey.")
    );

    // Check insults/retorts for all regular ones
    for insult in mi.insults().iter() {
        match mi.retort(insult) {
            Some(retort) => assert!(mi.is_retort(insult, retort)),
            None => {
                println!("`{}` is missing a retort!", insult);
                assert!(false);
            }
        }
    }

    for insult in mi.sword_master_insults().iter() {
        match mi.mi1_retort(insult) {
            Some(retort) => assert!(retort == SWORD_MASTER_ADMONITION),
            None => {
                println!("Sword master: `{}` is missing a retort!", insult);
                assert!(false);
            }
        }
    }

    for insult in mi.captain_rottingham_insults().iter() {
        match mi.mi3_retort(insult) {
            Some(retort) => assert!(retort == CAPTAIN_ADMONITION),
            None => {
                println!("Captain rottingham: `{}` is missing a retort!", insult);
                assert!(false);
            }
        }
    }
}

#[test]
fn known_insult_round_trip() {
    let mi = sample_registry();
    for insult in mi.insults() {
        let retort = mi.retort(insult).expect("known insult must have a retort");
        assert!(mi.is_retort(insult, retort));
        assert!(!retort.is_empty());
    }
}

#[test]
fn unknown_insult_is_absent() {
    let mi = sample_registry();
    assert_eq!(mi.retort("You're lazy!"), None);
    assert_eq!(mi.retort(""), None);
    assert!(!mi.is_retort("You're lazy!", "anything"));
}

#[test]
fn sword_master_overrides_faction_a() {
    // The insult is known to both the sword master and the first faction:
    // the direct lookup admonishes, while global resolution prefers the
    // sword master's own retort.
    let mi = Insults::from_parts(
        phrases(&["fallback"]),
        pairs(&[("shared insult", "faction A retort")]),
        pairs(&[("shared insult", "sword master retort")]),
        pairs(&[]),
        pairs(&[]),
        pairs(&[]),
    );
    assert_eq!(mi.mi1_retort("shared insult"), Some(SWORD_MASTER_ADMONITION));
    assert_eq!(mi.retort("shared insult"), Some("sword master retort"));
}

#[test]
fn sword_master_only_insult() {
    // Known to the sword master alone: global resolution hands out his own
    // retort, the first faction's lookup the admonishment.
    let mi = Insults::from_parts(
        phrases(&["fallback"]),
        pairs(&[]),
        pairs(&[("En garde!", "Touche!")]),
        pairs(&[]),
        pairs(&[]),
        pairs(&[]),
    );
    assert_eq!(mi.retort("En garde!"), Some("Touche!"));
    assert_eq!(mi.mi1_retort("En garde!"), Some(SWORD_MASTER_ADMONITION));
    assert_eq!(mi.sword_master_retort("En garde!"), Some("Touche!"));
}

#[test]
fn captain_rottingham_overrides_faction_b() {
    // An insult of Captain Rottingham is admonished by the third faction's
    // lookup, and that lookup stands before the captain's own in global
    // resolution, so the admonishment wins there too.
    let mi = Insults::from_parts(
        phrases(&["fallback"]),
        pairs(&[]),
        pairs(&[]),
        pairs(&[("shared insult", "faction C retort")]),
        pairs(&[("shared insult", "captain retort")]),
        pairs(&[]),
    );
    assert_eq!(mi.mi3_retort("shared insult"), Some(CAPTAIN_ADMONITION));
    assert_eq!(
        mi.captain_rottingham_retort("shared insult"),
        Some("captain retort")
    );
    assert_eq!(mi.retort("shared insult"), Some(CAPTAIN_ADMONITION));
}

#[test]
fn enumeration_keeps_faction_order() {
    let mi = Insults::from_parts(
        phrases(&["fallback"]),
        pairs(&[("a1", "r1"), ("a2", "r2")]),
        pairs(&[("s1", "r3")]),
        pairs(&[("c1", "r4")]),
        pairs(&[("cr1", "r5")]),
        pairs(&[("b1", "r6"), ("a1", "other retort")]),
    );
    let all: Vec<&String> = mi.insults();
    let expected = vec!["a1", "a2", "s1", "c1", "cr1", "b1", "a1"];
    assert_eq!(all.len(), expected.len());
    for (got, want) in all.iter().zip(expected.iter()) {
        assert_eq!(got.as_str(), *want);
    }
    assert_eq!(mi.mi1_insults().len(), 2);
    assert_eq!(mi.sword_master_insults().len(), 1);
    assert_eq!(mi.monkey_island3_insults().len(), 1);
    assert_eq!(mi.captain_rottingham_insults().len(), 1);
    assert_eq!(mi.monkey_island4_insults().len(), 2);
}

#[test]
fn failed_retorts_are_kept() {
    let mi = sample_registry();
    let pool = mi.failed_retorts();
    assert_eq!(pool.len(), 1);
    assert_eq!(pool[0], "How appropriate. You fight like a cow.");
}

#[test]
fn fallback_is_sampled_from_the_pool() {
    let mi = sample_registry();
    let mut rng = rand::rngs::StdRng::seed_from_u64(7);
    // A single fallback phrase: sampling must hand back exactly that one.
    let fail = mi.rand_failed_retort(&mut rng);
    assert_eq!(fail, "How appropriate. You fight like a cow.");
    let answer = mi.retort_or_rand_fail("You're lazy!", &mut rng);
    assert_eq!(answer, "How appropriate. You fight like a cow.");
    assert!(!answer.is_empty());
}

#[test]
fn resolution_with_fallback_prefers_the_retort() {
    let mi = sample_registry();
    let mut rng = rand::rngs::StdRng::seed_from_u64(7);
    assert_eq!(
        mi.retort_or_rand_fail("Hey, look over there!", &mut rng),
        "Yeah, yeah I know: it's a three headed monkey."
    );
}

#[test]
fn fallback_member_of_larger_pool() {
    let pool = ["first fallback", "second fallback", "third fallback"];
    let mi = Insults::from_parts(
        phrases(&pool),
        pairs(&[]),
        pairs(&[]),
        pairs(&[]),
        pairs(&[]),
        pairs(&[]),
    );
    let mut rng = rand::rngs::StdRng::seed_from_u64(42);
    for _ in 0..20 {
        let fail = mi.rand_failed_retort(&mut rng);
        assert!(pool.contains(&fail));
        let answer = mi.retort_or_rand_fail("unknown", &mut rng);
        assert!(pool.contains(&answer));
    }
}

#[test]
fn random_insult_is_a_known_insult() {
    let mi = sample_registry();
    let mut rng = rand::rngs::StdRng::seed_from_u64(3);
    for _ in 0..20 {
        let insult = mi.rand_insult(&mut rng);
        assert!(mi.insults().iter().any(|i| i == &insult));
        assert!(mi.retort(insult).is_some());
    }
}

#[test]
fn retort_is_deterministic() {
    let mi = sample_registry();
    for insult in mi.insults() {
        assert_eq!(mi.retort(insult), mi.retort(insult));
    }
    assert_eq!(mi.retort("You're lazy!"), mi.retort("You're lazy!"));
}

#[test]
fn distinct_keys_are_recognised() {
    assert!(keys_are_distinct(&pairs(&[("a", "1"), ("b", "2")])));
    assert!(keys_are_distinct(&pairs(&[])));
    assert!(!keys_are_distinct(&pairs(&[
        ("a", "1"),
        ("b", "2"),
        ("a", "3")
    ])));
}
