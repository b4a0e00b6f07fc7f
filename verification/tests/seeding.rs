use cndk8::seeding::seeded_draws;
use rand::{Rng, SeedableRng};
use rand_pcg::Pcg64;
use rand_seeder::{Seeder, SipHasher};

#[test]
fn draws_are_fixed_by_their_phrases() {
    assert_eq!(seeded_draws(), seeded_draws());
}

#[test]
fn draws_match_the_generators() {
    let mut rng: Pcg64 = Seeder::from("stripy zebra").make_rng();
    let first = rng.gen::<char>();

    let mut hasher_rng = SipHasher::from("a sailboat").into_rng();
    let mut seed: <Pcg64 as SeedableRng>::Seed = Default::default();
    hasher_rng.fill(&mut seed);
    let mut rng = Pcg64::from_seed(seed);
    let second = rng.gen::<char>();

    assert_eq!(seeded_draws(), (first, second));
}

#[test]
fn both_seedings_agree_on_one_phrase() {
    let mut a: Pcg64 = Seeder::from("stripy zebra").make_rng();
    let mut hasher_rng = SipHasher::from("stripy zebra").into_rng();
    let mut seed: <Pcg64 as SeedableRng>::Seed = Default::default();
    hasher_rng.fill(&mut seed);
    let mut b = Pcg64::from_seed(seed);
    assert_eq!(a.gen::<char>(), b.gen::<char>());
}
