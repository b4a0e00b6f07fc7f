use rand::{Rng, SeedableRng};
use vstd::prelude::*;

verus! {

/// The character that `rand`'s `Rng::gen::<char>` draws first from a
/// `rand_pcg::Pcg64` made by `rand_seeder::Seeder::from(phrase).make_rng()`.
pub uninterp spec fn seeder_char(phrase: Seq<char>) -> char;

/// The character that `Rng::gen::<char>` draws first from a `Pcg64` made by
/// `Pcg64::from_seed`, its seed filled from the generator that
/// `rand_seeder::SipHasher::from(phrase).into_rng()` gives.
pub uninterp spec fn sip_seed_char(phrase: Seq<char>) -> char;

/// Seeds a `Pcg64` from `phrase` with `Seeder::make_rng` and draws a `char`
/// from it.  The contract only names the result, which the keyed SipHash of
/// the phrase decides; the generators' algorithms are not stated.
#[verifier::external_body]
fn seeder_draw(phrase: &str) -> (c: char)
    ensures
        c == seeder_char(phrase@),
{
    let mut rng: rand_pcg::Pcg64 = rand_seeder::Seeder::from(phrase).make_rng();
    rng.gen::<char>()
}

/// Fills a `Pcg64` seed from the `SipRng` of `phrase`
/// (`SipHasher::from(phrase).into_rng()` and `Rng::fill`), makes the
/// generator with `SeedableRng::from_seed` and draws a `char` from it.  The
/// contract only names the result.
#[verifier::external_body]
fn sip_seed_draw(phrase: &str) -> (c: char)
    ensures
        c == sip_seed_char(phrase@),
{
    let mut hasher_rng = rand_seeder::SipHasher::from(phrase).into_rng();
    let mut seed: <rand_pcg::Pcg64 as SeedableRng>::Seed = Default::default();
    hasher_rng.fill(&mut seed);
    let mut rng = rand_pcg::Pcg64::from_seed(seed);
    rng.gen::<char>()
}

/// The two characters of the seeding demonstration: one drawn from a
/// generator that `Seeder` seeds from `stripy zebra`, one from a generator
/// whose seed is filled explicitly from the SipHash generator of
/// `a sailboat`.  Both are fixed by their phrases.
pub fn seeded_draws() -> (res: (char, char))
    ensures
        res.0 == seeder_char("stripy zebra"@),
        res.1 == sip_seed_char("a sailboat"@),
{
    let first = seeder_draw("stripy zebra");
    let second = sip_seed_draw("a sailboat");
    (first, second)
}

} // verus!
