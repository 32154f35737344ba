//! Random number generators of the optimizer.
//!
//! Every phase of a run gets a generator of its own, seeded with a number
//! drawn from the generator of the run.  A run whose seed is configured is
//! seeded with it; otherwise its seed comes from the operating system.
use rand::rngs::{SysRng, Xoshiro256PlusPlus};
use rand::{Rng, SeedableRng, TryRng};
use vstd::prelude::*;

verus! {

#[verifier::external_type_specification]
#[verifier::external_body]
pub struct ExXoshiro256PlusPlus(Xoshiro256PlusPlus);

/// The generator that `Xoshiro256PlusPlus::seed_from_u64` builds from `seed`.
pub uninterp spec fn seeded_generator(seed: u64) -> Xoshiro256PlusPlus;

/// `<Xoshiro256PlusPlus as SeedableRng>::seed_from_u64`: the generator is a
/// function of the seed alone (it expands the seed with SplitMix64).
#[verifier::external_body]
fn generator_from_seed(seed: u64) -> (rng: Xoshiro256PlusPlus)
    ensures
        rng == seeded_generator(seed),
{
    Xoshiro256PlusPlus::seed_from_u64(seed)
}

/// The number that `<Xoshiro256PlusPlus as Rng>::next_u64` draws from a
/// generator in the given state.
pub uninterp spec fn next_word(rng: Xoshiro256PlusPlus) -> u64;

/// The state of a generator after `next_u64` drew one number from it.
pub uninterp spec fn advanced(rng: Xoshiro256PlusPlus) -> Xoshiro256PlusPlus;

/// `<SysRng as TryRng>::try_next_u64`: a number from the operating system's
/// generator, or `None` when the operating system fails to give one.  Nothing
/// is promised of the number.
#[verifier::external_body]
fn os_seed() -> Option<u64> {
    SysRng.try_next_u64().ok()
}

/// `<Xoshiro256PlusPlus as Rng>::next_u64`: infallible; the number drawn and
/// the generator's next state depend on its state alone.
#[verifier::external_body]
fn draw_u64(rng: &mut Xoshiro256PlusPlus) -> (w: u64)
    ensures
        w == next_word(*old(rng)),
        *final(rng) == advanced(*old(rng)),
{
    rng.next_u64()
}

/// The generator of a run, given the configured seed and the number that
/// the operating system gave (`None` when it failed to give one): the
/// configured seed when there is one, else the operating system's number.
pub fn run_rng(configured: Option<usize>, os_number: Option<u64>) -> (rng: Option<
    Xoshiro256PlusPlus,
>)
    ensures
        configured matches Some(s) ==> rng == Some(seeded_generator(s as u64)),
        configured is None ==> (rng is Some <==> os_number is Some),
        configured is None ==> (os_number matches Some(x) ==> rng == Some(seeded_generator(x))),
{
    match configured {
        Some(s) => Some(generator_from_seed(s as u64)),
        None => match os_number {
            Some(x) => Some(generator_from_seed(x)),
            None => None,
        },
    }
}

/// The generator of a run: seeded with the configured seed; with none
/// configured, seeded with a number from the operating system, and `None`
/// only when the operating system fails to give one.  Which number that is,
/// is up to the operating system: `run_rng` states what follows from each.
pub fn make_rng(seed: Option<usize>) -> (rng: Option<Xoshiro256PlusPlus>)
    ensures
        seed matches Some(s) ==> rng == Some(seeded_generator(s as u64)),
        rng matches Some(r) ==> exists|s: u64| r == #[trigger] seeded_generator(s),
{
    match seed {
        Some(_) => run_rng(seed, None),
        None => {
            let os_number = os_seed();
            run_rng(None, os_number)
        },
    }
}

/// A generator for one phase, seeded with the next number drawn from `rng`.
pub fn next_rng(rng: &mut Xoshiro256PlusPlus) -> (child: Xoshiro256PlusPlus)
    ensures
        child == seeded_generator(next_word(*old(rng))),
        *final(rng) == advanced(*old(rng)),
{
    let s = draw_u64(rng);
    generator_from_seed(s)
}

/// Runs started from the same seed hand their phases the same generators:
/// the first and the second phase generator drawn from a run seeded with `s`
/// depend on `s` alone.
pub proof fn lemma_seeded_runs_repeat(s: u64, t: u64)
    requires
        s == t,
    ensures
        seeded_generator(next_word(seeded_generator(s))) == seeded_generator(
            next_word(seeded_generator(t)),
        ),
        seeded_generator(next_word(advanced(seeded_generator(s)))) == seeded_generator(
            next_word(advanced(seeded_generator(t))),
        ),
{
}

} // verus!
