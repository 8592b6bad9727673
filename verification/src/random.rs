//! A seedable source of integers in a range, backed by the `quad-rand`
//! generator that `macroquad` re-exports.

use macroquad::rand::RandGenerator;
use vstd::prelude::*;

verus! {

#[verifier::external_type_specification]
#[verifier::external_body]
pub struct ExRandGenerator(RandGenerator);

/// The multiplier of the generator's linear congruential step.
pub const STEP_MULTIPLIER: u64 = 6364136223846793005;

/// The increment of the generator's linear congruential step.
pub const STEP_INCREMENT: u64 = 1442695040888963407;

/// The largest range whose draws are given by [`scaled_draw`]: up to this size
/// the generator's floating-point scaling is exact.
pub const EXACT_RANGE: i32 = 65535;

/// The 64-bit word that a generator holds: its whole state.
pub uninterp spec fn generator_word(g: RandGenerator) -> u64;

/// The integer that `RandGenerator::gen_range(low, high)` returns when the
/// generator holds `word`.
pub uninterp spec fn drawn_value(word: u64, low: int, high: int) -> int;

/// The word that a generator holds after one draw, having held `word` before.
pub open spec fn stepped_word(word: u64) -> u64 {
    ((word as int * STEP_MULTIPLIER as int + STEP_INCREMENT as int) % 0x1_0000_0000_0000_0000) as u64
}

/// The word that a generator holds after it was seeded with `seed`.
pub open spec fn seeded_word(seed: u64) -> u64 {
    stepped_word(((STEP_INCREMENT as int + seed as int) % 0x1_0000_0000_0000_0000) as u64)
}

/// The word that a generator holds after `draws` draws, having held `word` before.
pub open spec fn word_after(word: u64, draws: nat) -> u64
    decreases draws,
{
    if draws == 0 {
        word
    } else {
        stepped_word(word_after(word, (draws - 1) as nat))
    }
}

/// The 32 bits that a generator holding `word` puts out: the word's upper bits
/// folded onto each other and rotated right by its top five bits.
pub open spec fn output_of(word: u64) -> u32 {
    let folded = (((word >> 18) ^ word) >> 27) as u32;
    let turn = (word >> 59) as u32;
    if turn == 0 {
        folded
    } else {
        (folded >> turn) | (folded << ((32 - turn) as u32))
    }
}

/// The output `out` scaled into `low..high`.
pub open spec fn scaled(low: int, high: int, out: u32) -> int {
    low + ((high - low) * out) / 0x1_0000_0000
}

/// The value in `1..=n` that a source holding `word` draws next, for `n` up to
/// [`EXACT_RANGE`].
pub open spec fn scaled_draw(word: u64, n: int) -> int {
    scaled(1, n + 1, output_of(word))
}

/// `v` cut to `1..=n`.
pub open spec fn cut_to_range(v: int, n: int) -> int {
    if v < 1 {
        1
    } else if v > n {
        n
    } else {
        v
    }
}

/// The value in `1..=n` that a source holding `word` draws next: what the
/// generator gives for the bounds 1 and `n + 1`, cut to `1..=n`.
pub open spec fn pick(word: u64, n: int) -> int {
    cut_to_range(drawn_value(word, 1, n + 1), n)
}

/// The value in `1..=n` that a source holding `word` draws after `skip` other draws.
pub open spec fn pick_at(word: u64, skip: nat, n: int) -> int {
    pick(word_after(word, skip), n)
}

/// `RandGenerator::new`: a generator whose state word is zero.
#[verifier::external_body]
fn fresh_generator() -> (g: RandGenerator)
    ensures
        generator_word(g) == 0,
{
    RandGenerator::new()
}

/// `RandGenerator::srand`: the state word becomes the increment plus the seed,
/// stepped once; what the generator held before plays no part.
#[verifier::external_body]
fn reseed(g: &mut RandGenerator, seed: u64)
    ensures
        generator_word(*final(g)) == seeded_word(seed),
{
    g.srand(seed)
}

/// `RandGenerator::gen_range` on `i32`: the result depends on the state word and
/// the bounds alone, and the state word takes one linear congruential step. For
/// bounds from 0 to 65536 the floating-point scaling is exact, and the result is
/// the generator's output scaled into `low..high`. Of wider bounds no more is
/// claimed than that the result is fixed by word and bounds.
#[verifier::external_body]
fn draw_between(g: &mut RandGenerator, low: i32, high: i32) -> (r: i32)
    requires
        low < high,
    ensures
        r == drawn_value(generator_word(*old(g)), low as int, high as int),
        0 <= low && high <= 0x10000 ==> r == scaled(
            low as int,
            high as int,
            output_of(generator_word(*old(g))),
        ),
        generator_word(*final(g)) == stepped_word(generator_word(*old(g))),
{
    g.gen_range(low, high)
}

/// A deterministic source of random integers. Two sources made from one seed
/// give the same draws in the same order.
pub struct RandomSource {
    generator: RandGenerator,
}

impl View for RandomSource {
    type V = u64;

    /// The state word that fixes every later draw.
    closed spec fn view(&self) -> u64 {
        generator_word(self.generator)
    }
}

impl RandomSource {
    /// A source seeded with `seed`.
    pub fn new(seed: u64) -> (source: Self)
        ensures
            source@ == seeded_word(seed),
    {
        let mut generator = fresh_generator();
        reseed(&mut generator, seed);
        RandomSource { generator }
    }

    /// Draws an integer in `1..=n`. The draw is fixed by the word that the
    /// source holds, and the source takes one step. For `n` up to
    /// [`EXACT_RANGE`] the draw is the generator's output scaled into `1..=n`.
    pub fn next_in_range(&mut self, n: i32) -> (r: i32)
        requires
            1 <= n < i32::MAX,
        ensures
            1 <= r <= n,
            r == pick(old(self)@, n as int),
            n <= EXACT_RANGE ==> r == scaled_draw(old(self)@, n as int),
            final(self)@ == stepped_word(old(self)@),
    {
        let ghost word = self@;
        let drawn = draw_between(&mut self.generator, 1, n + 1);
        proof {
            if n <= EXACT_RANGE {
                lemma_scaled_in_range(1, n + 1, output_of(word));
            }
        }
        if drawn < 1 {
            1
        } else if drawn > n {
            n
        } else {
            drawn
        }
    }
}

/// An output scaled into `low..high` lies there: it is at least `low` and
/// below `high`.
pub proof fn lemma_scaled_in_range(low: int, high: int, out: u32)
    requires
        low < high,
    ensures
        low <= scaled(low, high, out) < high,
{
    let span = high - low;
    assert(0 <= span * out < span * 0x1_0000_0000) by (nonlinear_arith)
        requires
            span > 0,
            0 <= out < 0x1_0000_0000,
    ;
    assert(0 <= (span * out) / 0x1_0000_0000 < span) by (nonlinear_arith)
        requires
            0 <= span * out < span * 0x1_0000_0000,
    ;
}

/// Draws compose: `a` draws and then `b` more are `a + b` draws.
pub proof fn lemma_word_after_add(word: u64, a: nat, b: nat)
    ensures
        word_after(word_after(word, a), b) == word_after(word, a + b),
    decreases b,
{
    if b > 0 {
        lemma_word_after_add(word, a, (b - 1) as nat);
    }
}

} // verus!
