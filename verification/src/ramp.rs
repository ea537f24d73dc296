//! The glyph ramp and the quantisation of a luminance sample onto it.

use vstd::arithmetic::div_mod::lemma_div_is_ordered;
use vstd::prelude::*;

verus! {

/// The ten glyphs of the default ramp, from the densest to a blank.
pub open spec fn canonical_glyphs() -> Seq<char> {
    seq!['@', '%', '#', '*', '+', '=', '-', ':', '.', ' ']
}

/// Position on a ramp of `n` glyphs for a sample: the integer nearest to
/// `sample / 255 * (n - 1)`.
///
/// Twice the scaled sample is even and an odd multiple of 255 is odd, so the
/// scaled sample never lies halfway between two positions and the rounding
/// direction plays no part.
pub open spec fn ramp_index(sample: u8, n: nat) -> nat
    recommends
        n >= 1,
{
    ((2 * sample * (n - 1) + 255) / 510) as nat
}

/// A brightness-ordered sequence of at least two glyphs: the first is used for
/// the darkest samples, the last for the brightest.
pub struct Ramp {
    glyphs: Vec<char>,
}

impl View for Ramp {
    type V = Seq<char>;

    closed spec fn view(&self) -> Seq<char> {
        self.glyphs@
    }
}

impl Ramp {
    #[verifier::type_invariant]
    spec fn well_formed(&self) -> bool {
        self.glyphs@.len() >= 2
    }

    /// A ramp of the given glyphs, densest first; `None` for fewer than two.
    pub fn new(glyphs: Vec<char>) -> (r: Option<Ramp>)
        ensures
            glyphs@.len() < 2 <==> r is None,
            r matches Some(ramp) ==> ramp@ == glyphs@,
    {
        if glyphs.len() < 2 {
            None
        } else {
            Some(Ramp { glyphs })
        }
    }

    /// The default ramp `@%#*+=-:. `.
    pub fn canonical() -> (r: Ramp)
        ensures
            r@ == canonical_glyphs(),
    {
        let glyphs: Vec<char> = vec!['@', '%', '#', '*', '+', '=', '-', ':', '.', ' '];
        assert(glyphs@ =~= canonical_glyphs());
        Ramp { glyphs }
    }

    /// Number of glyphs; never less than two.
    pub fn len(&self) -> (n: usize)
        ensures
            n == self@.len(),
            n >= 2,
    {
        proof {
            use_type_invariant(self);
        }
        self.glyphs.len()
    }

    /// Position of the glyph that stands for `sample`.
    pub fn index_of(&self, sample: u8) -> (idx: usize)
        ensures
            idx == ramp_index(sample, self@.len()),
            idx < self@.len(),
    {
        proof {
            use_type_invariant(self);
        }
        let steps: u128 = (self.glyphs.len() - 1) as u128;
        let level: u128 = sample as u128;
        proof {
            lemma_ramp_index_in_range(sample, self@.len());
            assert(level * steps <= 255 * steps) by (nonlinear_arith)
                requires
                    0 <= level <= 255,
                    0 <= steps,
            ;
            assert(2 * sample * (self@.len() - 1) == 2 * (level * steps)) by (nonlinear_arith)
                requires
                    sample == level,
                    self@.len() - 1 == steps,
            ;
        }
        let idx: u128 = (2 * (level * steps) + 255) / 510;
        idx as usize
    }

    /// The glyph that stands for `sample`.
    pub fn glyph(&self, sample: u8) -> (c: char)
        ensures
            c == self@[ramp_index(sample, self@.len()) as int],
            self@.contains(c),
    {
        let idx = self.index_of(sample);
        self.glyphs[idx]
    }
}

/// Every sample lands on the ramp: its position is less than the ramp's length.
pub proof fn lemma_ramp_index_in_range(sample: u8, n: nat)
    requires
        n >= 1,
    ensures
        ramp_index(sample, n) < n,
{
    let steps = n - 1;
    assert(2 * sample * steps <= 510 * steps) by (nonlinear_arith)
        requires
            0 <= sample <= 255,
            0 <= steps,
    ;
    assert((2 * sample * steps + 255) / 510 <= steps) by (nonlinear_arith)
        requires
            0 <= 2 * sample * steps <= 510 * steps,
    ;
}

/// The position is the nearest one: the scaled sample `sample * (n - 1) / 255`
/// differs from it by less than one half.
pub proof fn lemma_ramp_index_nearest(sample: u8, n: nat)
    requires
        n >= 1,
    ensures
        -255 < 2 * (255 * ramp_index(sample, n) - sample * (n - 1)) <= 255,
{
    let scaled = sample * (n - 1);
    assert(scaled >= 0) by (nonlinear_arith)
        requires
            scaled == sample * (n - 1),
            sample >= 0,
            n >= 1,
    ;
    assert(2 * sample * (n - 1) == 2 * scaled) by (nonlinear_arith)
        requires
            scaled == sample * (n - 1),
    ;
    let q = (2 * scaled + 255) / 510;
    assert(510 * q <= 2 * scaled + 255 < 510 * q + 510) by (nonlinear_arith)
        requires
            q == (2 * scaled + 255) / 510,
    ;
}

/// Brighter never maps to denser: the position does not decrease as the sample
/// grows.
pub proof fn lemma_ramp_index_monotonic(darker: u8, brighter: u8, n: nat)
    requires
        n >= 1,
        darker <= brighter,
    ensures
        ramp_index(darker, n) <= ramp_index(brighter, n),
{
    let steps = n - 1;
    assert(0 <= 2 * darker * steps <= 2 * brighter * steps) by (nonlinear_arith)
        requires
            0 <= darker <= brighter,
            0 <= steps,
    ;
    lemma_div_is_ordered(2 * darker * steps + 255, 2 * brighter * steps + 255, 510);
}

/// The ends of the scale meet the ends of the ramp: black takes the first
/// glyph and white the last.
pub proof fn lemma_ramp_index_bounds(n: nat)
    requires
        n >= 1,
    ensures
        ramp_index(0, n) == 0,
        ramp_index(255, n) == n - 1,
{
    let steps = n - 1;
    assert((2 * 255 * steps + 255) / 510 == steps) by (nonlinear_arith)
        requires
            0 <= steps,
    ;
}

/// On the default ramp black is `@` and white is a blank.
pub proof fn lemma_canonical_ends()
    ensures
        canonical_glyphs().len() == 10,
        canonical_glyphs()[ramp_index(0, 10) as int] == '@',
        canonical_glyphs()[ramp_index(255, 10) as int] == ' ',
{
    lemma_ramp_index_bounds(10);
}

} // verus!
