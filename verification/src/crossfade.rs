//! Crossfade coefficient pairs and the cursor that walks a coefficient table.
//!
//! A crossfade table is an ordered run of coefficient pairs, index 0 fully on
//! the fade-out side, the last index fully on the fade-in side. Coefficients
//! are carried as the IEEE-754 bit patterns of double-precision values:
//! tables compare bit-exactly, and every decision that depends on a
//! coefficient — is any of the fade-out side still audible? — is exact
//! integer logic on the pattern. Producing a table for one of the curve
//! shapes is floating-point evaluation and belongs to the embedding
//! application; this module fixes the shapes' identities and the way a table
//! is consumed.

use vstd::prelude::*;

verus! {

/// Bit pattern of the double-precision value zero.
pub const F64_ZERO_BITS: u64 = 0;

/// Bit pattern of the double-precision value one.
pub const F64_ONE_BITS: u64 = 0x3FF0_0000_0000_0000;

/// Bit pattern of the double-precision positive infinity: the least upper
/// bound of the patterns that denote positive values.
pub const F64_PLUS_INF_BITS: u64 = 0x7FF0_0000_0000_0000;

/// Whether `bits` is the pattern of a positive double-precision value, as
/// the IEEE-754 comparison `> 0.0` would decide it: the sign bit clear, the
/// magnitude nonzero, and the pattern not one of the NaN patterns (those
/// above the positive-infinity pattern), which compare as not greater.
pub open spec fn spec_f64_bits_positive(bits: u64) -> bool {
    1 <= bits <= F64_PLUS_INF_BITS
}

/// Decides `spec_f64_bits_positive` on an IEEE-754 double bit pattern.
pub fn f64_bits_positive(bits: u64) -> (r: bool)
    ensures
        r == spec_f64_bits_positive(bits),
{
    1 <= bits && bits <= F64_PLUS_INF_BITS
}

/// One pair of crossfade coefficients, each the bit pattern of a
/// double-precision value: `fade_out` weights the source being faded out,
/// `fade_in` the one being faded in. Equality is bit-exact — the NaN-safe
/// total order of the underlying values, not approximate float equality —
/// so generated tables can be compared exactly.
#[derive(Clone, Copy, PartialEq, Eq, Structural, Debug)]
pub struct CrossFadePair {
    /// Coefficient of the source being faded out.
    pub fade_out: u64,
    /// Coefficient of the source being faded in.
    pub fade_in: u64,
}

/// The terminal pair `(0, 1)`: fully on the fade-in side. A table cursor
/// yields it forever past the table's end, so a finished transition keeps
/// emitting exactly the side it settled on.
pub open spec fn spec_end_pair() -> CrossFadePair {
    CrossFadePair { fade_out: F64_ZERO_BITS, fade_in: F64_ONE_BITS }
}

impl CrossFadePair {
    /// A pair from two coefficient bit patterns.
    pub fn new(fade_out: u64, fade_in: u64) -> (r: Self)
        ensures
            r.fade_out == fade_out,
            r.fade_in == fade_in,
    {
        CrossFadePair { fade_out, fade_in }
    }

    /// The terminal pair: see [`spec_end_pair`].
    pub fn end() -> (r: Self)
        ensures
            r == spec_end_pair(),
    {
        CrossFadePair { fade_out: F64_ZERO_BITS, fade_in: F64_ONE_BITS }
    }

    /// The fade-out coefficient's bit pattern.
    pub fn fade_out(&self) -> (r: u64)
        ensures
            r == self.fade_out,
    {
        self.fade_out
    }

    /// The fade-in coefficient's bit pattern.
    pub fn fade_in(&self) -> (r: u64)
        ensures
            r == self.fade_in,
    {
        self.fade_in
    }

    /// Whether the fade-out side is still audible: its coefficient is a
    /// positive value.
    pub fn fades_out(&self) -> (r: bool)
        ensures
            r == spec_f64_bits_positive(self.fade_out),
    {
        f64_bits_positive(self.fade_out)
    }

    /// Whether the fade-in side is already audible: its coefficient is a
    /// positive value.
    pub fn fades_in(&self) -> (r: bool)
        ensures
            r == spec_f64_bits_positive(self.fade_in),
    {
        f64_bits_positive(self.fade_in)
    }
}

/// Coefficient-pair equality is exact on bit patterns: reflexive for every
/// pair — patterns of NaN values included — and two pairs are equal exactly
/// when both coefficients' patterns coincide.
pub proof fn lemma_pair_equality_exact(a: CrossFadePair, b: CrossFadePair)
    ensures
        a == a,
        a == b <==> (a.fade_out == b.fade_out && a.fade_in == b.fade_in),
{
}

/// A cursor over a crossfade table: a lazy, infinite, restartable sequence
/// of coefficient pairs. It yields the table in order, then the terminal
/// pair forever, so a splicing machine behaves even if classification flips
/// before a transition completes; `reset` rewinds it for a fresh fade.
pub struct CrossFader {
    /// The crossfade table being walked.
    pub table: Vec<CrossFadePair>,
    /// Position of the next pair to yield; at or past the table's length,
    /// the cursor yields the terminal pair.
    pub pos: usize,
}

impl CrossFader {
    /// A cursor at the start of `table`.
    pub fn new(table: Vec<CrossFadePair>) -> (r: Self)
        ensures
            r.table == table,
            r.pos == 0,
    {
        CrossFader { table, pos: 0 }
    }

    /// A cursor already past the end of `table`: it yields the terminal pair
    /// until the first `reset`.
    pub fn drained(table: Vec<CrossFadePair>) -> (r: Self)
        ensures
            r.table == table,
            r.pos == table@.len(),
    {
        let pos = table.len();
        CrossFader { table, pos }
    }

    /// Length of the underlying table.
    pub fn len(&self) -> (n: usize)
        ensures
            n == self.table@.len(),
    {
        self.table.len()
    }

    /// The next coefficient pair: the table entry at the cursor, or the
    /// terminal pair once the table is exhausted.
    pub fn next(&mut self) -> (r: CrossFadePair)
        ensures
            final(self).table == old(self).table,
            old(self).pos < old(self).table@.len() ==> {
                &&& r == old(self).table@[old(self).pos as int]
                &&& final(self).pos == old(self).pos + 1
            },
            old(self).pos >= old(self).table@.len() ==> {
                &&& r == spec_end_pair()
                &&& final(self).pos == old(self).pos
            },
    {
        if self.pos < self.table.len() {
            let r = self.table[self.pos];
            self.pos = self.pos + 1;
            r
        } else {
            CrossFadePair::end()
        }
    }

    /// Rewinds the cursor to the start of the table, so the next transition
    /// gets a full, fresh fade.
    pub fn reset(&mut self)
        ensures
            final(self).table == old(self).table,
            final(self).pos == 0,
    {
        self.pos = 0;
    }
}

/// The coefficient pair a fader yields from position `pos` of `table`: the
/// entry there, or the terminal pair once past the table's end.
pub open spec fn fader_yield(table: Seq<CrossFadePair>, pos: int) -> CrossFadePair {
    if pos < table.len() {
        table[pos]
    } else {
        spec_end_pair()
    }
}

/// The fader position after yielding from `pos`: it advances through the
/// table and then rests at its end.
pub open spec fn fader_after(table: Seq<CrossFadePair>, pos: int) -> int {
    if pos < table.len() {
        pos + 1
    } else {
        pos
    }
}

/// Identifies the linear curve: over x in [0, 1] the pair (1 - x, x).
/// Evaluating a shape into a table is floating-point work and lives with the
/// embedding application; the shapes are fixed here.
pub struct LinearCrossFade;

/// Identifies the cheap equal-power curve: over x in [0, 1], with
/// a = x(1 - x) and b = a + 1.4186 a², the pair ((b + (1-x))², (b + x)²);
/// its coefficients may slightly exceed one by design.
pub struct EqualPowerCrossFade;

/// Identifies the power-normalized trigonometric curve: over x in [0, π/2]
/// the pair (cos² x, sin² x).
pub struct CossinCrossFade;

/// Identifies the semicircle curve: over x in [0, 2] two independent
/// quarter-circle arcs, (√(1 - x²) for x ≤ 1 else 0, √(1 - (x-2)²) for
/// x ≥ 1 else 0); its midpoint is (0, 0), both sides silent.
pub struct SemicircleCrossFade;

/// Identifies the parabolic curve, the production default: over x in [0, 2]
/// two parabolic arcs, (1 - ¾x² while positive else 0, 1 - ¾(2-x)² while
/// positive else 0), meeting at the midpoint pair (¼, ¼).
pub struct ParabolicCrossFade;

} // verus!
