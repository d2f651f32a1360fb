//! Cached value of one write-only hardware configuration register.
//!
//! The hardware registers cannot be read back cheaply, so the driver keeps
//! the bit pattern it last wrote. A `Config` is immutable: `with_high` and
//! `with_low` return a new value, and the caller stores it back into the
//! cache only after the corresponding physical write succeeded.

use vstd::prelude::*;

verus! {

/// The last-known bit pattern of one hardware configuration register.
#[derive(Clone, Copy, Debug, PartialEq, Eq, Structural)]
pub struct Config {
    pub bits: u8,
}

impl Config {
    /// The bit pattern with every bit of `mask` set.
    pub open spec fn with_high_spec(self, mask: u8) -> Config {
        Config { bits: self.bits | mask }
    }

    /// The bit pattern with every bit of `mask` cleared.
    pub open spec fn with_low_spec(self, mask: u8) -> Config {
        Config { bits: self.bits & !mask }
    }

    /// True when every bit of `mask` is set.
    pub open spec fn is_high_spec(self, mask: u8) -> bool {
        self.bits & mask == mask
    }

    /// A new value with every bit of `mask` set; the receiver is unchanged.
    pub fn with_high(self, mask: u8) -> (r: Config)
        ensures
            r == self.with_high_spec(mask),
            r.bits == self.bits | mask,
            r.is_high_spec(mask),
    {
        proof {
            lemma_or_reads_high(self.bits, mask);
        }
        Config { bits: self.bits | mask }
    }

    /// A new value with every bit of `mask` cleared; the receiver is
    /// unchanged.
    pub fn with_low(self, mask: u8) -> (r: Config)
        ensures
            r == self.with_low_spec(mask),
            r.bits == self.bits & !mask,
            mask != 0 ==> !r.is_high_spec(mask),
    {
        proof {
            lemma_and_not_reads_low(self.bits, mask);
        }
        Config { bits: self.bits & !mask }
    }

    /// True when every bit of `mask` is set in the cached pattern.
    pub fn is_high(self, mask: u8) -> (r: bool)
        ensures
            r == self.is_high_spec(mask),
    {
        self.bits & mask == mask
    }
}

/// After setting a flag, that flag reads high.
pub proof fn lemma_or_reads_high(bits: u8, mask: u8)
    ensures
        (bits | mask) & mask == mask,
{
    assert((bits | mask) & mask == mask) by (bit_vector);
}

/// After clearing a nonzero flag, that flag reads low.
pub proof fn lemma_and_not_reads_low(bits: u8, mask: u8)
    ensures
        mask != 0 ==> (bits & !mask) & mask != mask,
{
    assert(mask != 0 ==> (bits & !mask) & mask != mask) by (bit_vector);
}

/// Setting a flag twice gives the same pattern as setting it once: the second
/// application changes nothing.
pub proof fn lemma_with_high_idempotent(c: Config, mask: u8)
    ensures
        c.with_high_spec(mask).with_high_spec(mask) == c.with_high_spec(mask),
{
    let bits = c.bits;
    assert((bits | mask) | mask == bits | mask) by (bit_vector);
}

/// A flag that already reads high is unchanged by `with_high`.
pub proof fn lemma_with_high_noop_when_high(c: Config, mask: u8)
    requires
        c.is_high_spec(mask),
    ensures
        c.with_high_spec(mask) == c,
{
    let bits = c.bits;
    assert(bits & mask == mask ==> bits | mask == bits) by (bit_vector);
}

/// Transforming one flag never changes the reading of a disjoint flag:
/// `is_high(g)` is the same before and after `with_high(f)` or `with_low(f)`
/// whenever `f` and `g` share no bit.
pub proof fn lemma_flag_independence(c: Config, f: u8, g: u8)
    requires
        f & g == 0,
    ensures
        c.with_high_spec(f).is_high_spec(g) == c.is_high_spec(g),
        c.with_low_spec(f).is_high_spec(g) == c.is_high_spec(g),
{
    let bits = c.bits;
    assert(f & g == 0 ==> ((bits | f) & g == g) == (bits & g == g)) by (bit_vector);
    assert(f & g == 0 ==> ((bits & !f) & g == g) == (bits & g == g)) by (bit_vector);
}

} // verus!
