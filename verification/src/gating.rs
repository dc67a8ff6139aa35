//! The two gates that a matching response has to pass: its cooldown and its
//! hit rate.
//!
//! Times are whole milliseconds since the Unix epoch, cooldowns whole
//! seconds. A probability is held as the bit pattern of the IEEE 754
//! double-precision number that stands for it: on the numbers from 0 to 1 the
//! order of the patterns, read as unsigned integers, is the order of the
//! numbers, so that two probabilities are compared by comparing their
//! patterns, and every number of a configuration file is kept exactly.

use vstd::prelude::*;

verus! {

/// The bit pattern of the number 1.
pub const UNIT_BITS: u64 = 0x3FF0_0000_0000_0000;

/// The time of a response that was never triggered: the least of all times.
pub const NEVER: i64 = i64::MIN;

/// The cooldown, in seconds, of a configuration that names none.
pub const DEFAULT_COOLDOWN: i64 = 45;

/// The probability with which a response that matches is given: a number
/// from 0 to 1, both included.
#[derive(Clone, Copy, Debug, PartialEq, Eq, Structural)]
pub struct HitRate {
    bits: u64,
}

impl View for HitRate {
    type V = u64;

    closed spec fn view(&self) -> u64 {
        self.bits
    }
}

impl HitRate {
    #[verifier::type_invariant]
    spec fn in_range(self) -> bool {
        self.bits <= UNIT_BITS
    }

    /// The hit rate with the given bit pattern, where the pattern is that of
    /// a number from 0 to 1.
    pub fn from_bits(bits: u64) -> (r: Option<HitRate>)
        ensures
            r is Some <==> bits <= UNIT_BITS,
            r matches Some(rate) ==> rate@ == bits,
    {
        if bits <= UNIT_BITS {
            Some(HitRate { bits })
        } else {
            None
        }
    }

    /// The hit rate 1: every draw hits.
    pub fn always() -> (rate: HitRate)
        ensures
            rate@ == UNIT_BITS,
    {
        HitRate { bits: UNIT_BITS }
    }

    /// The hit rate 0.
    pub fn never() -> (rate: HitRate)
        ensures
            rate@ == 0,
    {
        HitRate { bits: 0 }
    }

    /// The bit pattern of the rate.
    pub fn bits(&self) -> (bits: u64)
        ensures
            bits == self@,
            bits <= UNIT_BITS,
    {
        proof {
            use_type_invariant(self);
        }
        self.bits
    }
}

/// One random draw: a number from 0 to 1, 0 included and 1 not.
#[derive(Clone, Copy, Debug, PartialEq, Eq, Structural)]
pub struct Draw {
    bits: u64,
}

impl View for Draw {
    type V = u64;

    closed spec fn view(&self) -> u64 {
        self.bits
    }
}

impl Draw {
    #[verifier::type_invariant]
    spec fn in_range(self) -> bool {
        self.bits < UNIT_BITS
    }

    /// The draw with the given bit pattern, where the pattern is that of a
    /// number from 0 to 1, 1 not included.
    pub fn from_bits(bits: u64) -> (r: Option<Draw>)
        ensures
            r is Some <==> bits < UNIT_BITS,
            r matches Some(draw) ==> draw@ == bits,
    {
        if bits < UNIT_BITS {
            Some(Draw { bits })
        } else {
            None
        }
    }

    /// The bit pattern of the draw.
    pub fn bits(&self) -> (bits: u64)
        ensures
            bits == self@,
            bits < UNIT_BITS,
    {
        proof {
            use_type_invariant(self);
        }
        self.bits
    }
}

/// Whether the cooldown still blocks at `now` a response that was last
/// triggered at `last_triggered`: no more than `cooldown` seconds have
/// passed.
pub open spec fn cooldown_blocked(last_triggered: i64, now: i64, cooldown: i64) -> bool {
    now - last_triggered <= cooldown * 1000
}

/// Whether a draw misses a hit rate: it is the greater of the two.
pub open spec fn missed(draw: u64, hit_rate: u64) -> bool {
    draw > hit_rate
}

/// Whether the cooldown still blocks.
pub fn is_cooldown_blocked(last_triggered: i64, now: i64, cooldown: i64) -> (b: bool)
    ensures
        b == cooldown_blocked(last_triggered, now, cooldown),
{
    let elapsed: i128 = now as i128 - last_triggered as i128;
    let limit: i128 = cooldown as i128 * 1000;
    elapsed <= limit
}

/// Whether the draw misses the hit rate.
pub fn is_missed(draw: Draw, hit_rate: HitRate) -> (b: bool)
    ensures
        b == missed(draw@, hit_rate@),
{
    draw.bits() > hit_rate.bits()
}

} // verus!
