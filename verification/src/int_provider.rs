//! Parameterized integer distributions with bounds introspection.

use vstd::prelude::*;
use crate::math::SPREAD_LIMIT;
use crate::random::RandomGenerator;
use crate::random::rg_inbetween;

verus! {

/// Clamping that tolerates an inverted range: the low bound is checked
/// first, so `min > max` degrades deterministically instead of failing.
pub open spec fn spec_clamp(v: int, min: int, max: int) -> int {
    if v < min {
        min
    } else if v > max {
        max
    } else {
        v
    }
}

pub enum NormalIntProvider {
    Uniform(UniformIntProvider),
    WeightedList(WeightedListIntProvider),
    Clamped(ClampedIntProvider),
    BiasedToBottom(BiasedToBottomIntProvider),
}

/// A scalar distribution: either a bare constant or one of the object
/// forms.
pub enum IntProvider {
    Object(NormalIntProvider),
    Constant(i32),
}

#[derive(Clone, Copy, PartialEq, Eq, Structural, Debug)]
pub struct UniformIntProvider {
    pub min_inclusive: i32,
    pub max_inclusive: i32,
}

/// Declared distribution with no drawing behavior yet: bounds and draws
/// are all zero.
#[derive(Clone, Copy, PartialEq, Eq, Structural, Debug)]
pub struct WeightedListIntProvider {
}

pub struct ClampedIntProvider {
    pub source: Box<IntProvider>,
    pub min_inclusive: i32,
    pub max_inclusive: i32,
}

/// Declared as a bottom-biased range; its draw is the lower bound for now,
/// with the randomness not yet wired in.
#[derive(Clone, Copy, PartialEq, Eq, Structural, Debug)]
pub struct BiasedToBottomIntProvider {
    pub min_inclusive: i32,
    pub max_inclusive: i32,
}

/// Configured bounds stay small enough that position arithmetic on drawn
/// offsets cannot overflow.
pub open spec fn ip_wf(p: IntProvider) -> bool
    decreases p,
{
    match p {
        IntProvider::Constant(i) => -SPREAD_LIMIT <= i <= SPREAD_LIMIT,
        IntProvider::Object(n) => match n {
            NormalIntProvider::Uniform(u) => -SPREAD_LIMIT <= u.min_inclusive <= SPREAD_LIMIT
                && -SPREAD_LIMIT <= u.max_inclusive <= SPREAD_LIMIT,
            NormalIntProvider::WeightedList(_) => true,
            NormalIntProvider::Clamped(c) => ip_wf(*c.source) && -SPREAD_LIMIT <= c.min_inclusive
                <= SPREAD_LIMIT && -SPREAD_LIMIT <= c.max_inclusive <= SPREAD_LIMIT,
            NormalIntProvider::BiasedToBottom(b) => -SPREAD_LIMIT <= b.min_inclusive
                <= SPREAD_LIMIT && -SPREAD_LIMIT <= b.max_inclusive <= SPREAD_LIMIT,
        },
    }
}

/// The draw a provider makes from a generator state, and the state after.
pub open spec fn spec_ip_get(p: IntProvider, g: RandomGenerator) -> (i32, RandomGenerator)
    decreases p,
{
    match p {
        IntProvider::Constant(i) => (i, g),
        IntProvider::Object(n) => match n {
            NormalIntProvider::Uniform(u) => rg_inbetween(g, u.min_inclusive, u.max_inclusive),
            NormalIntProvider::WeightedList(_) => (0, g),
            NormalIntProvider::Clamped(c) => {
                let d = spec_ip_get(*c.source, g);
                (
                    spec_clamp(d.0 as int, c.min_inclusive as int, c.max_inclusive as int) as i32,
                    d.1,
                )
            },
            NormalIntProvider::BiasedToBottom(b) => (b.min_inclusive, g),
        },
    }
}

/// The least value the provider reports it can draw.
pub open spec fn spec_ip_min(p: IntProvider) -> i32
    decreases p,
{
    match p {
        IntProvider::Constant(i) => i,
        IntProvider::Object(n) => match n {
            NormalIntProvider::Uniform(u) => u.min_inclusive,
            NormalIntProvider::WeightedList(_) => 0,
            NormalIntProvider::Clamped(c) => if c.min_inclusive >= spec_ip_min(*c.source) {
                c.min_inclusive
            } else {
                spec_ip_min(*c.source)
            },
            NormalIntProvider::BiasedToBottom(b) => b.min_inclusive,
        },
    }
}

/// The greatest value the provider reports it can draw.
pub open spec fn spec_ip_max(p: IntProvider) -> i32
    decreases p,
{
    match p {
        IntProvider::Constant(i) => i,
        IntProvider::Object(n) => match n {
            NormalIntProvider::Uniform(u) => u.max_inclusive,
            NormalIntProvider::WeightedList(_) => 0,
            NormalIntProvider::Clamped(c) => if c.max_inclusive <= spec_ip_max(*c.source) {
                c.max_inclusive
            } else {
                spec_ip_max(*c.source)
            },
            NormalIntProvider::BiasedToBottom(b) => b.max_inclusive,
        },
    }
}

impl UniformIntProvider {
    pub fn get_min(&self) -> (r: i32)
        ensures
            r == self.min_inclusive,
    {
        self.min_inclusive
    }

    /// One draw, uniform over the inclusive range; an inverted range
    /// degrades to the lower bound without advancing the generator.
    pub fn get(&self, random: &mut RandomGenerator) -> (r: i32)
        requires
            old(random).wf(),
            -SPREAD_LIMIT <= self.min_inclusive <= SPREAD_LIMIT,
            -SPREAD_LIMIT <= self.max_inclusive <= SPREAD_LIMIT,
        ensures
            r == rg_inbetween(*old(random), self.min_inclusive, self.max_inclusive).0,
            *final(random) == rg_inbetween(*old(random), self.min_inclusive, self.max_inclusive).1,
            self.min_inclusive <= self.max_inclusive ==> self.min_inclusive <= r
                <= self.max_inclusive,
            final(random).wf(),
    {
        random.next_inbetween_i32(self.min_inclusive, self.max_inclusive)
    }

    pub fn get_max(&self) -> (r: i32)
        ensures
            r == self.max_inclusive,
    {
        self.max_inclusive
    }
}

impl WeightedListIntProvider {
    pub fn get_min(&self) -> (r: i32)
        ensures
            r == 0,
    {
        0
    }

    pub fn get(&self) -> (r: i32)
        ensures
            r == 0,
    {
        0
    }

    pub fn get_max(&self) -> (r: i32)
        ensures
            r == 0,
    {
        0
    }
}

impl BiasedToBottomIntProvider {
    pub fn get_min(&self) -> (r: i32)
        ensures
            r == self.min_inclusive,
    {
        self.min_inclusive
    }

    pub fn get(&self) -> (r: i32)
        ensures
            r == self.min_inclusive,
    {
        self.min_inclusive
    }

    pub fn get_max(&self) -> (r: i32)
        ensures
            r == self.max_inclusive,
    {
        self.max_inclusive
    }
}

impl ClampedIntProvider {
    pub fn get_min(&self) -> (r: i32)
        ensures
            r == if self.min_inclusive >= spec_ip_min(*self.source) {
                self.min_inclusive
            } else {
                spec_ip_min(*self.source)
            },
        decreases *self,
    {
        let source_min = self.source.get_min();
        if self.min_inclusive >= source_min {
            self.min_inclusive
        } else {
            source_min
        }
    }

    /// The inner draw, clamped into the configured range.
    pub fn get(&self, random: &mut RandomGenerator) -> (r: i32)
        requires
            old(random).wf(),
            ip_wf(*self.source),
        ensures
            ({
                let d = spec_ip_get(*self.source, *old(random));
                r == spec_clamp(d.0 as int, self.min_inclusive as int, self.max_inclusive as int)
                    && *final(random) == d.1
            }),
            final(random).wf(),
        decreases *self,
    {
        let v = self.source.get(random);
        if v < self.min_inclusive {
            self.min_inclusive
        } else if v > self.max_inclusive {
            self.max_inclusive
        } else {
            v
        }
    }

    pub fn get_max(&self) -> (r: i32)
        ensures
            r == if self.max_inclusive <= spec_ip_max(*self.source) {
                self.max_inclusive
            } else {
                spec_ip_max(*self.source)
            },
        decreases *self,
    {
        let source_max = self.source.get_max();
        if self.max_inclusive <= source_max {
            self.max_inclusive
        } else {
            source_max
        }
    }
}

impl IntProvider {
    pub fn get_min(&self) -> (r: i32)
        ensures
            r == spec_ip_min(*self),
        decreases *self,
    {
        match self {
            IntProvider::Object(int_provider) => match int_provider {
                NormalIntProvider::Uniform(uniform) => uniform.get_min(),
                NormalIntProvider::WeightedList(provider) => provider.get_min(),
                NormalIntProvider::Clamped(provider) => provider.get_min(),
                NormalIntProvider::BiasedToBottom(provider) => provider.get_min(),
            },
            IntProvider::Constant(i) => *i,
        }
    }

    /// One draw from the distribution; the value and the generator state
    /// after it are fixed by the state before it.
    pub fn get(&self, random: &mut RandomGenerator) -> (r: i32)
        requires
            old(random).wf(),
            ip_wf(*self),
        ensures
            r == spec_ip_get(*self, *old(random)).0,
            *final(random) == spec_ip_get(*self, *old(random)).1,
            final(random).wf(),
        decreases *self,
    {
        match self {
            IntProvider::Object(int_provider) => match int_provider {
                NormalIntProvider::Uniform(uniform) => uniform.get(random),
                NormalIntProvider::WeightedList(provider) => provider.get(),
                NormalIntProvider::Clamped(provider) => provider.get(random),
                NormalIntProvider::BiasedToBottom(provider) => provider.get(),
            },
            IntProvider::Constant(i) => *i,
        }
    }

    pub fn get_max(&self) -> (r: i32)
        ensures
            r == spec_ip_max(*self),
        decreases *self,
    {
        match self {
            IntProvider::Object(int_provider) => match int_provider {
                NormalIntProvider::Uniform(uniform) => uniform.get_max(),
                NormalIntProvider::WeightedList(provider) => provider.get_max(),
                NormalIntProvider::Clamped(provider) => provider.get_max(),
                NormalIntProvider::BiasedToBottom(provider) => provider.get_max(),
            },
            IntProvider::Constant(i) => *i,
        }
    }
}

} // verus!
