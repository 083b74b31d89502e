//! Vertical anchors and height distributions.

use vstd::prelude::*;
use crate::math::SPREAD_LIMIT;
use crate::random::RandomGenerator;
use crate::random::rg_inbetween;

verus! {

/// A y-coordinate anchored to the world: absolute, measured up from the
/// bottom, or measured down from the top.
#[derive(Clone, Copy, PartialEq, Eq, Structural, Debug)]
pub enum YOffset {
    Absolute(i32),
    AboveBottom(i32),
    BelowTop(i32),
}

impl YOffset {
    pub open spec fn wf(self) -> bool {
        match self {
            YOffset::Absolute(v) => -SPREAD_LIMIT <= v <= SPREAD_LIMIT,
            YOffset::AboveBottom(v) => -SPREAD_LIMIT <= v <= SPREAD_LIMIT,
            YOffset::BelowTop(v) => -SPREAD_LIMIT <= v <= SPREAD_LIMIT,
        }
    }

    /// The anchored y for a world of the given bottom and height.
    pub open spec fn spec_y(self, min_y: int, height: int) -> int {
        match self {
            YOffset::Absolute(v) => v as int,
            YOffset::AboveBottom(v) => min_y + v,
            YOffset::BelowTop(v) => min_y + height - 1 - v,
        }
    }

    pub fn get_y(&self, min_y: i8, height: u16) -> (r: i32)
        requires
            self.wf(),
        ensures
            r == self.spec_y(min_y as int, height as int),
    {
        match self {
            YOffset::Absolute(v) => *v,
            YOffset::AboveBottom(v) => min_y as i32 + *v,
            YOffset::BelowTop(v) => min_y as i32 + height as i32 - 1 - *v,
        }
    }
}

/// A height distribution over anchored bounds.
#[derive(Clone, Copy, PartialEq, Eq, Structural, Debug)]
pub enum HeightProvider {
    Uniform(UniformHeightProvider),
    Trapezoid(TrapezoidHeightProvider),
}

#[derive(Clone, Copy, PartialEq, Eq, Structural, Debug)]
pub struct UniformHeightProvider {
    pub min_inclusive: YOffset,
    pub max_inclusive: YOffset,
}

#[derive(Clone, Copy, PartialEq, Eq, Structural, Debug)]
pub struct TrapezoidHeightProvider {
    pub min_inclusive: YOffset,
    pub max_inclusive: YOffset,
    pub plateau: Option<i32>,
}

/// The uniform height draw: inclusive between the two anchors; an empty
/// range degrades to the lower anchor without a draw.
pub open spec fn spec_uniform_height(
    p: UniformHeightProvider,
    g: RandomGenerator,
    min_y: int,
    height: int,
) -> (i32, RandomGenerator) {
    let lo = p.min_inclusive.spec_y(min_y, height);
    let hi = p.max_inclusive.spec_y(min_y, height);
    rg_inbetween(g, lo as i32, hi as i32)
}

/// The trapezoid height draw: a single uniform draw when the plateau
/// covers the range, else the sum of two bounded draws biased toward the
/// plateau's center; an empty range degrades to the lower anchor.
pub open spec fn spec_trapezoid_height(
    p: TrapezoidHeightProvider,
    g: RandomGenerator,
    min_y: int,
    height: int,
) -> (i32, RandomGenerator) {
    let plateau = match p.plateau {
        Some(v) => v as int,
        None => 0,
    };
    let i = p.min_inclusive.spec_y(min_y, height);
    let j = p.max_inclusive.spec_y(min_y, height);
    if i > j {
        (i as i32, g)
    } else {
        let k = j - i;
        if plateau >= k {
            rg_inbetween(g, i as i32, j as i32)
        } else {
            let l = (k - plateau) / 2;
            let m = k - l;
            let d1 = rg_inbetween(g, 0, m as i32);
            let d2 = rg_inbetween(d1.1, 0, l as i32);
            ((i + d1.0 + d2.0) as i32, d2.1)
        }
    }
}

/// The draw a height provider makes.
pub open spec fn spec_height_get(
    p: HeightProvider,
    g: RandomGenerator,
    min_y: int,
    height: int,
) -> (i32, RandomGenerator) {
    match p {
        HeightProvider::Uniform(u) => spec_uniform_height(u, g, min_y, height),
        HeightProvider::Trapezoid(t) => spec_trapezoid_height(t, g, min_y, height),
    }
}

impl UniformHeightProvider {
    pub open spec fn wf(self) -> bool {
        self.min_inclusive.wf() && self.max_inclusive.wf()
    }

    pub fn get(&self, random: &mut RandomGenerator, min_y: i8, height: u16) -> (r: i32)
        requires
            old(random).wf(),
            self.wf(),
        ensures
            r == spec_uniform_height(*self, *old(random), min_y as int, height as int).0,
            *final(random) == spec_uniform_height(*self, *old(random), min_y as int, height as int).1,
            final(random).wf(),
    {
        let min = self.min_inclusive.get_y(min_y, height);
        let max = self.max_inclusive.get_y(min_y, height);
        random.next_inbetween_i32(min, max)
    }
}

impl TrapezoidHeightProvider {
    pub open spec fn wf(self) -> bool {
        self.min_inclusive.wf() && self.max_inclusive.wf() && match self.plateau {
            Some(v) => -SPREAD_LIMIT <= v <= SPREAD_LIMIT,
            None => true,
        }
    }

    pub fn get(&self, random: &mut RandomGenerator, min_y: i8, height: u16) -> (r: i32)
        requires
            old(random).wf(),
            self.wf(),
        ensures
            r == spec_trapezoid_height(*self, *old(random), min_y as int, height as int).0,
            *final(random) == spec_trapezoid_height(*self, *old(random), min_y as int, height as int).1,
            final(random).wf(),
    {
        let plateau = match self.plateau {
            Some(v) => v,
            None => 0,
        };
        let i = self.min_inclusive.get_y(min_y, height);
        let j = self.max_inclusive.get_y(min_y, height);
        if i > j {
            return i;
        }
        let k = j - i;
        if plateau >= k {
            return random.next_inbetween_i32(i, j);
        }
        let l = (k - plateau) / 2;
        let m = k - l;
        i + random.next_inbetween_i32(0, m) + random.next_inbetween_i32(0, l)
    }
}

impl HeightProvider {
    pub open spec fn wf(self) -> bool {
        match self {
            HeightProvider::Uniform(u) => u.wf(),
            HeightProvider::Trapezoid(t) => t.wf(),
        }
    }

    /// One height draw from the distribution.
    pub fn get(&self, random: &mut RandomGenerator, min_y: i8, height: u16) -> (r: i32)
        requires
            old(random).wf(),
            self.wf(),
        ensures
            r == spec_height_get(*self, *old(random), min_y as int, height as int).0,
            *final(random) == spec_height_get(*self, *old(random), min_y as int, height as int).1,
            final(random).wf(),
    {
        match self {
            HeightProvider::Uniform(uniform) => uniform.get(random, min_y, height),
            HeightProvider::Trapezoid(trapezoid) => trapezoid.get(random, min_y, height),
        }
    }
}

} // verus!
