//! Articulatory state of the oral waveguide.
//!
//! The tract is a chain of `n` cylindrical cells.  Its acoustic work —
//! traveling waves, scattering junctions, reflection coefficients — is
//! numeric and runs in the host.  This module owns what the model decides
//! discretely: which cell belongs to which resting-shape class, where each
//! articulator target word is placed, when a reopened closure releases a
//! plosive transient, and the pool of those transients.
//!
//! Diameters are carried as opaque 64-bit sample words.  The library never
//! interprets a word numerically; it only places words and keeps the layout
//! invariants, while the host reads them as physical diameters.

use crate::transient::TransientPool;
use vstd::prelude::*;

verus! {

/// Reference segment count the resting-shape boundaries are scaled against.
pub const BASE_N: usize = 44;

/// Resting-shape class of an oral cell: the narrow section at the glottal
/// end, the mid section up to the tongue blade, or the wide oral section.
#[derive(Clone, Copy, PartialEq, Eq, Structural, Debug)]
pub enum SegmentClass {
    Trachea,
    Epiglottis,
    Oral,
}

/// First cell past the tracheal section: `(1 + epiglottis_start) * n / BASE_N
/// - 1/2`, rounded down and clamped at zero, written over a common
/// denominator of `2 * BASE_N`.
pub open spec fn spec_trachea_end(n: int, epiglottis_start: int) -> int {
    let scaled = 2 * (1 + epiglottis_start) * n;
    if scaled <= BASE_N { 0 } else { (scaled - BASE_N) / (2 * BASE_N) }
}

/// First cell past the epiglottal section: `blade_start * n / BASE_N`,
/// rounded down.
pub open spec fn spec_blade_end(n: int, blade_start: int) -> int {
    blade_start * n / (BASE_N as int)
}

/// The resting-shape class of cell `i` in an `n`-cell tract.
pub open spec fn spec_initial_shape_class(
    i: int,
    n: int,
    epiglottis_start: int,
    blade_start: int,
) -> SegmentClass {
    if i < spec_trachea_end(n, epiglottis_start) {
        SegmentClass::Trachea
    } else if i < spec_blade_end(n, blade_start) {
        SegmentClass::Epiglottis
    } else {
        SegmentClass::Oral
    }
}

/// The diameter word the resting profile assigns to a class.
pub open spec fn spec_class_word(
    c: SegmentClass,
    trachea_word: u64,
    epiglottis_word: u64,
    oral_word: u64,
) -> u64 {
    match c {
        SegmentClass::Trachea => trachea_word,
        SegmentClass::Epiglottis => epiglottis_word,
        SegmentClass::Oral => oral_word,
    }
}

/// Classify cell `i` of an `n`-cell tract for the resting diameter profile.
pub fn initial_shape_class(i: usize, n: usize, epiglottis_start: usize, blade_start: usize) -> (c:
    SegmentClass)
    requires
        n <= 65536,
        epiglottis_start < n,
        blade_start < n,
    ensures
        c == spec_initial_shape_class(
            i as int,
            n as int,
            epiglottis_start as int,
            blade_start as int,
        ),
{
    proof {
        assert((1 + epiglottis_start as int) * (n as int) <= 65536 * 65536) by (nonlinear_arith)
            requires
                (epiglottis_start as int) < (n as int),
                (n as int) <= 65536,
        ;
        assert((blade_start as int) * (n as int) <= 65536 * 65536) by (nonlinear_arith)
            requires
                (blade_start as int) < (n as int),
                (n as int) <= 65536,
        ;
    }
    let grown: u64 = (1 + epiglottis_start as u64) * (n as u64);
    let scaled: u64 = 2 * grown;
    proof {
        assert(scaled as int == 2 * (1 + epiglottis_start as int) * (n as int))
            by (nonlinear_arith)
            requires
                (scaled as int) == 2 * (grown as int),
                (grown as int) == (1 + epiglottis_start as int) * (n as int),
        ;
    }
    let trachea_end: u64 = if scaled <= BASE_N as u64 {
        0
    } else {
        (scaled - BASE_N as u64) / (2 * BASE_N as u64)
    };
    let blade_end: u64 = (blade_start as u64) * (n as u64) / (BASE_N as u64);
    if (i as u64) < trachea_end {
        SegmentClass::Trachea
    } else if (i as u64) < blade_end {
        SegmentClass::Epiglottis
    } else {
        SegmentClass::Oral
    }
}

/// Build the resting diameter profile for an `n`-cell tract: each cell takes
/// the word of its resting-shape class.
pub fn initial_target_words(
    n: usize,
    epiglottis_start: usize,
    blade_start: usize,
    trachea_word: u64,
    epiglottis_word: u64,
    oral_word: u64,
) -> (r: Vec<u64>)
    requires
        n <= 65536,
        epiglottis_start < n,
        blade_start < n,
    ensures
        r@.len() == n,
        forall|i: int|
            0 <= i < n ==> #[trigger] r@[i] == spec_class_word(
                spec_initial_shape_class(i, n as int, epiglottis_start as int, blade_start as int),
                trachea_word,
                epiglottis_word,
                oral_word,
            ),
{
    let mut r: Vec<u64> = Vec::with_capacity(n);
    let mut i: usize = 0;
    while i < n
        invariant
            i <= n,
            n <= 65536,
            epiglottis_start < n,
            blade_start < n,
            r@.len() == i,
            forall|k: int|
                0 <= k < i ==> #[trigger] r@[k] == spec_class_word(
                    spec_initial_shape_class(
                        k,
                        n as int,
                        epiglottis_start as int,
                        blade_start as int,
                    ),
                    trachea_word,
                    epiglottis_word,
                    oral_word,
                ),
        decreases n - i,
    {
        let c = initial_shape_class(i, n, epiglottis_start, blade_start);
        let w: u64 = match c {
            SegmentClass::Trachea => trachea_word,
            SegmentClass::Epiglottis => epiglottis_word,
            SegmentClass::Oral => oral_word,
        };
        r.push(w);
        i = i + 1;
    }
    r
}

/// Which opening-rate regime reshape applies to an oral cell: a constant
/// slow return before the velum, a linear ramp from the velum to the tongue
/// tip, and the full rate from the tip on.
#[derive(Clone, Copy, PartialEq, Eq, Structural, Debug)]
pub enum RateRegion {
    Slow,
    Ramp,
    Full,
}

/// The rate regime of cell `i` for a tract with the given velum and tip
/// boundaries.
pub open spec fn spec_rate_region(i: int, nose_start: int, tip_start: int) -> RateRegion {
    if i < nose_start {
        RateRegion::Slow
    } else if i >= tip_start {
        RateRegion::Full
    } else {
        RateRegion::Ramp
    }
}

/// Classify cell `i` for reshape's asymmetric opening rate.
pub fn rate_region(i: usize, nose_start: usize, tip_start: usize) -> (r: RateRegion)
    ensures
        r == spec_rate_region(i as int, nose_start as int, tip_start as int),
{
    if i < nose_start {
        RateRegion::Slow
    } else if i >= tip_start {
        RateRegion::Full
    } else {
        RateRegion::Ramp
    }
}

/// The articulator interpolation rule on the integer model: one reshape step
/// moves `current` toward `target`, by at most `amt_up` when opening and at
/// most `amt_down` when closing, never overshooting.
pub open spec fn move_towards_model(current: int, target: int, amt_up: int, amt_down: int) -> int {
    if current < target {
        if current + amt_up < target {
            current + amt_up
        } else {
            target
        }
    } else {
        if current - amt_down > target {
            current - amt_down
        } else {
            target
        }
    }
}

/// Reshaping a cell that already sits at its target leaves it unchanged,
/// whatever the rates: repeating reshape at the target is idempotent.
pub proof fn lemma_move_towards_at_target(current: int, amt_up: int, amt_down: int)
    requires
        amt_down >= 0,
    ensures
        move_towards_model(current, current, amt_up, amt_down) == current,
{
}

/// Each reshape step stays between the current value and the target: the
/// approach to the target is monotone and never overshoots.
pub proof fn lemma_move_towards_monotone(current: int, target: int, amt_up: int, amt_down: int)
    requires
        amt_up >= 0,
        amt_down >= 0,
    ensures
        current <= target ==> current <= move_towards_model(current, target, amt_up, amt_down)
            <= target,
        current >= target ==> target <= move_towards_model(current, target, amt_up, amt_down)
            <= current,
{
}

/// A Kelly-Lochbaum scattering coefficient `(a0 - a1) / (a0 + a1)` built from
/// nonnegative cell areas is physical: its numerator never exceeds its
/// denominator in magnitude, so the coefficient lies in `[-1, 1]`.
pub proof fn lemma_reflection_physical(a0: int, a1: int)
    requires
        a0 >= 0,
        a1 >= 0,
        a0 + a1 > 0,
    ensures
        -(a0 + a1) <= a0 - a1 <= a0 + a1,
{
}

/// Does reopening fire a plosive release?  It does exactly when the previous
/// reshape saw an obstruction, the current one sees none, and the velum is
/// essentially closed.
pub open spec fn spec_release_fires(
    last_obstruction: Option<usize>,
    current_obstruction: Option<usize>,
    velum_closed: bool,
) -> bool {
    last_obstruction is Some && current_obstruction is None && velum_closed
}

/// Articulatory state of the oral tract and its nasal branch lengths.
pub struct Tract {
    /// Number of oral cells.
    pub n: usize,
    /// Number of nasal cells.
    pub nose_length: usize,
    /// Oral cell where the nasal branch joins.
    pub nose_start: usize,
    /// First cell of the tongue tip section.
    pub tip_start: usize,
    /// First cell of the tongue blade section.
    pub blade_start: usize,
    /// First cell past the tracheal section.
    pub epiglottis_start: usize,
    /// First cell of the lip section.
    pub lip_start: usize,
    /// Articulator goals, one word per oral cell.
    pub target_diameter: Vec<u64>,
    /// The neutral resting shape, fixed at construction.
    pub rest_diameter: Vec<u64>,
    /// Goal for the nasal aperture word.
    pub velum_target: u64,
    /// Cell found obstructed by the previous reshape, if any.
    pub last_obstruction: Option<usize>,
    /// Pool of plosive release transients.
    pub tpool: TransientPool,
}

impl Tract {
    /// Well-formedness: the named sections partition the tract in order, the
    /// diameter arrays keep their construction length, and every live
    /// transient sits on a real cell.
    pub open spec fn wf(self) -> bool {
        &&& 0 < self.epiglottis_start < self.blade_start < self.nose_start < self.tip_start
            < self.lip_start < self.n
        &&& 1 <= self.nose_length
        &&& self.n <= 65536
        &&& self.target_diameter@.len() == self.n
        &&& self.rest_diameter@.len() == self.n
        &&& match self.last_obstruction {
            Option::Some(i) => i < self.n,
            Option::None => true,
        }
        &&& self.tpool.wf()
        &&& forall|k: int|
            0 <= k < self.tpool.pool@.len() && !(#[trigger] self.tpool.pool@[k]).is_free
                ==> self.tpool.pool@[k].position < self.n
    }

    /// Two tracts agree on everything but their articulator targets.
    pub open spec fn same_but_targets(self, other: Tract) -> bool {
        &&& self.n == other.n
        &&& self.nose_length == other.nose_length
        &&& self.nose_start == other.nose_start
        &&& self.tip_start == other.tip_start
        &&& self.blade_start == other.blade_start
        &&& self.epiglottis_start == other.epiglottis_start
        &&& self.lip_start == other.lip_start
        &&& self.rest_diameter@ == other.rest_diameter@
        &&& self.velum_target == other.velum_target
        &&& self.last_obstruction == other.last_obstruction
        &&& self.tpool.same_state(other.tpool)
    }

    /// A new tract: the given resting profile becomes both the resting and
    /// the target shape, no obstruction has been seen, and the pool is empty.
    pub fn new(
        n: usize,
        nose_length: usize,
        nose_start: usize,
        tip_start: usize,
        blade_start: usize,
        epiglottis_start: usize,
        lip_start: usize,
        initial_diameter: Vec<u64>,
        velum_word: u64,
    ) -> (t: Tract)
        requires
            0 < epiglottis_start < blade_start < nose_start < tip_start < lip_start < n,
            1 <= nose_length,
            n <= 65536,
            initial_diameter@.len() == n,
        ensures
            t.wf(),
            t.n == n,
            t.nose_length == nose_length,
            t.nose_start == nose_start,
            t.tip_start == tip_start,
            t.blade_start == blade_start,
            t.epiglottis_start == epiglottis_start,
            t.lip_start == lip_start,
            t.target_diameter@ == initial_diameter@,
            t.rest_diameter@ == initial_diameter@,
            t.velum_target == velum_word,
            t.last_obstruction is None,
            t.tpool.spec_size() == 0,
    {
        let mut rest: Vec<u64> = Vec::with_capacity(n);
        let mut i: usize = 0;
        while i < initial_diameter.len()
            invariant
                i <= initial_diameter@.len(),
                rest@ == initial_diameter@.subrange(0, i as int),
            decreases initial_diameter@.len() - i,
        {
            rest.push(initial_diameter[i]);
            proof {
                assert(rest@ =~= initial_diameter@.subrange(0, i + 1));
            }
            i = i + 1;
        }
        proof {
            assert(rest@ =~= initial_diameter@);
        }
        Tract {
            n,
            nose_length,
            nose_start,
            tip_start,
            blade_start,
            epiglottis_start,
            lip_start,
            target_diameter: initial_diameter,
            rest_diameter: rest,
            velum_target: velum_word,
            last_obstruction: Option::None,
            tpool: TransientPool::new(),
        }
    }

    /// Write the word `d` into every target cell of `[start, end)`.
    fn fill_range(&mut self, start: usize, end: usize, d: u64)
        requires
            old(self).wf(),
            start <= end <= old(self).n,
        ensures
            final(self).wf(),
            final(self).same_but_targets(*old(self)),
            forall|i: int|
                0 <= i < old(self).n ==> #[trigger] final(self).target_diameter@[i] == (
                if start <= i < end {
                    d
                } else {
                    old(self).target_diameter@[i]
                }),
    {
        let mut i: usize = start;
        while i < end
            invariant
                start <= i <= end <= self.n,
                self.wf(),
                self.same_but_targets(*old(self)),
                forall|k: int|
                    0 <= k < self.n ==> #[trigger] self.target_diameter@[k] == (
                    if start <= k < i {
                        d
                    } else {
                        old(self).target_diameter@[k]
                    }),
            decreases end - i,
        {
            self.target_diameter.set(i, d);
            i = i + 1;
        }
    }

    /// Set the lip aperture: every target cell from `lip_start` to the end
    /// takes the word `d`.
    pub fn set_lips(&mut self, d: u64)
        requires
            old(self).wf(),
        ensures
            final(self).wf(),
            final(self).same_but_targets(*old(self)),
            forall|i: int|
                0 <= i < old(self).n ==> #[trigger] final(self).target_diameter@[i] == (
                if old(self).lip_start <= i {
                    d
                } else {
                    old(self).target_diameter@[i]
                }),
    {
        let end = self.n;
        self.fill_range(self.lip_start, end, d);
    }

    /// Set the epiglottal opening: every target cell of
    /// `[epiglottis_start, blade_start)` takes the word `d`.
    pub fn set_epiglottis(&mut self, d: u64)
        requires
            old(self).wf(),
        ensures
            final(self).wf(),
            final(self).same_but_targets(*old(self)),
            forall|i: int|
                0 <= i < old(self).n ==> #[trigger] final(self).target_diameter@[i] == (
                if old(self).epiglottis_start <= i < old(self).blade_start {
                    d
                } else {
                    old(self).target_diameter@[i]
                }),
    {
        let end = self.blade_start;
        self.fill_range(self.epiglottis_start, end, d);
    }

    /// Set the tracheal opening: every target cell before `epiglottis_start`
    /// takes the word `d`.
    pub fn set_trachea(&mut self, d: u64)
        requires
            old(self).wf(),
        ensures
            final(self).wf(),
            final(self).same_but_targets(*old(self)),
            forall|i: int|
                0 <= i < old(self).n ==> #[trigger] final(self).target_diameter@[i] == (
                if i < old(self).epiglottis_start {
                    d
                } else {
                    old(self).target_diameter@[i]
                }),
    {
        let end = self.epiglottis_start;
        self.fill_range(0, end, d);
    }

    /// Per-block obstruction bookkeeping, run during reshape.  `current`
    /// names the cell the host found obstructed this block, `velum_closed`
    /// whether the nasal aperture area is essentially zero.  When a closure
    /// seen last block has reopened while the velum is closed, a transient is
    /// appended at the previously obstructed cell (dropped if the pool is
    /// full); the current obstruction is remembered either way.
    pub fn record_obstruction(&mut self, current: Option<usize>, velum_closed: bool)
        requires
            old(self).wf(),
            match current {
                Option::Some(i) => i < old(self).n,
                Option::None => true,
            },
        ensures
            final(self).wf(),
            final(self).last_obstruction == current,
            final(self).n == old(self).n,
            final(self).nose_length == old(self).nose_length,
            final(self).nose_start == old(self).nose_start,
            final(self).tip_start == old(self).tip_start,
            final(self).blade_start == old(self).blade_start,
            final(self).epiglottis_start == old(self).epiglottis_start,
            final(self).lip_start == old(self).lip_start,
            final(self).target_diameter@ == old(self).target_diameter@,
            final(self).rest_diameter@ == old(self).rest_diameter@,
            final(self).velum_target == old(self).velum_target,
            spec_release_fires(old(self).last_obstruction, current, velum_closed)
                ==> old(self).tpool.append_rel(
                final(self).tpool,
                old(self).last_obstruction.unwrap(),
            ),
            !spec_release_fires(old(self).last_obstruction, current, velum_closed)
                ==> final(self).tpool.same_state(old(self).tpool),
    {
        if let Option::Some(pos) = self.last_obstruction {
            if current.is_none() && velum_closed {
                self.tpool.append(pos);
            }
        }
        self.last_obstruction = current;
        proof {
            assert forall|k: int|
                0 <= k < self.tpool.pool@.len() && !(#[trigger] self.tpool.pool@[k]).is_free
                    implies self.tpool.pool@[k].position < self.n by {
                if !old(self).tpool.pool@[k].is_free {
                    assert(old(self).tpool.pool@[k].position < old(self).n);
                }
            }
        }
    }

    /// First cell of the lip section.
    pub fn lip_start(&self) -> (r: usize)
        ensures
            r == self.lip_start,
    {
        self.lip_start
    }

    /// First cell of the tongue blade section.
    pub fn blade_start(&self) -> (r: usize)
        ensures
            r == self.blade_start,
    {
        self.blade_start
    }

    /// First cell past the tracheal section.
    pub fn epiglottis_start(&self) -> (r: usize)
        ensures
            r == self.epiglottis_start,
    {
        self.epiglottis_start
    }
}

} // verus!
