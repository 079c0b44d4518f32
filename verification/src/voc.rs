//! Orchestrator control state.
//!
//! The synthesizer renders audio block by block: each block the tract is
//! reshaped, reflections are recomputed, and `chunk` samples are produced.
//! The numeric rendering is the host's; this module owns the per-sample
//! cursor that paces it, the articulator words the host reads, and the exact
//! placement of every articulator setter.

use crate::tract::Tract;
use vstd::prelude::*;

verus! {

/// What a demo driver does between blocks: hold still, or sweep the tongue.
#[derive(Clone, Copy, PartialEq, Eq, Structural, Debug)]
pub enum Mode {
    Idle,
    Tongue,
}

/// Control half of the voice: the tract's articulatory state, the glottal
/// parameter words, and the block cursor.
pub struct Voc {
    /// Articulatory state of the oral tract and nasal branch.
    pub tract: Tract,
    /// Fundamental frequency, as an opaque sample word for the host.
    pub frequency_word: u64,
    /// Tenseness, as an opaque sample word for the host.
    pub tenseness_word: u64,
    /// Next sample slot to read from the rendered block.
    pub counter: usize,
    /// Samples per rendered block.
    pub chunk: usize,
}

impl Voc {
    /// Well-formedness: the tract is well-formed and the cursor always sits
    /// inside the block.
    pub open spec fn wf(self) -> bool {
        &&& self.tract.wf()
        &&& 0 < self.chunk
        &&& self.counter < self.chunk
    }

    /// Two voices agree on everything but their tract state.
    pub open spec fn same_but_tract(self, other: Voc) -> bool {
        &&& self.frequency_word == other.frequency_word
        &&& self.tenseness_word == other.tenseness_word
        &&& self.counter == other.counter
        &&& self.chunk == other.chunk
    }

    /// Two voices hold the same control state entirely.
    pub open spec fn same_state(self, other: Voc) -> bool {
        &&& self.same_but_tract(other)
        &&& self.tract.same_but_targets(other.tract)
        &&& self.tract.target_diameter@ == other.tract.target_diameter@
    }

    /// A new voice at the start of its first block: the given resting profile
    /// shapes the tract, the cursor is at zero so the first pull renders.
    pub fn new(
        chunk: usize,
        n: usize,
        nose_length: usize,
        nose_start: usize,
        tip_start: usize,
        blade_start: usize,
        epiglottis_start: usize,
        lip_start: usize,
        frequency_word: u64,
        tenseness_word: u64,
        initial_diameter: Vec<u64>,
        velum_word: u64,
    ) -> (v: Voc)
        requires
            0 < chunk,
            0 < epiglottis_start < blade_start < nose_start < tip_start < lip_start < n,
            1 <= nose_length,
            n <= 65536,
            initial_diameter@.len() == n,
        ensures
            v.wf(),
            v.chunk == chunk,
            v.counter == 0,
            v.frequency_word == frequency_word,
            v.tenseness_word == tenseness_word,
            v.tract.n == n,
            v.tract.nose_length == nose_length,
            v.tract.nose_start == nose_start,
            v.tract.tip_start == tip_start,
            v.tract.blade_start == blade_start,
            v.tract.epiglottis_start == epiglottis_start,
            v.tract.lip_start == lip_start,
            v.tract.target_diameter@ == initial_diameter@,
            v.tract.rest_diameter@ == initial_diameter@,
            v.tract.velum_target == velum_word,
            v.tract.tpool.spec_size() == 0,
    {
        let tract = Tract::new(
            n,
            nose_length,
            nose_start,
            tip_start,
            blade_start,
            epiglottis_start,
            lip_start,
            initial_diameter,
            velum_word,
        );
        Voc { tract, frequency_word, tenseness_word, counter: 0, chunk }
    }

    /// The fundamental frequency word.
    pub fn frequency(&self) -> (r: u64)
        ensures
            r == self.frequency_word,
    {
        self.frequency_word
    }

    /// Set the fundamental frequency word.
    pub fn set_frequency(&mut self, f: u64)
        ensures
            final(self).frequency_word == f,
            final(self).tenseness_word == old(self).tenseness_word,
            final(self).counter == old(self).counter,
            final(self).chunk == old(self).chunk,
            final(self).tract == old(self).tract,
            old(self).wf() ==> final(self).wf(),
    {
        self.frequency_word = f;
    }

    /// The tenseness word.
    pub fn tenseness(&self) -> (r: u64)
        ensures
            r == self.tenseness_word,
    {
        self.tenseness_word
    }

    /// Set the tenseness word.
    pub fn set_tenseness(&mut self, t: u64)
        ensures
            final(self).tenseness_word == t,
            final(self).frequency_word == old(self).frequency_word,
            final(self).counter == old(self).counter,
            final(self).chunk == old(self).chunk,
            final(self).tract == old(self).tract,
            old(self).wf() ==> final(self).wf(),
    {
        self.tenseness_word = t;
    }

    /// The nasal aperture goal word.
    pub fn velum(&self) -> (r: u64)
        ensures
            r == self.tract.velum_target,
    {
        self.tract.velum_target
    }

    /// Set the nasal aperture goal word.
    pub fn set_velum(&mut self, t: u64)
        ensures
            final(self).tract.velum_target == t,
            final(self).same_but_tract(*old(self)),
            final(self).tract == (Tract { velum_target: t, ..old(self).tract }),
            old(self).wf() ==> final(self).wf(),
    {
        self.tract.velum_target = t;
    }

    /// Number of oral cells.
    pub fn tract_size(&self) -> (r: usize)
        ensures
            r == self.tract.n,
    {
        self.tract.n
    }

    /// Number of nasal cells.
    pub fn nose_size(&self) -> (r: usize)
        ensures
            r == self.tract.nose_length,
    {
        self.tract.nose_length
    }

    /// The articulator target words, one per oral cell.
    pub fn tract_diameters(&self) -> (r: &Vec<u64>)
        ensures
            r@ == self.tract.target_diameter@,
    {
        &self.tract.target_diameter
    }

    /// Write the tongue curve into the cells `[blade_start, lip_start)`: cell
    /// `blade_start + k` takes `curve[k]`.  Exactly that region is written;
    /// every other cell keeps its target.
    pub fn set_diameters(&mut self, blade_start: usize, lip_start: usize, curve: &Vec<u64>)
        requires
            old(self).wf(),
            blade_start <= lip_start <= old(self).tract.n,
            curve@.len() == lip_start - blade_start,
        ensures
            final(self).wf(),
            final(self).same_but_tract(*old(self)),
            final(self).tract.same_but_targets(old(self).tract),
            forall|i: int|
                0 <= i < old(self).tract.n ==> #[trigger] final(self).tract.target_diameter@[i]
                    == (if blade_start <= i < lip_start {
                    curve@[i - blade_start]
                } else {
                    old(self).tract.target_diameter@[i]
                }),
    {
        let mut i: usize = blade_start;
        while i < lip_start
            invariant
                blade_start <= i <= lip_start <= self.tract.n,
                curve@.len() == lip_start - blade_start,
                self.wf(),
                self.same_but_tract(*old(self)),
                self.tract.same_but_targets(old(self).tract),
                forall|k: int|
                    0 <= k < self.tract.n ==> #[trigger] self.tract.target_diameter@[k] == (
                    if blade_start <= k < i {
                        curve@[k - blade_start]
                    } else {
                        old(self).tract.target_diameter@[k]
                    }),
            decreases lip_start - i,
        {
            let w = curve[i - blade_start];
            self.tract.target_diameter.set(i, w);
            i = i + 1;
        }
    }

    /// Write the tongue curve over the tract's own blade-to-lip region: the
    /// cells `[blade_start, lip_start)` take the curve, all others are left
    /// untouched.
    pub fn tongue_shape(&mut self, curve: &Vec<u64>)
        requires
            old(self).wf(),
            curve@.len() == old(self).tract.lip_start - old(self).tract.blade_start,
        ensures
            final(self).wf(),
            final(self).same_but_tract(*old(self)),
            final(self).tract.same_but_targets(old(self).tract),
            forall|i: int|
                0 <= i < old(self).tract.n ==> #[trigger] final(self).tract.target_diameter@[i]
                    == (if old(self).tract.blade_start <= i < old(self).tract.lip_start {
                    curve@[i - old(self).tract.blade_start]
                } else {
                    old(self).tract.target_diameter@[i]
                }),
    {
        let blade_start = self.tract.blade_start;
        let lip_start = self.tract.lip_start;
        self.set_diameters(blade_start, lip_start, curve);
    }

    /// Write `diameters` over the cell range `[start, end)`, clamped to the
    /// tract: cell `start + k` takes `diameters[k]` while it lies both in the
    /// range and in the tract.
    pub fn set_tract_diameters(&mut self, start: usize, end: usize, diameters: &Vec<u64>)
        requires
            old(self).wf(),
        ensures
            final(self).wf(),
            final(self).same_but_tract(*old(self)),
            final(self).tract.same_but_targets(old(self).tract),
            forall|i: int|
                0 <= i < old(self).tract.n ==> #[trigger] final(self).tract.target_diameter@[i]
                    == (if start <= i < end && i - start < diameters@.len() {
                    diameters@[i - start]
                } else {
                    old(self).tract.target_diameter@[i]
                }),
    {
        let mut k: usize = 0;
        let mut i: usize = start;
        while i < end && k < diameters.len()
            invariant
                i == start + k,
                start <= i,
                i <= end || k == 0,
                k <= diameters@.len(),
                self.wf(),
                self.same_but_tract(*old(self)),
                self.tract.same_but_targets(old(self).tract),
                forall|j: int|
                    0 <= j < self.tract.n ==> #[trigger] self.tract.target_diameter@[j] == (
                    if start <= j < i && j < end && j - start < diameters@.len() {
                        diameters@[j - start]
                    } else {
                        old(self).tract.target_diameter@[j]
                    }),
            decreases end - i,
        {
            if i < self.tract.n {
                let w = diameters[k];
                self.tract.target_diameter.set(i, w);
            }
            i = i + 1;
            k = k + 1;
        }
    }

    /// Set every articulator at once: the tracheal, epiglottal and lip
    /// sections each take one word, the blade-to-lip region takes the tongue
    /// curve, and the velum goal is replaced.  The four cell regions are
    /// disjoint and cover the tract, so each cell is written exactly once.
    pub fn set_tract_parameters(
        &mut self,
        trachea: u64,
        epiglottis: u64,
        velum: u64,
        curve: &Vec<u64>,
        lips: u64,
    )
        requires
            old(self).wf(),
            curve@.len() == old(self).tract.lip_start - old(self).tract.blade_start,
        ensures
            final(self).wf(),
            final(self).same_but_tract(*old(self)),
            final(self).tract.velum_target == velum,
            final(self).tract.n == old(self).tract.n,
            final(self).tract.rest_diameter@ == old(self).tract.rest_diameter@,
            final(self).tract.last_obstruction == old(self).tract.last_obstruction,
            final(self).tract.tpool.same_state(old(self).tract.tpool),
            forall|i: int|
                0 <= i < old(self).tract.n ==> #[trigger] final(self).tract.target_diameter@[i]
                    == (if i < old(self).tract.epiglottis_start {
                    trachea
                } else if i < old(self).tract.blade_start {
                    epiglottis
                } else if i < old(self).tract.lip_start {
                    curve@[i - old(self).tract.blade_start]
                } else {
                    lips
                }),
    {
        self.tract.set_trachea(trachea);
        self.tract.set_epiglottis(epiglottis);
        self.set_velum(velum);
        self.tongue_shape(curve);
        self.tract.set_lips(lips);
    }

    /// One pull of the per-sample cursor: report whether a new block must be
    /// rendered first (the cursor sits at the block start) and which slot of
    /// the block buffer to read, then step the cursor, wrapping at `chunk`.
    pub fn advance_counter(&mut self) -> (r: (bool, usize))
        requires
            old(self).wf(),
        ensures
            final(self).wf(),
            r.0 == (old(self).counter == 0),
            r.1 == old(self).counter,
            final(self).counter == (old(self).counter + 1) % (old(self).chunk as int),
            final(self).chunk == old(self).chunk,
            final(self).frequency_word == old(self).frequency_word,
            final(self).tenseness_word == old(self).tenseness_word,
            final(self).tract == old(self).tract,
    {
        let render = self.counter == 0;
        let slot = self.counter;
        self.counter = (self.counter + 1) % self.chunk;
        (render, slot)
    }
}

/// Which endpoint attenuations apply to tongue-curve cell `i`: the outermost
/// written cells damp the cosine bump by the stronger factor, the cells one
/// step in by the weaker one.  The region bounds are read with saturating
/// subtraction, as in the shape formula.
pub fn tongue_attenuation(i: usize, blade_start: usize, lip_start: usize) -> (r: (bool, bool))
    ensures
        r.0 == (i == sat_sub_spec(blade_start as int, 2) || i == sat_sub_spec(
            lip_start as int,
            1,
        )),
        r.1 == (i == blade_start || i == sat_sub_spec(lip_start as int, 2)),
{
    let blade_outer: usize = if blade_start >= 2 {
        blade_start - 2
    } else {
        0
    };
    let lip_outer: usize = if lip_start >= 1 {
        lip_start - 1
    } else {
        0
    };
    let lip_inner: usize = if lip_start >= 2 {
        lip_start - 2
    } else {
        0
    };
    (i == blade_outer || i == lip_outer, i == blade_start || i == lip_inner)
}

/// Subtraction on cell indices, clamped at zero.
pub open spec fn sat_sub_spec(a: int, b: int) -> int {
    if a >= b {
        a - b
    } else {
        0
    }
}

/// The articulator update applied between blocks by the demo that holds the
/// default shape: whatever the block index, it changes nothing.
pub fn nothing(voc: &mut Voc, _block: u64)
    ensures
        final(voc).same_state(*old(voc)),
{
}

} // verus!
