//! Control core of a physical-model voice synthesizer.
//!
//! The synthesizer couples a glottal source to a one-dimensional digital
//! waveguide with a nasal side branch.  Its sample-by-sample acoustics are
//! floating-point work and live with the host; this crate owns and verifies
//! everything the model decides with integers and indices: the bounded pool
//! of plosive transients, the articulator target layout, the geometry of the
//! tract segments, the plosive-release rule, and the block cursor that paces
//! rendering.

pub mod tract;
pub mod transient;
pub mod voc;
