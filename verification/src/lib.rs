//! Circuit-construction layer for a hash-compression proving backend.
//!
//! The crate lowers abstract witness work, recorded as ordered "lanes" of
//! cell values, onto a fixed physical grid of rows and columns:
//!
//! * [`circuit`] sizes the physical layout (columns and usable rows) from the
//!   recorded work and orchestrates a synthesis pass.
//! * [`gate`] owns the virtual lanes (generic gate lanes plus paired
//!   dense/spread lanes) and packs them deterministically into physical
//!   row/column slots.
//! * [`spread`] defines the dense/spread encoding that makes bitwise
//!   operations cheap to constrain algebraically.

pub mod circuit;
pub mod gate;
pub mod spread;
