//! A box that remembers whether the value in it has been handed out for
//! writing.
//!
//! [`Modify`] holds a value and a flag. Reading the value leaves the flag
//! alone; taking the value for writing raises it, whether or not anything is
//! written afterwards; [`Modify::saved`] lowers it again. Proofs see a box as
//! a [`State`], and every operation is described as a step on that state.
//! What holds of those steps, whatever the value and however many of them
//! are taken, is proved in [`laws`].

pub mod laws;
pub mod modifiable;
pub mod state;
pub mod wrapper;

pub use modifiable::Modifiable;
pub use state::{Access, State};
pub use wrapper::Modify;
