//! Late-initialised boxes.
//!
//! A box starts empty and is filled after construction, any number of times;
//! each `init` replaces what was stored before. Two boxes are offered:
//!
//! * [`Lateinit`], whose accessors test the slot when they run, and
//! * [`LateinitUnchecked`], whose accessors leave presence entirely to the
//!   caller.
//!
//! Both are described by the same two-state machine, defined in [`slot`]
//! together with the laws that hold of it. Every accessor states as a
//! precondition that the box has been initialised, so verified code can reach
//! neither the failure of the first box nor the misuse of the second.

pub mod checked;
pub mod slot;
pub mod unchecked;

pub use checked::Lateinit;
pub use unchecked::LateinitUnchecked;
