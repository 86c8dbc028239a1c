//! Time-dilated physics for a single energy-charged sphere.
//!
//! A sphere bounces inside a bounded domain under gravity, drag and the
//! forces of a tilt input. Holding the input engaged slows time down for as
//! long as an energy reserve lasts; the reserve recharges when released.
//!
//! All quantities are fixed-point scalars (`fixed`): an `i64` that counts
//! millionths, with saturating and toward-zero-rounding arithmetic, so every
//! step is total and exactly specified. A frame runs the input sampler
//! (`keyboard`, `controls`), the chrono controller (`chrono_slowmo`), the body steps
//! (`physics`, `controls`, `sphere`) and the visual feedback, in that order
//! (`pipeline`).

pub mod chrono_slowmo;
pub mod controls;
pub mod fixed;
pub mod keyboard;
pub mod physics;
pub mod pipeline;
pub mod sphere;
pub mod vector;
