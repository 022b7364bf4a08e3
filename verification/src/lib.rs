//! A lazily driven sequence of timestamps whose spacing follows a
//! piecewise-linear target event rate.
//!
//! A caller builds a [`ModInterval`] plan by appending segments, each of which
//! interpolates linearly from a start rate to an end rate over a fixed
//! duration.  Converting the plan yields a [`TickStream`]: a pull-based
//! generator that, given successive readings of a monotonic millisecond
//! clock, reports how long to wait before each emission and the instant to
//! emit.  Driving the generator (supplying clock readings and performing the
//! waits) is left to the caller, so the timing logic itself is fully
//! verified and independent of any clock or timer implementation.
//!
//! All arithmetic is exact: rates are integer counts per minute and times are
//! integer milliseconds, so the rate curve and the derived intervals are
//! rational numbers with no rounding besides the final floor to whole
//! milliseconds.

pub mod laws;
pub mod plan;
pub mod rate;
pub mod segment;
pub mod stream;

pub use plan::ModInterval;
pub use rate::PerX;
pub use segment::LinearSegment;
pub use stream::ActiveSegment;
pub use stream::Pull;
pub use stream::TickStream;
