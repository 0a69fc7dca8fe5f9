//! Smooth-scrolling engine for a pointing-stick keyboard's middle-button
//! scroll sensor.
//!
//! The heart of the crate is a per-axis scroll state machine
//! ([`state::ScrollState`]) that ingests bursty wheel ticks and emits a
//! periodic stream of signed deltas whose cumulative sum tracks the user's
//! input, together with a feed-rate estimator ([`feed_rate::FeedRate`]) that
//! calibrates the machine's responsiveness.  All engine quantities are held
//! in fixed-point micro-units so that every arithmetic step is exact and
//! machine-checked.

pub mod args;
pub mod blocker;
pub mod connection;
pub mod control;
pub mod devices;
pub mod feed_rate;
pub mod fixed;
pub mod hid;
pub mod input;
pub mod laws;
pub mod middle_button_state;
pub mod mouse_hal;
pub mod state;
pub mod text;
pub mod tpmiddle;
pub mod units;

pub use feed_rate::FeedRate;
pub use state::ScrollState;
pub use units::Delta;
pub use units::Direction;
pub use units::Tick;
pub use units::Wheel;
pub use units::WHEEL_DELTA;
