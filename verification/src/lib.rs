//! Frame pacing: the rules by which a render loop holds a target frame time.
//!
//! A host runs two sides. The simulation side owns the settings; once per tick it
//! copies them into a mirror ([`shared::update_proxy_resources`]) and computes the
//! frame-time target, from the displays' refresh rates or from a fixed setting
//! ([`shared::get_display_refresh_rate`]). The render side runs the pacer at the tail
//! of every frame: [`pacer::framerate_limiter`] says how long to wait, and after the
//! wait [`pacer::complete_frame`] restarts the timer and publishes what was measured.
//! The oversleep of one cycle is taken off the wait of the next, which keeps the drift
//! bounded ([`drift`]).
//!
//! The library holds no lock, reads no clock and never blocks. The host keeps each
//! shared value behind a lock that it only ever tries, and hands over the outcome of
//! the attempt: a value whose lock was held arrives as `None`, and its read or write is
//! passed over for the cycle. Clock readings arrive as [`time::TimeSpan`]s counted
//! from an origin of the host's choosing.

pub mod detect;
pub mod drift;
pub mod limiter;
pub mod pacer;
pub mod shared;
pub mod time;
