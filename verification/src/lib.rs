//! Relays text records into a Redis list through a bounded, lossy hand-off
//! buffer, surviving outages of the store.
//!
//! The crate holds the two mechanisms that carry the guarantees:
//!
//! * [`channel::OverwriteChannel`], a fixed-capacity buffer that never makes
//!   the producer wait and discards the oldest pending message when full;
//! * [`feeder::RedisFeeder`], the writer's connect / store / reconnect state
//!   machine. It performs no I/O itself: a driver carries out each
//!   [`feeder::Directive`] and reports what happened as an [`feeder::Event`].
//!
//! Every executable function is verified against its contract. The laws
//! that relate several operations are stated and proved beside the models
//! they speak of: [`handoff`] follows the buffer through sends and receives
//! in any order, [`run`] follows the writer through sequences of events.
//!
//! Two outside crates are relied on and not verified: `ring-channel`, which
//! [`ring`] describes, and the error type of `redis`, which [`failure`]
//! classifies.

pub mod message;
pub mod feeder;
pub mod failure;
pub mod ring;
pub mod channel;
pub mod handoff;
pub mod run;
