//! Bookkeeping core of a per-application volume mixer.
//!
//! The host audio service is driven by the embedding program; this crate
//! decides what the program has to do with it: which callback an event goes
//! to, which sessions are replayed to a new subscriber, which session a
//! process name selects, whether a level may be sent, and in which order a
//! connection is torn down.

pub mod directory;
pub mod error;
pub mod events;
pub mod inventory;
pub mod laws;
pub mod manager;
pub mod session;
pub mod volume;

pub use error::MixerError;
pub use manager::AudioSessionManager;
pub use session::AudioSessionControl;
pub use volume::AudioVolumeControl;
