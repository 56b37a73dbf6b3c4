//! A two-party, commit-reveal rock-paper-scissors protocol core.
//!
//! The library is the stage-gated state machine of a single game: participant
//! registration, commitment storage, commitment-bound reveal verification and
//! winner resolution. Persistence, transaction dispatch and event delivery are
//! the host's business; the host hands each action to [`juego::Juego`] and
//! forwards the returned event to its notification channel.

pub mod compromiso;
pub mod juego;
pub mod jugadores;
pub mod tipos;
